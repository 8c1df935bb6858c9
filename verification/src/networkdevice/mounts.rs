//! Reading the kernel's list of mounts.
use crate::text;
use crate::text::{lines_of, same_text, words_of};
use vstd::prelude::*;
use vstd::string::*;

verus! {

/// A line of the list (device, mount point, type, options, ...) is about this mount point.
pub open spec fn line_is_about(line: Seq<char>, path: Seq<char>) -> bool {
    text::words(line).len() > 1 && text::words(line)[1] == path
}

/// Some line of the list is about this mount point.
pub open spec fn lists_mount_point(mounts: Seq<char>, path: Seq<char>) -> bool {
    exists|i: int|
        0 <= i < text::lines(mounts).len() && line_is_about(#[trigger] text::lines(mounts)[i], path)
}

/// Tells whether something is mounted at `mount_point`, from the contents of
/// `/proc/mounts` and the canonical form of the path. Where the path has no canonical
/// form, it is looked for as it is.
pub fn is_mounted(mounts: &str, canonical_path: Option<&str>, mount_point: &str) -> (r: bool)
    ensures
        r == lists_mount_point(
            mounts@,
            match canonical_path {
                Some(path) => path@,
                None => mount_point@,
            },
        ),
{
    let path = match canonical_path {
        Some(path) => path,
        None => mount_point,
    };
    let lines = lines_of(mounts);
    let ghost all = text::lines(mounts@);
    let n: usize = lines.len();
    let mut i: usize = 0;
    while i < n
        invariant
            i <= n,
            path@ == (match canonical_path {
                Some(path) => path@,
                None => mount_point@,
            }),
            n == lines@.len(),
            all == text::lines(mounts@),
            all == text::texts(lines@),
            forall|k: int| 0 <= k < i ==> !line_is_about(#[trigger] all[k], path@),
        decreases n - i,
    {
        let words = words_of(lines[i]);
        assert(all[i as int] == lines@[i as int]@);
        assert(text::texts(words@) == text::words(all[i as int]));
        if words.len() > 1 && same_text(words[1], path) {
            assert(line_is_about(all[i as int], path@));
            return true;
        }
        i = i + 1;
    }
    false
}

} // verus!
