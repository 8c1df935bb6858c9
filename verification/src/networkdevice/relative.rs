//! Where below the transit mount point the encrypted files lie.
use crate::networkdevice::error::{NetworkDeviceError, NetworkDeviceErrorView};
use crate::text;
use crate::text::{same_text, split_at_each, trimmed, trimmed_end, CharSet};
use vstd::prelude::*;
use vstd::string::*;

verus! {

/// The reason that goes with a rejected path.
pub const RELATIVE_PATH_REASON: &'static str =
    "path must be relative and must not contain '.' or '..'";

/// A relative path is made of ordinary names: no component goes up, and the first
/// one is not the current directory. (A later `.` names nothing, as do repeated
/// slashes.)
pub open spec fn only_names(path: Seq<char>) -> bool {
    let pieces = text::split(path, '/');
    &&& pieces[0] != "."@
    &&& goes_never_up(path)
}

/// No component of the path is `..`.
pub open spec fn goes_never_up(path: Seq<char>) -> bool {
    forall|i: int|
        0 <= i < text::split(path, '/').len() ==> #[trigger] text::split(path, '/')[i] != ".."@
}

/// The relative path as the user meant it: without surrounding white space, or empty
/// where none is given.
pub open spec fn requested_path(relative_mount_path: Option<Seq<char>>) -> Seq<char> {
    match relative_mount_path {
        Some(p) => text::trim(p, CharSet::WhiteSpace),
        None => Seq::empty(),
    }
}

/// The names of the requested path, without slashes around them.
pub open spec fn requested_names(relative_mount_path: Option<Seq<char>>) -> Seq<char> {
    text::trim(requested_path(relative_mount_path), CharSet::Only('/'))
}

/// The path `names` below `base`.
pub open spec fn below(base: Seq<char>, names: Seq<char>) -> Seq<char> {
    text::trim_end(base, CharSet::Only('/')) + "/"@ + names
}

/// What a path relative to the transit mount point resolves to. It is rejected if and
/// only if it holds a component that is no name.
pub open spec fn resolved_path(
    transit_mount_point: Seq<char>,
    relative_mount_path: Option<Seq<char>>,
) -> Result<Seq<char>, NetworkDeviceErrorView> {
    let names = requested_names(relative_mount_path);
    if names.len() == 0 {
        Ok(transit_mount_point)
    } else if only_names(names) {
        Ok(below(transit_mount_point, names))
    } else {
        Err(
            NetworkDeviceErrorView::InvalidRelativeMountPath {
                path: requested_path(relative_mount_path),
                reason: RELATIVE_PATH_REASON@,
            },
        )
    }
}

/// Resolves a path relative to the transit mount point.
///
/// Without a path, or with one of white space and slashes only, this is the transit
/// mount point itself.
pub fn resolve_relative_mount_path(
    transit_mount_point: &str,
    relative_mount_path: Option<&str>,
) -> (r: Result<String, NetworkDeviceError>)
    ensures
        ({
            let given = match relative_mount_path {
                Some(p) => Some(p@),
                None => None,
            };
            match r {
                Ok(path) => resolved_path(transit_mount_point@, given) == Ok::<
                    Seq<char>,
                    NetworkDeviceErrorView,
                >(path@),
                Err(e) => resolved_path(transit_mount_point@, given) == Err::<
                    Seq<char>,
                    NetworkDeviceErrorView,
                >(e@),
            }
        }),
{
    let requested = match relative_mount_path {
        Some(p) => trimmed(p, CharSet::WhiteSpace),
        None => {
            return Ok(transit_mount_point.to_owned());
        },
    };
    let names = trimmed(requested, CharSet::Only('/'));
    if names.is_empty() {
        return Ok(transit_mount_point.to_owned());
    }
    let pieces = split_at_each(names, '/');
    let ghost all = text::split(names@, '/');
    let n: usize = pieces.len();
    proof {
        text::lemma_split_pieces(names@, '/');
    }
    let mut accepted = !same_text(pieces[0], ".");
    assert(all[0] == pieces@[0]@);
    let mut i: usize = 0;
    while i < n && accepted
        invariant
            i <= n,
            n == pieces@.len(),
            n > 0,
            all == text::texts(pieces@),
            accepted ==> all[0] != "."@,
            accepted ==> forall|k: int| 0 <= k < i ==> #[trigger] all[k] != ".."@,
            !accepted ==> all[0] == "."@ || exists|k: int|
                0 <= k < n && #[trigger] all[k] == ".."@,
        decreases n - i,
    {
        assert(all[i as int] == pieces@[i as int]@);
        if same_text(pieces[i], "..") {
            accepted = false;
        }
        i = i + 1;
    }
    if accepted {
        Ok(trimmed_end(transit_mount_point, CharSet::Only('/')).to_owned().concat("/").concat(names))
    } else {
        Err(
            NetworkDeviceError::InvalidRelativeMountPath {
                path: requested.to_owned(),
                reason: RELATIVE_PATH_REASON.to_owned(),
            },
        )
    }
}

/// A path below a base, made of names, begins with the base (without trailing
/// slashes), and goes up nowhere the base does not.
pub proof fn law_resolved_path_stays_below(base: Seq<char>, names: Seq<char>)
    requires
        only_names(names),
    ensures
        text::trim_end(base, CharSet::Only('/')).is_prefix_of(below(base, names)),
        goes_never_up(base) ==> goes_never_up(below(base, names)),
{
    reveal_strlit("/");
    let kept = text::trim_end(base, CharSet::Only('/'));
    assert(below(base, names) =~= kept.push('/') + names);
    assert(below(base, names).subrange(0, kept.len() as int) =~= kept);
    text::lemma_split_concat(kept, '/', names);
    if goes_never_up(base) {
        lemma_trim_goes_never_up(base);
        let all = text::split(below(base, names), '/');
        let first = text::split(kept, '/');
        let second = text::split(names, '/');
        assert forall|i: int| 0 <= i < all.len() implies #[trigger] all[i] != ".."@ by {
            if i < first.len() {
                assert(all[i] == first[i]);
            } else {
                assert(all[i] == second[i - first.len()]);
            }
        }
    }
}

proof fn lemma_trim_goes_never_up(base: Seq<char>)
    requires
        goes_never_up(base),
    ensures
        goes_never_up(text::trim_end(base, CharSet::Only('/'))),
    decreases base.len(),
{
    if base.len() > 0 && base.last() == '/' {
        let front = base.drop_last();
        assert(base =~= front.push('/') + Seq::<char>::empty());
        text::lemma_split_concat(front, '/', Seq::empty());
        let all = text::split(base, '/');
        assert forall|i: int| 0 <= i < text::split(front, '/').len() implies #[trigger] text::split(
            front,
            '/',
        )[i] != ".."@ by {
            assert(all[i] == text::split(front, '/')[i]);
        }
        lemma_trim_goes_never_up(front);
    }
}

} // verus!
