//! Mount options: `key=value` pairs and flags, separated by commas.
use crate::text;
use crate::text::{joined_by_commas, same_text, split_at_each, split_at_first, trimmed, CharSet};
use vstd::prelude::*;
use vstd::string::*;

verus! {

/// The NFS version that is asked for where the user asks for none.
pub const DEFAULT_NFS_VERSION: &'static str = "4.2";

/// One option: its key and its value. A flag has an empty value.
pub type Entry = (Seq<char>, Seq<char>);

/// The position of `key` among the entries, or their number where it is not there.
pub open spec fn position(entries: Seq<Entry>, key: Seq<char>) -> nat
    decreases entries.len(),
{
    if entries.len() == 0 || entries[0].0 == key {
        0
    } else {
        1 + position(entries.drop_first(), key)
    }
}

/// The value of `key`.
pub open spec fn lookup(entries: Seq<Entry>, key: Seq<char>) -> Option<Seq<char>> {
    if position(entries, key) < entries.len() {
        Some(entries[position(entries, key) as int].1)
    } else {
        None
    }
}

/// The entries with the value of `key` set: in its place where the key is there, at
/// the end where it is not.
pub open spec fn put(entries: Seq<Entry>, key: Seq<char>, value: Seq<char>) -> Seq<Entry> {
    let i = position(entries, key) as int;
    if i < entries.len() {
        entries.update(i, (key, value))
    } else {
        entries.push((key, value))
    }
}

/// The entries with a value for `key`: the one that is there, or else `value`.
pub open spec fn put_if_absent(entries: Seq<Entry>, key: Seq<char>, value: Seq<char>) -> Seq<
    Entry,
> {
    if lookup(entries, key) is Some {
        entries
    } else {
        put(entries, key, value)
    }
}

/// No key occurs twice.
pub open spec fn distinct_keys(entries: Seq<Entry>) -> bool {
    forall|i: int, j: int|
        0 <= i < j < entries.len() ==> (#[trigger] entries[i]).0 != (#[trigger] entries[j]).0
}

/// The option that a piece of text between commas stands for.
pub open spec fn option_of(piece: Seq<char>) -> Entry {
    let i = text::find(piece, '=') as int;
    if i < piece.len() {
        (
            text::trim(piece.take(i), CharSet::WhiteSpace),
            text::trim(piece.skip(i + 1), CharSet::WhiteSpace),
        )
    } else {
        (text::trim(piece, CharSet::WhiteSpace), Seq::empty())
    }
}

/// The options of a sequence of pieces; empty pieces count for nothing, and of two
/// values for one key the later one stands.
pub open spec fn collect(pieces: Seq<Seq<char>>) -> Seq<Entry>
    decreases pieces.len(),
{
    if pieces.len() == 0 {
        Seq::empty()
    } else if pieces.last().len() == 0 {
        collect(pieces.drop_last())
    } else {
        put(collect(pieces.drop_last()), option_of(pieces.last()).0, option_of(pieces.last()).1)
    }
}

/// The options that `s` lists.
pub open spec fn parse_options(s: Seq<char>) -> Seq<Entry> {
    collect(text::split(s, ','))
}

/// The text of one option.
pub open spec fn option_text(e: Entry) -> Seq<char> {
    if e.1.len() == 0 {
        e.0
    } else {
        e.0.push('=') + e.1
    }
}

/// The texts of the options.
pub open spec fn option_texts(entries: Seq<Entry>) -> Seq<Seq<char>> {
    Seq::new(entries.len(), |i: int| option_text(entries[i]))
}

/// The options as one text.
pub open spec fn options_text(entries: Seq<Entry>) -> Seq<char> {
    text::join(option_texts(entries), ',')
}

/// A set of mount options: no key occurs twice.
#[derive(Debug)]
pub struct MountOptions {
    entries: Vec<(String, String)>,
}

impl View for MountOptions {
    type V = Seq<Entry>;

    closed spec fn view(&self) -> Seq<Entry> {
        Seq::new(
            self.entries@.len(),
            |i: int| (self.entries@[i].0@, self.entries@[i].1@),
        )
    }
}

impl MountOptions {
    #[verifier::type_invariant]
    spec fn keys_are_distinct(self) -> bool {
        distinct_keys(self@)
    }

    /// No options.
    pub fn new() -> (r: MountOptions)
        ensures
            r@ == Seq::<Entry>::empty(),
    {
        MountOptions { entries: Vec::new() }
    }

    /// The number of options.
    pub fn len(&self) -> (n: usize)
        ensures
            n == self@.len(),
    {
        self.entries.len()
    }

    fn position_of(&self, key: &str) -> (r: usize)
        ensures
            r == position(self@, key@),
            r <= self.entries@.len(),
    {
        let n: usize = self.entries.len();
        let mut i: usize = 0;
        while i < n && !same_text(self.entries[i].0.as_str(), key)
            invariant
                i <= n,
                n == self.entries@.len(),
                forall|k: int| 0 <= k < i ==> (#[trigger] self@[k]).0 != key@,
            decreases n - i,
        {
            assert(self@[i as int].0 == self.entries@[i as int].0@);
            i = i + 1;
        }
        proof {
            if i < n {
                assert(self@[i as int].0 == self.entries@[i as int].0@);
            }
            lemma_position_is(self@, key@, i as int);
        }
        i
    }

    /// Tells whether there is an option `key`.
    pub fn contains_key(&self, key: &str) -> (r: bool)
        ensures
            r == (lookup(self@, key@) is Some),
    {
        self.position_of(key) < self.entries.len()
    }

    /// The value of option `key`.
    pub fn get(&self, key: &str) -> (r: Option<&String>)
        ensures
            match r {
                Some(v) => lookup(self@, key@) == Some(v@),
                None => lookup(self@, key@) is None,
            },
    {
        let i: usize = self.position_of(key);
        if i < self.entries.len() {
            Some(&self.entries[i].1)
        } else {
            None
        }
    }

    /// Sets the value of option `key`.
    pub fn with(self, key: String, value: String) -> (r: MountOptions)
        ensures
            r@ == put(self@, key@, value@),
    {
        proof {
            use_type_invariant(&self);
            lemma_put_distinct(self@, key@, value@);
        }
        let ghost before = self@;
        let i: usize = self.position_of(key.as_str());
        let MountOptions { entries } = self;
        let mut entries = entries;
        let ghost new = put(before, key@, value@);
        if i < entries.len() {
            entries.set(i, (key, value));
        } else {
            entries.push((key, value));
        }
        assert(Seq::new(entries@.len(), |i: int| (entries@[i].0@, entries@[i].1@)) =~= new);
        MountOptions { entries }
    }
}

/// A position without the key before it, at the key or at the end, is what
/// `position` gives.
pub proof fn lemma_position_is(entries: Seq<Entry>, key: Seq<char>, k: int)
    requires
        0 <= k <= entries.len(),
        forall|i: int| 0 <= i < k ==> (#[trigger] entries[i]).0 != key,
        k < entries.len() ==> entries[k].0 == key,
    ensures
        position(entries, key) == k,
    decreases entries.len(),
{
    if k > 0 {
        let rest = entries.drop_first();
        assert(entries[0].0 != key);
        assert forall|i: int| 0 <= i < k - 1 implies (#[trigger] rest[i]).0 != key by {
            assert(rest[i] == entries[i + 1]);
        }
        lemma_position_is(rest, key, k - 1);
    }
}

/// `position` gives the first entry with the key.
pub proof fn lemma_position(entries: Seq<Entry>, key: Seq<char>)
    ensures
        position(entries, key) <= entries.len(),
        forall|i: int| 0 <= i < position(entries, key) ==> (#[trigger] entries[i]).0 != key,
        position(entries, key) < entries.len() ==> entries[position(entries, key) as int].0 == key,
    decreases entries.len(),
{
    if entries.len() > 0 && entries[0].0 != key {
        let rest = entries.drop_first();
        lemma_position(rest, key);
        assert forall|i: int| 0 <= i < position(entries, key) implies (#[trigger] entries[i]).0
            != key by {
            if i > 0 {
                assert(entries[i] == rest[i - 1]);
            }
        }
    }
}

/// Setting an option keeps the keys distinct.
pub proof fn lemma_put_distinct(entries: Seq<Entry>, key: Seq<char>, value: Seq<char>)
    requires
        distinct_keys(entries),
    ensures
        distinct_keys(put(entries, key, value)),
{
    lemma_position(entries, key);
    let new = put(entries, key, value);
    assert forall|i: int, j: int| 0 <= i < j < new.len() implies (#[trigger] new[i]).0 != (
    #[trigger] new[j]).0 by {
        if i < entries.len() && j < entries.len() {
            assert(entries[i].0 != entries[j].0);
            assert(new[i].0 == entries[i].0);
            assert(new[j].0 == entries[j].0);
        } else {
            assert(new[i] == entries[i]);
        }
    }
}

/// Reads mount options of the form `key1=value1,key2=value2,flag`.
///
/// Empty pieces between commas count for nothing. Keys and values lose their
/// surrounding white space. Of two values for one key the later one stands.
pub fn parse_mount_options(options_str: &str) -> (r: MountOptions)
    ensures
        r@ == parse_options(options_str@),
        distinct_keys(r@),
{
    let pieces = split_at_each(options_str, ',');
    let ghost all = text::split(options_str@, ',');
    let n: usize = pieces.len();
    let mut options = MountOptions::new();
    let mut i: usize = 0;
    while i < n
        invariant
            i <= n,
            n == pieces@.len(),
            all == text::texts(pieces@),
            options@ == collect(all.take(i as int)),
        decreases n - i,
    {
        let piece = pieces[i];
        assert(all.take(i + 1).drop_last() =~= all.take(i as int));
        assert(all.take(i + 1).last() == piece@);
        if !piece.is_empty() {
            match split_at_first(piece, '=') {
                Some((key, value)) => {
                    options = options.with(
                        trimmed(key, CharSet::WhiteSpace).to_owned(),
                        trimmed(value, CharSet::WhiteSpace).to_owned(),
                    );
                },
                None => {
                    options = options.with(
                        trimmed(piece, CharSet::WhiteSpace).to_owned(),
                        String::new(),
                    );
                },
            }
        }
        i = i + 1;
    }
    assert(all.take(n as int) =~= all);
    proof {
        lemma_collect_distinct(all);
    }
    options
}

/// Writes mount options as a text, separated by commas.
pub fn mount_options_to_string(options: &MountOptions) -> (r: String)
    ensures
        r@ == options_text(options@),
{
    let n: usize = options.entries.len();
    let mut parts: Vec<String> = Vec::new();
    let mut i: usize = 0;
    while i < n
        invariant
            i <= n,
            n == options.entries@.len(),
            parts@.len() == i,
            forall|k: int| 0 <= k < i ==> (#[trigger] parts@[k])@ == option_text(options@[k]),
        decreases n - i,
    {
        let key = &options.entries[i].0;
        let value = &options.entries[i].1;
        let part = if value.as_str().is_empty() {
            key.clone()
        } else {
            proof {
                reveal_strlit("=");
            }
            let whole = key.clone().concat("=").concat(value.as_str());
            assert(whole@ =~= key@.push('=') + value@);
            whole
        };
        parts.push(part);
        i = i + 1;
    }
    assert(text::strings(parts@) =~= option_texts(options@));
    joined_by_commas(&parts)
}

/// The options with a version and a server address: what the user gave, or else the
/// default version and `server_addr`.
pub open spec fn with_nfs4_defaults(entries: Seq<Entry>, server_addr: Seq<char>) -> Seq<Entry> {
    put_if_absent(
        put_if_absent(entries, "vers"@, DEFAULT_NFS_VERSION@),
        "addr"@,
        server_addr,
    )
}

/// The user's options.
pub open spec fn user_entries(user_options: Option<Seq<char>>) -> Seq<Entry> {
    match user_options {
        Some(s) => parse_options(s),
        None => Seq::empty(),
    }
}

/// Ensures that the options which an NFSv4 mount needs are there.
///
/// Adds `vers=4.2` where there is no `vers`, and `addr=<server_addr>` where there is
/// no `addr`. Gives the options as one text, ready for the mount system call.
/// `server_addr` is the server's IP address in its usual text form.
pub fn ensure_nfs4_mount_options(server_addr: &str, user_options: Option<&str>) -> (r: String)
    ensures
        r@ == options_text(
            with_nfs4_defaults(
                user_entries(
                    match user_options {
                        Some(s) => Some(s@),
                        None => None,
                    },
                ),
                server_addr@,
            ),
        ),
{
    let mut options = match user_options {
        Some(s) => parse_mount_options(s),
        None => MountOptions::new(),
    };
    if !options.contains_key("vers") {
        options = options.with("vers".to_owned(), DEFAULT_NFS_VERSION.to_owned());
    }
    if !options.contains_key("addr") {
        options = options.with("addr".to_owned(), server_addr.to_owned());
    }
    mount_options_to_string(&options)
}

/// Collected options have distinct keys.
pub proof fn lemma_collect_distinct(pieces: Seq<Seq<char>>)
    ensures
        distinct_keys(collect(pieces)),
    decreases pieces.len(),
{
    if pieces.len() > 0 {
        lemma_collect_distinct(pieces.drop_last());
        lemma_put_distinct(
            collect(pieces.drop_last()),
            option_of(pieces.last()).0,
            option_of(pieces.last()).1,
        );
    }
}

/// An option that its text form can carry: no surrounding white space and no comma,
/// and no equals sign in the key.
pub open spec fn is_plain(e: Entry) -> bool {
    &&& text::is_trimmed(e.0, CharSet::WhiteSpace)
    &&& text::is_trimmed(e.1, CharSet::WhiteSpace)
    &&& !e.0.contains(',')
    &&& !e.1.contains(',')
    &&& !e.0.contains('=')
}

/// Every option is plain.
pub open spec fn all_plain(entries: Seq<Entry>) -> bool {
    forall|i: int| 0 <= i < entries.len() ==> is_plain(#[trigger] entries[i])
}

/// Some option has neither a key nor a value.
pub open spec fn has_blank(entries: Seq<Entry>) -> bool {
    exists|i: int|
        0 <= i < entries.len() && (#[trigger] entries[i]).0.len() == 0 && entries[i].1.len() == 0
}

/// What is not in a text is not in what trimming leaves of it.
proof fn lemma_trim_lacks(s: Seq<char>, c: char)
    requires
        !s.contains(c),
    ensures
        !text::trim(s, CharSet::WhiteSpace).contains(c),
{
    text::lemma_trim(s, CharSet::WhiteSpace);
    let (from, to) = choose|from: int, to: int|
        0 <= from <= to <= s.len() && text::trim(s, CharSet::WhiteSpace) == #[trigger] s.subrange(
            from,
            to,
        );
    let t = s.subrange(from, to);
    assert forall|i: int| 0 <= i < t.len() implies t[i] != c by {
        assert(t[i] == s[from + i]);
    }
}

/// The option of a piece without commas is plain.
proof fn lemma_option_of_plain(piece: Seq<char>)
    requires
        !piece.contains(','),
    ensures
        is_plain(option_of(piece)),
{
    let i = text::find(piece, '=') as int;
    text::lemma_find(piece, '=');
    if i < piece.len() {
        let key = piece.take(i);
        let value = piece.skip(i + 1);
        assert forall|k: int| 0 <= k < key.len() implies key[k] != ',' && key[k] != '=' by {
            assert(key[k] == piece[k]);
        }
        assert forall|k: int| 0 <= k < value.len() implies value[k] != ',' by {
            assert(value[k] == piece[k + i + 1]);
        }
        text::lemma_trim(key, CharSet::WhiteSpace);
        text::lemma_trim(value, CharSet::WhiteSpace);
        lemma_trim_lacks(key, ',');
        lemma_trim_lacks(key, '=');
        lemma_trim_lacks(value, ',');
    } else {
        text::lemma_trim(piece, CharSet::WhiteSpace);
        lemma_trim_lacks(piece, ',');
        lemma_trim_lacks(piece, '=');
    }
}

/// Setting an option to a plain value keeps all options plain.
proof fn lemma_put_plain(entries: Seq<Entry>, key: Seq<char>, value: Seq<char>)
    requires
        all_plain(entries),
        is_plain((key, value)),
    ensures
        all_plain(put(entries, key, value)),
{
}

proof fn lemma_collect_plain(pieces: Seq<Seq<char>>)
    requires
        forall|i: int| 0 <= i < pieces.len() ==> !(#[trigger] pieces[i]).contains(','),
    ensures
        all_plain(collect(pieces)),
    decreases pieces.len(),
{
    if pieces.len() > 0 {
        let front = pieces.drop_last();
        assert forall|i: int| 0 <= i < front.len() implies !(#[trigger] front[i]).contains(',') by {
            assert(front[i] == pieces[i]);
        }
        lemma_collect_plain(front);
        lemma_option_of_plain(pieces.last());
        lemma_put_plain(collect(front), option_of(pieces.last()).0, option_of(pieces.last()).1);
    }
}

/// Reading mount options gives distinct keys, and keys and values without
/// surrounding white space or commas.
pub proof fn law_parsed_options_are_plain(s: Seq<char>)
    ensures
        all_plain(parse_options(s)),
        distinct_keys(parse_options(s)),
{
    text::lemma_split_pieces(s, ',');
    lemma_collect_plain(text::split(s, ','));
    lemma_collect_distinct(text::split(s, ','));
}

/// A plain option, not blank, is read back from its text.
proof fn lemma_option_reads_back(e: Entry)
    requires
        is_plain(e),
        e.0.len() > 0 || e.1.len() > 0,
    ensures
        option_of(option_text(e)) == e,
        option_text(e).len() > 0,
        !option_text(e).contains(','),
{
    let t = option_text(e);
    if e.1.len() == 0 {
        text::lemma_find(t, '=');
        text::lemma_trim_trimmed(t, CharSet::WhiteSpace);
        assert(e.1 =~= Seq::empty());
    } else {
        let i = e.0.len() as int;
        assert(t[i] == '=');
        assert forall|k: int| 0 <= k < i implies t[k] != '=' by {
            assert(t[k] == e.0[k]);
        }
        text::lemma_find_is(t, '=', i);
        assert(t.take(i) =~= e.0);
        assert(t.skip(i + 1) =~= e.1);
        text::lemma_trim_trimmed(e.0, CharSet::WhiteSpace);
        text::lemma_trim_trimmed(e.1, CharSet::WhiteSpace);
        assert forall|k: int| 0 <= k < t.len() implies t[k] != ',' by {
            if k < i {
                assert(t[k] == e.0[k]);
            } else if k > i {
                assert(t[k] == e.1[k - i - 1]);
            }
        }
    }
}

proof fn lemma_collect_reads_back(entries: Seq<Entry>, n: int)
    requires
        0 <= n <= entries.len(),
        all_plain(entries),
        distinct_keys(entries),
        !has_blank(entries),
    ensures
        collect(option_texts(entries).take(n)) == entries.take(n),
    decreases n,
{
    let parts = option_texts(entries);
    if n > 0 {
        lemma_collect_reads_back(entries, n - 1);
        assert(parts.take(n).drop_last() =~= parts.take(n - 1));
        let e = entries[n - 1];
        assert(parts.take(n).last() == option_text(e));
        assert(e.0.len() > 0 || e.1.len() > 0);
        lemma_option_reads_back(e);
        let front = entries.take(n - 1);
        assert forall|i: int| 0 <= i < front.len() implies (#[trigger] front[i]).0 != e.0 by {
            assert(front[i] == entries[i]);
        }
        lemma_position_is(front, e.0, front.len() as int);
        assert(front.push(e) =~= entries.take(n));
    } else {
        assert(parts.take(0) =~= Seq::empty());
        assert(entries.take(0) =~= Seq::empty());
    }
}

/// Writing plain options with distinct keys as a text and reading the text gives the
/// options back, unless one of them has neither a key nor a value: its text is empty.
pub proof fn law_written_options_read_back(entries: Seq<Entry>)
    requires
        all_plain(entries),
        distinct_keys(entries),
        !has_blank(entries),
    ensures
        parse_options(options_text(entries)) == entries,
{
    let parts = option_texts(entries);
    if entries.len() == 0 {
        assert(!Seq::<char>::empty().contains(','));
        text::lemma_split_whole(Seq::empty(), ',');
        let one = seq![Seq::<char>::empty()];
        assert(one.drop_last() =~= Seq::empty());
        assert(collect(one.drop_last()) =~= entries);
        assert(parts =~= Seq::empty());
    } else {
        assert forall|i: int| 0 <= i < parts.len() implies !(#[trigger] parts[i]).contains(',') by {
            let e = entries[i];
            assert(e.0.len() > 0 || e.1.len() > 0);
            lemma_option_reads_back(e);
        }
        text::law_split_undoes_join(parts, ',');
        lemma_collect_reads_back(entries, entries.len() as int);
        assert(parts.take(parts.len() as int) =~= parts);
        assert(entries.take(entries.len() as int) =~= entries);
    }
}

/// Reading a text of options, writing the options and reading that again gives the
/// same options, unless one of them has neither a key nor a value.
pub proof fn law_mount_options_roundtrip(s: Seq<char>)
    requires
        !has_blank(parse_options(s)),
    ensures
        parse_options(options_text(parse_options(s))) == parse_options(s),
{
    law_parsed_options_are_plain(s);
    law_written_options_read_back(parse_options(s));
}

/// Setting one option leaves the values of the others.
pub proof fn law_put_changes_one_key(
    entries: Seq<Entry>,
    key: Seq<char>,
    value: Seq<char>,
    other: Seq<char>,
)
    ensures
        lookup(put(entries, key, value), other) == if other == key {
            Some(value)
        } else {
            lookup(entries, other)
        },
{
    let new = put(entries, key, value);
    let p = position(entries, key) as int;
    let q = position(entries, other) as int;
    lemma_position(entries, key);
    lemma_position(entries, other);
    if other == key {
        assert forall|i: int| 0 <= i < p implies (#[trigger] new[i]).0 != key by {
            assert(new[i] == entries[i]);
        }
        lemma_position_is(new, key, p);
    } else {
        assert forall|i: int| 0 <= i < q implies (#[trigger] new[i]).0 != other by {
            if i == p {
                assert(new[i].0 == key);
            } else {
                assert(new[i] == entries[i]);
            }
        }
        if q < entries.len() {
            assert(p != q);
            assert(new[q] == entries[q]);
            lemma_position_is(new, other, q);
        } else {
            assert forall|i: int| 0 <= i < new.len() implies (#[trigger] new[i]).0 != other by {
                if i == p {
                    assert(new[i].0 == key);
                } else {
                    assert(new[i] == entries[i]);
                }
            }
            lemma_position_is(new, other, new.len() as int);
        }
    }
}

/// With its defaults, a set of options has a version and an address: those that were
/// there, or else the default version and the server's address. Every other option
/// is as it was.
pub proof fn law_nfs4_defaults(entries: Seq<Entry>, server_addr: Seq<char>, key: Seq<char>)
    ensures
        lookup(with_nfs4_defaults(entries, server_addr), key) == if lookup(entries, key) is Some {
            lookup(entries, key)
        } else if key == "vers"@ {
            Some(DEFAULT_NFS_VERSION@)
        } else if key == "addr"@ {
            Some(server_addr)
        } else {
            None
        },
{
    reveal_strlit("vers");
    reveal_strlit("addr");
    assert("vers"@[0] != "addr"@[0]);
    let first = put_if_absent(entries, "vers"@, DEFAULT_NFS_VERSION@);
    law_put_changes_one_key(entries, "vers"@, DEFAULT_NFS_VERSION@, key);
    law_put_changes_one_key(entries, "vers"@, DEFAULT_NFS_VERSION@, "addr"@);
    law_put_changes_one_key(first, "addr"@, server_addr, key);
}

proof fn lemma_put_not_blank(entries: Seq<Entry>, key: Seq<char>, value: Seq<char>)
    requires
        !has_blank(entries),
        key.len() > 0,
    ensures
        !has_blank(put(entries, key, value)),
{
    let new = put(entries, key, value);
    if has_blank(new) {
        let i = choose|i: int|
            0 <= i < new.len() && (#[trigger] new[i]).0.len() == 0 && new[i].1.len() == 0;
        assert(new[i] == entries[i]);
    }
}

/// The text that an NFSv4 mount gets lists, when it is read again, exactly the user's
/// options and the defaults: a version and an address are always among them, and
/// what the user gave stands.
///
/// The address has no surrounding white space and no comma, as every IP address; no
/// option of the user has neither a key nor a value.
pub proof fn law_nfs4_options_text_reads_back(
    user_options: Option<Seq<char>>,
    server_addr: Seq<char>,
    key: Seq<char>,
)
    requires
        text::is_trimmed(server_addr, CharSet::WhiteSpace),
        !server_addr.contains(','),
        !has_blank(user_entries(user_options)),
    ensures
        ({
            let entries = with_nfs4_defaults(user_entries(user_options), server_addr);
            parse_options(options_text(entries)) == entries
        }),
        lookup(
            parse_options(
                options_text(with_nfs4_defaults(user_entries(user_options), server_addr)),
            ),
            key,
        ) == if lookup(user_entries(user_options), key) is Some {
            lookup(user_entries(user_options), key)
        } else if key == "vers"@ {
            Some(DEFAULT_NFS_VERSION@)
        } else if key == "addr"@ {
            Some(server_addr)
        } else {
            None
        },
{
    reveal_strlit("vers");
    reveal_strlit("addr");
    reveal_strlit("4.2");
    let user = user_entries(user_options);
    match user_options {
        Some(s) => law_parsed_options_are_plain(s),
        None => {},
    }
    let first = put_if_absent(user, "vers"@, DEFAULT_NFS_VERSION@);
    assert(DEFAULT_NFS_VERSION@ =~= seq!['4', '.', '2']);
    assert(is_plain(("vers"@, DEFAULT_NFS_VERSION@)));
    assert(is_plain(("addr"@, server_addr)));
    lemma_put_plain(user, "vers"@, DEFAULT_NFS_VERSION@);
    lemma_put_distinct(user, "vers"@, DEFAULT_NFS_VERSION@);
    lemma_put_not_blank(user, "vers"@, DEFAULT_NFS_VERSION@);
    lemma_put_plain(first, "addr"@, server_addr);
    lemma_put_distinct(first, "addr"@, server_addr);
    lemma_put_not_blank(first, "addr"@, server_addr);
    law_written_options_read_back(with_nfs4_defaults(user, server_addr));
    law_nfs4_defaults(user, server_addr, key);
}

/// Two sets of options give every key the same value.
pub open spec fn same_options(a: Seq<Entry>, b: Seq<Entry>) -> bool {
    forall|key: Seq<char>| #[trigger] lookup(a, key) == lookup(b, key)
}

impl MountOptions {
    /// Tells whether `other` gives every key of `self` the same value.
    fn within(&self, other: &MountOptions) -> (r: bool)
        ensures
            r == (forall|key: Seq<char>| #[trigger]
                lookup(self@, key) is Some ==> lookup(other@, key) == lookup(self@, key)),
    {
        let n: usize = self.entries.len();
        let mut i: usize = 0;
        proof {
            use_type_invariant(self);
        }
        while i < n
            invariant
                i <= n,
                n == self.entries@.len(),
                distinct_keys(self@),
                forall|k: int|
                    0 <= k < i ==> lookup(other@, (#[trigger] self@[k]).0) == Some(self@[k].1),
            decreases n - i,
        {
            let entry = &self.entries[i];
            assert(self@[i as int] == (entry.0@, entry.1@));
            let ghost key = entry.0@;
            proof {
                lemma_position_is(self@, key, i as int);
                assert(lookup(self@, key) == Some(entry.1@));
            }
            match other.get(entry.0.as_str()) {
                None => {
                    return false;
                },
                Some(v) => {
                    if !same_text(v.as_str(), entry.1.as_str()) {
                        return false;
                    }
                },
            }
            i = i + 1;
        }
        proof {
            assert forall|key: Seq<char>| #[trigger] lookup(self@, key) is Some implies lookup(
                other@,
                key,
            ) == lookup(self@, key) by {
                lemma_position(self@, key);
                assert(self@[position(self@, key) as int].0 == key);
            }
        }
        true
    }
}

impl PartialEq for MountOptions {
    /// Two sets of options are equal when every key has the same value in both.
    fn eq(&self, other: &Self) -> (r: bool) {
        let r = self.within(other) && other.within(self);
        proof {
            if r {
                assert forall|key: Seq<char>| #[trigger] lookup(self@, key) == lookup(
                    other@,
                    key,
                ) by {
                    assert(lookup(self@, key) is Some ==> lookup(other@, key) == lookup(self@, key));
                    assert(lookup(other@, key) is Some ==> lookup(self@, key) == lookup(
                        other@,
                        key,
                    ));
                }
            }
        }
        r
    }
}

impl vstd::std_specs::cmp::PartialEqSpecImpl for MountOptions {
    open spec fn obeys_eq_spec() -> bool {
        true
    }

    open spec fn eq_spec(&self, other: &Self) -> bool {
        same_options(self@, other@)
    }
}

} // verus!
