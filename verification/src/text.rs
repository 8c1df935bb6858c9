//! Text as sequences of characters: trimming, splitting, joining, and decimal
//! numbers.
use vstd::prelude::*;
use vstd::string::*;

verus! {

/// Characters with the Unicode `White_Space` property.
pub open spec fn white_space(c: char) -> bool {
    let u = c as u32;
    ||| 0x09 <= u <= 0x0d
    ||| u == 0x20
    ||| u == 0x85
    ||| u == 0xa0
    ||| u == 0x1680
    ||| 0x2000 <= u <= 0x200a
    ||| u == 0x2028
    ||| u == 0x2029
    ||| u == 0x202f
    ||| u == 0x205f
    ||| u == 0x3000
}

/// A set of characters to trim away or to split at.
#[derive(Clone, Copy)]
pub enum CharSet {
    /// Every character with the `White_Space` property.
    WhiteSpace,
    /// A single character.
    Only(char),
}

impl CharSet {
    /// Membership.
    pub open spec fn has(self, c: char) -> bool {
        match self {
            CharSet::WhiteSpace => white_space(c),
            CharSet::Only(d) => c == d,
        }
    }

    /// Tells whether `c` belongs to the set.
    pub fn contains(&self, c: char) -> (r: bool)
        ensures
            r == self.has(c),
    {
        match self {
            CharSet::WhiteSpace => {
                let u: u32 = c as u32;
                (0x09 <= u && u <= 0x0d) || u == 0x20 || u == 0x85 || u == 0xa0 || u == 0x1680 || (
                0x2000 <= u && u <= 0x200a) || u == 0x2028 || u == 0x2029 || u == 0x202f || u
                    == 0x205f || u == 0x3000
            },
            CharSet::Only(d) => c == *d,
        }
    }
}

/// What is left of `s` without its leading characters from `set`.
pub open spec fn trim_start(s: Seq<char>, set: CharSet) -> Seq<char>
    decreases s.len(),
{
    if s.len() > 0 && set.has(s[0]) {
        trim_start(s.drop_first(), set)
    } else {
        s
    }
}

/// What is left of `s` without its trailing characters from `set`.
pub open spec fn trim_end(s: Seq<char>, set: CharSet) -> Seq<char>
    decreases s.len(),
{
    if s.len() > 0 && set.has(s.last()) {
        trim_end(s.drop_last(), set)
    } else {
        s
    }
}

/// What is left of `s` without its leading and trailing characters from `set`.
pub open spec fn trim(s: Seq<char>, set: CharSet) -> Seq<char> {
    trim_end(trim_start(s, set), set)
}

/// Nothing in `s` can be trimmed away.
pub open spec fn is_trimmed(s: Seq<char>, set: CharSet) -> bool {
    s.len() > 0 ==> !set.has(s[0]) && !set.has(s.last())
}

/// The position of the first `c` in `s`, or the length of `s` where there is none.
pub open spec fn find(s: Seq<char>, c: char) -> nat
    decreases s.len(),
{
    if s.len() == 0 || s[0] == c {
        0
    } else {
        1 + find(s.drop_first(), c)
    }
}

/// The pieces of `s` between the occurrences of `sep`: one more than there are
/// occurrences.
pub open spec fn split(s: Seq<char>, sep: char) -> Seq<Seq<char>>
    decreases s.len(),
{
    let i = find(s, sep) as int;
    if i < s.len() {
        seq![s.take(i)] + split(s.skip(i + 1), sep)
    } else {
        seq![s]
    }
}

/// The parts in order, with `sep` between neighbours.
pub open spec fn join(parts: Seq<Seq<char>>, sep: char) -> Seq<char>
    decreases parts.len(),
{
    if parts.len() == 0 {
        Seq::empty()
    } else if parts.len() == 1 {
        parts[0]
    } else {
        join(parts.drop_last(), sep).push(sep) + parts.last()
    }
}

/// A line without the carriage return that ends it.
pub open spec fn strip_carriage_return(s: Seq<char>) -> Seq<char> {
    if s.len() > 0 && s.last() == '\r' {
        s.drop_last()
    } else {
        s
    }
}

/// The lines of `s`. A line ends in `\n` or `\r\n`, which it does not hold; the
/// ending of the last line is optional.
pub open spec fn lines(s: Seq<char>) -> Seq<Seq<char>>
    decreases s.len(),
{
    let i = find(s, '\n') as int;
    if s.len() == 0 {
        Seq::empty()
    } else if i < s.len() {
        seq![strip_carriage_return(s.take(i))] + lines(s.skip(i + 1))
    } else {
        seq![s]
    }
}

/// The number of leading characters of `s` outside `set`.
pub open spec fn span_outside(s: Seq<char>, set: CharSet) -> nat
    decreases s.len(),
{
    if s.len() == 0 || set.has(s[0]) {
        0
    } else {
        1 + span_outside(s.drop_first(), set)
    }
}

/// The maximal runs of characters of `s` that are not white space.
pub open spec fn words(s: Seq<char>) -> Seq<Seq<char>>
    decreases s.len(),
    via words_decreases
{
    let t = trim_start(s, CharSet::WhiteSpace);
    if t.len() == 0 {
        Seq::empty()
    } else {
        let n = span_outside(t, CharSet::WhiteSpace) as int;
        seq![t.take(n)] + words(t.skip(n))
    }
}

#[via_fn]
proof fn words_decreases(s: Seq<char>) {
    let t = trim_start(s, CharSet::WhiteSpace);
    lemma_trim_start_suffix(s, CharSet::WhiteSpace);
    lemma_span_outside(t, CharSet::WhiteSpace);
}

/// `trim_start` drops a prefix, all of it in the set, and stops at the first
/// character outside.
pub proof fn lemma_trim_start_suffix(s: Seq<char>, set: CharSet)
    ensures
        trim_start(s, set).len() <= s.len(),
        trim_start(s, set) == s.skip(s.len() - trim_start(s, set).len()),
        trim_start(s, set).len() > 0 ==> !set.has(trim_start(s, set)[0]),
        forall|i: int| 0 <= i < s.len() - trim_start(s, set).len() ==> set.has(#[trigger] s[i]),
    decreases s.len(),
{
    if s.len() > 0 && set.has(s[0]) {
        let t = s.drop_first();
        lemma_trim_start_suffix(t, set);
        let k = t.len() - trim_start(t, set).len();
        assert(t.skip(k) =~= s.skip(k + 1));
        assert forall|i: int| 0 <= i < k + 1 implies set.has(#[trigger] s[i]) by {
            if i > 0 {
                assert(s[i] == t[i - 1]);
            }
        }
    } else {
        assert(s.skip(0) =~= s);
    }
}

/// `trim_end` keeps a prefix; what it drops is all in the set.
pub proof fn lemma_trim_end_prefix(s: Seq<char>, set: CharSet)
    ensures
        trim_end(s, set).len() <= s.len(),
        trim_end(s, set) == s.take(trim_end(s, set).len() as int),
        trim_end(s, set).len() > 0 ==> !set.has(trim_end(s, set).last()),
        forall|i: int| trim_end(s, set).len() <= i < s.len() ==> set.has(#[trigger] s[i]),
    decreases s.len(),
{
    if s.len() > 0 && set.has(s.last()) {
        let t = s.drop_last();
        lemma_trim_end_prefix(t, set);
        assert(t.take(trim_end(t, set).len() as int) =~= s.take(trim_end(t, set).len() as int));
        assert forall|i: int| trim_end(s, set).len() <= i < s.len() implies set.has(
            #[trigger] s[i],
        ) by {
            if i < t.len() {
                assert(s[i] == t[i]);
            }
        }
    } else {
        assert(s.take(s.len() as int) =~= s);
    }
}

/// `span_outside` counts characters outside the set, up to the first inside.
pub proof fn lemma_span_outside(s: Seq<char>, set: CharSet)
    ensures
        span_outside(s, set) <= s.len(),
        forall|i: int| 0 <= i < span_outside(s, set) ==> !set.has(#[trigger] s[i]),
        span_outside(s, set) < s.len() ==> set.has(s[span_outside(s, set) as int]),
    decreases s.len(),
{
    if s.len() > 0 && !set.has(s[0]) {
        let t = s.drop_first();
        lemma_span_outside(t, set);
        assert forall|i: int| 0 <= i < span_outside(s, set) implies !set.has(#[trigger] s[i]) by {
            if i > 0 {
                assert(s[i] == t[i - 1]);
            }
        }
        if span_outside(s, set) < s.len() {
            assert(s[span_outside(s, set) as int] == t[span_outside(t, set) as int]);
        }
    }
}

/// `find` gives the first occurrence.
pub proof fn lemma_find(s: Seq<char>, c: char)
    ensures
        find(s, c) <= s.len(),
        forall|i: int| 0 <= i < find(s, c) ==> #[trigger] s[i] != c,
        find(s, c) < s.len() ==> s[find(s, c) as int] == c,
        s.contains(c) <==> find(s, c) < s.len(),
    decreases s.len(),
{
    if s.len() > 0 && s[0] != c {
        let t = s.drop_first();
        lemma_find(t, c);
        assert forall|i: int| 0 <= i < find(s, c) implies #[trigger] s[i] != c by {
            if i > 0 {
                assert(s[i] == t[i - 1]);
            }
        }
        if find(s, c) < s.len() {
            assert(s[find(s, c) as int] == t[find(t, c) as int]);
        }
    }
    if find(s, c) < s.len() {
        assert(s[find(s, c) as int] == c);
    }
}

/// A position with no earlier `c`, at a `c` or at the end, is what `find` gives.
pub proof fn lemma_find_is(s: Seq<char>, c: char, k: int)
    requires
        0 <= k <= s.len(),
        forall|i: int| 0 <= i < k ==> s[i] != c,
        k < s.len() ==> s[k] == c,
    ensures
        find(s, c) == k,
{
    lemma_find(s, c);
    if find(s, c) < k {
        assert(s[find(s, c) as int] != c);
    } else if find(s, c) > k {
        assert(s[k] != c);
    }
}

/// Collects the characters of a string slice.
pub fn chars_of(s: &str) -> (r: Vec<char>)
    ensures
        r@ == s@,
{
    let mut out: Vec<char> = Vec::new();
    for c in it: s.chars()
        invariant
            out@ == it.seq().take(it.index() as int),
            it.seq() == s@,
    {
        out.push(c);
        assert(it.seq().take(it.index() + 1) =~= it.seq().take(it.index() as int).push(c));
    }
    assert(s@.take(s@.len() as int) =~= s@);
    out
}

/// Tells whether two string slices hold the same characters.
pub fn same_text(a: &str, b: &str) -> (r: bool)
    ensures
        r == (a@ == b@),
{
    a.to_owned() == b.to_owned()
}

/// Trims leading characters of `set`.
pub fn trimmed_start<'a>(s: &'a str, set: CharSet) -> (r: &'a str)
    ensures
        r@ == trim_start(s@, set),
{
    let chars = chars_of(s);
    let n: usize = chars.len();
    let mut i: usize = 0;
    assert(s@.skip(0) =~= s@);
    while i < n && set.contains(chars[i])
        invariant
            i <= n,
            n == chars@.len(),
            chars@ == s@,
            trim_start(s@, set) == trim_start(s@.skip(i as int), set),
        decreases n - i,
    {
        assert(s@.skip(i as int).drop_first() =~= s@.skip(i + 1));
        i = i + 1;
    }
    assert(s@.skip(i as int) =~= s@.subrange(i as int, n as int));
    s.substring_char(i, n)
}

/// Trims trailing characters of `set`.
pub fn trimmed_end<'a>(s: &'a str, set: CharSet) -> (r: &'a str)
    ensures
        r@ == trim_end(s@, set),
{
    let chars = chars_of(s);
    let mut n: usize = chars.len();
    assert(s@.take(n as int) =~= s@);
    while n > 0 && set.contains(chars[n - 1])
        invariant
            n <= chars@.len(),
            chars@ == s@,
            trim_end(s@, set) == trim_end(s@.take(n as int), set),
        decreases n,
    {
        assert(s@.take(n as int).drop_last() =~= s@.take(n - 1));
        n = n - 1;
    }
    assert(s@.take(n as int) =~= s@.subrange(0, n as int));
    s.substring_char(0, n)
}

/// Trims leading and trailing characters of `set`.
pub fn trimmed<'a>(s: &'a str, set: CharSet) -> (r: &'a str)
    ensures
        r@ == trim(s@, set),
{
    trimmed_end(trimmed_start(s, set), set)
}

/// The position of the first `c` at or after `from`.
pub fn find_from(chars: &Vec<char>, from: usize, c: char) -> (r: usize)
    requires
        from <= chars@.len(),
    ensures
        r == from + find(chars@.skip(from as int), c),
        from <= r <= chars@.len(),
{
    let n: usize = chars.len();
    let mut i: usize = from;
    while i < n && chars[i] != c
        invariant
            from <= i <= n,
            n == chars@.len(),
            forall|k: int| from <= k < i ==> chars@[k] != c,
        decreases n - i,
    {
        i = i + 1;
    }
    proof {
        lemma_find_is(chars@.skip(from as int), c, i - from);
    }
    i
}

/// The texts of a sequence of string slices.
pub open spec fn texts(v: Seq<&str>) -> Seq<Seq<char>> {
    Seq::new(v.len(), |i: int| v[i]@)
}

/// The texts of a sequence of strings.
pub open spec fn strings(v: Seq<String>) -> Seq<Seq<char>> {
    Seq::new(v.len(), |i: int| v[i]@)
}

/// Splits `s` at every `sep`.
pub fn split_at_each<'a>(s: &'a str, sep: char) -> (r: Vec<&'a str>)
    ensures
        texts(r@) == split(s@, sep),
{
    let chars = chars_of(s);
    let n: usize = chars.len();
    let mut out: Vec<&'a str> = Vec::new();
    let mut start: usize = 0;
    assert(s@.skip(0) =~= s@);
    assert(texts(out@) + split(s@, sep) =~= split(s@, sep));
    loop
        invariant
            start <= n,
            n == chars@.len(),
            chars@ == s@,
            split(s@, sep) == texts(out@) + split(s@.skip(start as int), sep),
        decreases n - start,
    {
        let end: usize = find_from(&chars, start, sep);
        let ghost rest = s@.skip(start as int);
        let ghost before = texts(out@);
        let piece = s.substring_char(start, end);
        assert(piece@ =~= rest.take(end - start));
        out.push(piece);
        assert(texts(out@) =~= before.push(piece@));
        if end == n {
            assert(rest.take(end - start) =~= rest);
            assert(before + seq![rest] =~= before.push(rest));
            return out;
        }
        assert(rest.skip(end - start + 1) =~= s@.skip(end + 1));
        assert(before + (seq![piece@] + split(s@.skip(end + 1), sep)) =~= before.push(piece@)
            + split(s@.skip(end + 1), sep));
        start = end + 1;
    }
}

/// Splits `s` at the first `sep`.
pub fn split_at_first<'a>(s: &'a str, sep: char) -> (r: Option<(&'a str, &'a str)>)
    ensures
        match r {
            Some((a, b)) => find(s@, sep) < s@.len() && a@ == s@.take(find(s@, sep) as int) && b@
                == s@.skip(find(s@, sep) as int + 1),
            None => find(s@, sep) == s@.len(),
        },
{
    let chars = chars_of(s);
    let n: usize = chars.len();
    let i: usize = find_from(&chars, 0, sep);
    assert(s@.skip(0) =~= s@);
    if i == n {
        None
    } else {
        assert(s@.take(i as int) =~= s@.subrange(0, i as int));
        assert(s@.skip(i + 1) =~= s@.subrange(i + 1, n as int));
        Some((s.substring_char(0, i), s.substring_char(i + 1, n)))
    }
}

/// Joins `parts` with commas.
pub fn joined_by_commas(parts: &Vec<String>) -> (r: String)
    ensures
        r@ == join(strings(parts@), ','),
{
    let mut out = String::new();
    let n: usize = parts.len();
    let mut i: usize = 0;
    let ghost all = strings(parts@);
    while i < n
        invariant
            i <= n,
            n == parts@.len(),
            all == strings(parts@),
            out@ == join(all.take(i as int), ','),
        decreases n - i,
    {
        assert(all.take(i + 1).drop_last() =~= all.take(i as int));
        let ghost before = out@;
        if i > 0 {
            out.append(",");
            proof {
                reveal_strlit(",");
            }
            assert(out@ =~= before.push(','));
        }
        out.append(parts[i].as_str());
        assert(out@ == join(all.take(i + 1), ','));
        i = i + 1;
    }
    assert(all.take(n as int) =~= all);
    out
}

/// The lines of `s`.
pub fn lines_of<'a>(s: &'a str) -> (r: Vec<&'a str>)
    ensures
        texts(r@) == lines(s@),
{
    let chars = chars_of(s);
    let n: usize = chars.len();
    let mut out: Vec<&'a str> = Vec::new();
    let mut start: usize = 0;
    assert(s@.skip(0) =~= s@);
    assert(texts(out@) + lines(s@) =~= lines(s@));
    while start < n
        invariant
            start <= n,
            n == chars@.len(),
            chars@ == s@,
            lines(s@) == texts(out@) + lines(s@.skip(start as int)),
        decreases n - start,
    {
        let end: usize = find_from(&chars, start, '\n');
        let ghost rest = s@.skip(start as int);
        let ghost before = texts(out@);
        if end == n {
            let line = s.substring_char(start, n);
            assert(line@ =~= rest);
            out.push(line);
            assert(texts(out@) =~= before + seq![rest]);
            assert(lines(s@.skip(n as int)) =~= Seq::empty());
            assert(texts(out@) + lines(s@.skip(n as int)) =~= texts(out@));
            start = n;
        } else {
            let ghost raw = rest.take(end - start);
            let stop: usize = if end > start && chars[end - 1] == '\r' {
                end - 1
            } else {
                end
            };
            let line = s.substring_char(start, stop);
            assert(line@ =~= strip_carriage_return(raw)) by {
                if end > start {
                    assert(raw.last() == s@[end - 1]);
                }
            }
            out.push(line);
            assert(texts(out@) =~= before.push(line@));
            assert(rest.skip(end - start + 1) =~= s@.skip(end + 1));
            assert(before + (seq![line@] + lines(s@.skip(end + 1))) =~= before.push(line@) + lines(
                s@.skip(end + 1),
            ));
            start = end + 1;
        }
    }
    assert(lines(s@.skip(n as int)) =~= Seq::empty());
    assert(texts(out@) + lines(s@.skip(n as int)) =~= texts(out@));
    out
}

/// The words of `s`.
pub fn words_of<'a>(s: &'a str) -> (r: Vec<&'a str>)
    ensures
        texts(r@) == words(s@),
{
    let chars = chars_of(s);
    let n: usize = chars.len();
    let set = CharSet::WhiteSpace;
    let mut out: Vec<&'a str> = Vec::new();
    let mut start: usize = 0;
    assert(s@.skip(0) =~= s@);
    assert(texts(out@) + words(s@) =~= words(s@));
    loop
        invariant
            start <= n,
            n == chars@.len(),
            chars@ == s@,
            set == CharSet::WhiteSpace,
            words(s@) == texts(out@) + words(s@.skip(start as int)),
        decreases n - start,
    {
        let ghost rest = s@.skip(start as int);
        let mut begin: usize = start;
        while begin < n && set.contains(chars[begin])
            invariant
                start <= begin <= n,
                n == chars@.len(),
                chars@ == s@,
                rest == s@.skip(start as int),
                trim_start(rest, set) == trim_start(s@.skip(begin as int), set),
            decreases n - begin,
        {
            assert(s@.skip(begin as int).drop_first() =~= s@.skip(begin + 1));
            begin = begin + 1;
        }
        let ghost t = s@.skip(begin as int);
        assert(trim_start(rest, set) == t);
        if begin == n {
            assert(texts(out@) + Seq::<Seq<char>>::empty() =~= texts(out@));
            return out;
        }
        let mut end: usize = begin;
        assert(t.skip(0) =~= t);
        while end < n && !set.contains(chars[end])
            invariant
                begin <= end <= n,
                n == chars@.len(),
                chars@ == s@,
                t == s@.skip(begin as int),
                span_outside(t, set) == end - begin + span_outside(t.skip(end - begin), set),
            decreases n - end,
        {
            assert(t.skip(end - begin).drop_first() =~= t.skip(end - begin + 1));
            assert(t.skip(end - begin)[0] == s@[end as int]);
            end = end + 1;
        }
        proof {
            if end < n {
                assert(t.skip(end - begin)[0] == s@[end as int]);
            }
            lemma_span_outside(t, set);
        }
        let ghost before = texts(out@);
        let word = s.substring_char(begin, end);
        assert(word@ =~= t.take(end - begin));
        out.push(word);
        assert(texts(out@) =~= before.push(word@));
        assert(t.skip(end - begin) =~= s@.skip(end as int));
        assert(before + (seq![word@] + words(s@.skip(end as int))) =~= before.push(word@) + words(
            s@.skip(end as int),
        ));
        assert(end > begin);
        start = end;
    }
}

/// Tells whether `s` begins with `prefix`.
pub fn begins_with(s: &str, prefix: &str) -> (r: bool)
    ensures
        r == prefix@.is_prefix_of(s@),
{
    let n: usize = prefix.unicode_len();
    if s.unicode_len() < n {
        return false;
    }
    same_text(s.substring_char(0, n), prefix)
}

/// The character of a decimal digit.
pub open spec fn digit(d: nat) -> char {
    if d == 0 {
        '0'
    } else if d == 1 {
        '1'
    } else if d == 2 {
        '2'
    } else if d == 3 {
        '3'
    } else if d == 4 {
        '4'
    } else if d == 5 {
        '5'
    } else if d == 6 {
        '6'
    } else if d == 7 {
        '7'
    } else if d == 8 {
        '8'
    } else {
        '9'
    }
}

/// The decimal digits of `n`, without leading zeros.
pub open spec fn decimal(n: nat) -> Seq<char>
    decreases n,
{
    if n < 10 {
        seq![digit(n)]
    } else {
        decimal(n / 10).push(digit(n % 10))
    }
}

/// Every character of `s` is a decimal digit.
pub open spec fn all_digits(s: Seq<char>) -> bool {
    forall|i: int| 0 <= i < s.len() ==> '0' <= #[trigger] s[i] <= '9'
}

/// The value of a sequence of decimal digits.
pub open spec fn digits_value(s: Seq<char>) -> nat
    decreases s.len(),
{
    if s.len() == 0 {
        0
    } else {
        digits_value(s.drop_last()) * 10 + (s.last() as nat - '0' as nat) as nat
    }
}

/// The digits of a number in text form: all of it, except for one leading plus sign.
pub open spec fn unsigned_part(s: Seq<char>) -> Seq<char> {
    if s.len() > 0 && s[0] == '+' {
        s.skip(1)
    } else {
        s
    }
}

/// The number that `s` writes out, if it is at most `max`: an optional plus sign and
/// at least one digit.
pub open spec fn parse_number(s: Seq<char>, max: nat) -> Option<nat> {
    let digits = unsigned_part(s);
    if digits.len() > 0 && all_digits(digits) && digits_value(digits) <= max {
        Some(digits_value(digits))
    } else {
        None
    }
}

/// Writing a number out and reading it back gives the number.
pub proof fn law_decimal_reads_back(n: nat, max: nat)
    requires
        n <= max,
    ensures
        parse_number(decimal(n), max) == Some(n),
{
    lemma_decimal(n);
    assert(decimal(n)[0] != '+');
}

/// The decimal text of a number is made of digits and has its value.
pub proof fn lemma_decimal(n: nat)
    ensures
        decimal(n).len() > 0,
        all_digits(decimal(n)),
        digits_value(decimal(n)) == n,
    decreases n,
{
    if n < 10 {
        let d = seq![digit(n)];
        assert(d.drop_last() =~= Seq::empty());
        assert(digits_value(Seq::<char>::empty()) == 0);
    } else {
        lemma_decimal(n / 10);
        assert(decimal(n).drop_last() =~= decimal(n / 10));
    }
}

/// More digits never make a smaller number.
proof fn lemma_digits_value_grows(s: Seq<char>, k: int)
    requires
        0 <= k <= s.len(),
    ensures
        digits_value(s.take(k)) <= digits_value(s),
    decreases s.len() - k,
{
    if k < s.len() {
        lemma_digits_value_grows(s, k + 1);
        assert(s.take(k + 1).drop_last() =~= s.take(k));
    } else {
        assert(s.take(k) =~= s);
    }
}

/// One decimal digit as text.
fn digit_text(d: u64) -> (r: &'static str)
    requires
        d < 10,
    ensures
        r@ == seq![digit(d as nat)],
{
    proof {
        reveal_strlit("0");
        reveal_strlit("1");
        reveal_strlit("2");
        reveal_strlit("3");
        reveal_strlit("4");
        reveal_strlit("5");
        reveal_strlit("6");
        reveal_strlit("7");
        reveal_strlit("8");
        reveal_strlit("9");
    }
    match d {
        0 => "0",
        1 => "1",
        2 => "2",
        3 => "3",
        4 => "4",
        5 => "5",
        6 => "6",
        7 => "7",
        8 => "8",
        _ => "9",
    }
}

/// Writes a number out in decimal.
pub fn decimal_text(n: u64) -> (r: String)
    ensures
        r@ == decimal(n as nat),
    decreases n,
{
    if n < 10 {
        digit_text(n).to_owned()
    } else {
        let mut out = decimal_text(n / 10);
        let ghost before = out@;
        out.append(digit_text(n % 10));
        assert(out@ =~= before.push(digit((n % 10) as nat)));
        out
    }
}

/// Reads a number of type `usize`.
pub fn parse_usize(s: &str) -> (r: Option<usize>)
    ensures
        r is Some <==> parse_number(s@, usize::MAX as nat) is Some,
        r is Some ==> r->0 as nat == parse_number(s@, usize::MAX as nat)->0,
{
    let chars = chars_of(s);
    let n: usize = chars.len();
    let start: usize = if n > 0 && chars[0] == '+' {
        1
    } else {
        0
    };
    let ghost digits = unsigned_part(s@);
    assert(digits =~= s@.skip(start as int));
    if start == n {
        return None;
    }
    let mut value: usize = 0;
    let mut i: usize = start;
    assert(digits.take(0) =~= Seq::empty());
    while i < n
        invariant
            start <= i <= n,
            n == chars@.len(),
            chars@ == s@,
            digits == s@.skip(start as int),
            digits == unsigned_part(s@),
            value as nat == digits_value(digits.take(i - start)),
            all_digits(digits.take(i - start)),
        decreases n - i,
    {
        let c: char = chars[i];
        assert(c == digits[i - start]);
        if c < '0' || c > '9' {
            return None;
        }
        let d: usize = c as usize - '0' as usize;
        let ghost next = digits.take(i - start + 1);
        assert(next.drop_last() =~= digits.take(i - start));
        assert(next.last() == c);
        assert(all_digits(next)) by {
            assert forall|k: int| 0 <= k < next.len() implies '0' <= #[trigger] next[k] <= '9' by {
                if k < i - start {
                    assert(next[k] == digits.take(i - start)[k]);
                }
            }
        }
        proof {
            lemma_digits_value_grows(digits, i - start + 1);
        }
        match value.checked_mul(10) {
            None => {
                return None;
            },
            Some(tens) => match tens.checked_add(d) {
                None => {
                    return None;
                },
                Some(sum) => {
                    value = sum;
                },
            },
        }
        i = i + 1;
    }
    assert(digits.take(n - start) =~= digits);
    Some(value)
}

/// Without `sep` in it, a text is its own only piece.
pub proof fn lemma_split_whole(s: Seq<char>, sep: char)
    requires
        !s.contains(sep),
    ensures
        split(s, sep) == seq![s],
{
    lemma_find(s, sep);
}

/// The pieces of two texts with a separator between them are the pieces of the first
/// and those of the second.
pub proof fn lemma_split_concat(a: Seq<char>, sep: char, b: Seq<char>)
    ensures
        split(a.push(sep) + b, sep) == split(a, sep) + split(b, sep),
    decreases a.len(),
{
    let s = a.push(sep) + b;
    let i = find(a, sep) as int;
    lemma_find(a, sep);
    assert forall|k: int| 0 <= k < i implies s[k] != sep by {
        assert(s[k] == a[k]);
    }
    assert(s[i] == sep);
    lemma_find_is(s, sep, i);
    if i < a.len() {
        let rest = a.skip(i + 1);
        lemma_split_concat(rest, sep, b);
        assert(s.skip(i + 1) =~= rest.push(sep) + b);
        assert(s.take(i) =~= a.take(i));
        assert(seq![a.take(i)] + (split(rest, sep) + split(b, sep)) =~= (seq![a.take(i)] + split(
            rest,
            sep,
        )) + split(b, sep));
    } else {
        assert(s.skip(i + 1) =~= b);
        assert(s.take(i) =~= a);
    }
}

/// Characters other than the separator at the end of a text lengthen its last piece.
pub proof fn lemma_split_longer(s: Seq<char>, sep: char, more: Seq<char>)
    requires
        !more.contains(sep),
    ensures
        split(s, sep).len() > 0,
        split(s + more, sep) == split(s, sep).drop_last().push(split(s, sep).last() + more),
    decreases s.len(),
{
    let t = s + more;
    let i = find(s, sep) as int;
    lemma_find(s, sep);
    if i < s.len() {
        let rest = s.skip(i + 1);
        assert forall|k: int| 0 <= k < i implies t[k] != sep by {
            assert(t[k] == s[k]);
        }
        lemma_find_is(t, sep, i);
        lemma_split_longer(rest, sep, more);
        assert(t.take(i) =~= s.take(i));
        assert(t.skip(i + 1) =~= rest + more);
        assert(split(t, sep) =~= split(s, sep).drop_last().push(split(s, sep).last() + more));
    } else {
        assert forall|k: int| 0 <= k < t.len() implies t[k] != sep by {
            if k < s.len() {
                assert(t[k] == s[k]);
            } else {
                assert(t[k] == more[k - s.len()]);
            }
        }
        lemma_find_is(t, sep, t.len() as int);
        assert(seq![s].drop_last().push(t) =~= seq![t]);
    }
}

/// Splitting what was joined gives the parts back.
pub proof fn law_split_undoes_join(parts: Seq<Seq<char>>, sep: char)
    requires
        parts.len() > 0,
        forall|i: int| 0 <= i < parts.len() ==> !(#[trigger] parts[i]).contains(sep),
    ensures
        split(join(parts, sep), sep) == parts,
    decreases parts.len(),
{
    if parts.len() == 1 {
        lemma_split_whole(parts[0], sep);
        assert(seq![parts[0]] =~= parts);
    } else {
        let front = parts.drop_last();
        law_split_undoes_join(front, sep);
        assert(!parts.last().contains(sep));
        lemma_split_concat(join(front, sep), sep, parts.last());
        lemma_split_whole(parts.last(), sep);
        assert(front + seq![parts.last()] =~= parts);
    }
}

/// No piece of a split text holds the separator.
pub proof fn lemma_split_pieces(s: Seq<char>, sep: char)
    ensures
        split(s, sep).len() > 0,
        forall|i: int| 0 <= i < split(s, sep).len() ==> !(#[trigger] split(s, sep)[i]).contains(sep),
    decreases s.len(),
{
    let i = find(s, sep) as int;
    lemma_find(s, sep);
    if i < s.len() {
        let rest = s.skip(i + 1);
        lemma_split_pieces(rest, sep);
        assert forall|k: int| 0 <= k < split(s, sep).len() implies !(#[trigger] split(s, sep)[k]).contains(
            sep,
        ) by {
            if k == 0 {
                assert(split(s, sep)[0] == s.take(i));
            } else {
                assert(split(s, sep)[k] == split(rest, sep)[k - 1]);
            }
        }
    }
}

/// Joining the pieces of a split text gives the text back.
pub proof fn law_join_undoes_split(s: Seq<char>, sep: char)
    ensures
        join(split(s, sep), sep) == s,
    decreases s.len(),
{
    let i = find(s, sep) as int;
    lemma_find(s, sep);
    if i < s.len() {
        let rest = s.skip(i + 1);
        law_join_undoes_split(rest, sep);
        lemma_split_pieces(rest, sep);
        lemma_join_front(s.take(i), split(rest, sep), sep);
        assert(s.take(i).push(sep) + rest =~= s);
    }
}

/// The first part of a join stands before the join of the others.
pub proof fn lemma_join_front(first: Seq<char>, others: Seq<Seq<char>>, sep: char)
    requires
        others.len() > 0,
    ensures
        join(seq![first] + others, sep) == first.push(sep) + join(others, sep),
    decreases others.len(),
{
    let all = seq![first] + others;
    assert(all.last() == others.last());
    if others.len() == 1 {
        assert(join(seq![first], sep) == first);
        assert(all.drop_last() =~= seq![first]);
    } else {
        lemma_join_front(first, others.drop_last(), sep);
        assert(all.drop_last() =~= seq![first] + others.drop_last());
        assert((first.push(sep) + join(others.drop_last(), sep)).push(sep) + others.last()
            =~= first.push(sep) + (join(others.drop_last(), sep).push(sep) + others.last()));
    }
}

/// Trimming leaves a part of the text with nothing left to trim.
pub proof fn lemma_trim(s: Seq<char>, set: CharSet)
    ensures
        is_trimmed(trim(s, set), set),
        exists|from: int, to: int|
            0 <= from <= to <= s.len() && trim(s, set) == #[trigger] s.subrange(from, to),
{
    let t = trim_start(s, set);
    lemma_trim_start_suffix(s, set);
    lemma_trim_end_prefix(t, set);
    let from = s.len() - t.len();
    let to = from + trim(s, set).len();
    assert(trim(s, set) =~= s.subrange(from, to));
}

/// A trimmed text stays as it is.
pub proof fn lemma_trim_trimmed(s: Seq<char>, set: CharSet)
    requires
        is_trimmed(s, set),
    ensures
        trim(s, set) == s,
{
}

} // verus!
