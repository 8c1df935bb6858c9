//! What the functions on text mean, said of the text itself.
use crate::text;
use crate::text::CharSet;
use vstd::prelude::*;

verus! {

/// A set of one character holds that character alone. Of the characters in ASCII, the
/// blank and those from the tabulator to the carriage return are white space.
pub proof fn law_char_sets(c: char, d: char)
    ensures
        CharSet::Only(d).has(c) <==> c == d,
        (c as u32) < 128 ==> (CharSet::WhiteSpace.has(c) <==> c == ' ' || 9 <= c as u32 <= 13),
        CharSet::WhiteSpace.has(c) ==> c as u32 <= 0x3000,
        !CharSet::WhiteSpace.has('/') && !CharSet::WhiteSpace.has(',') && !CharSet::WhiteSpace.has('='),
{
}

proof fn lemma_trim_start_front(front: Seq<char>, rest: Seq<char>, set: CharSet)
    requires
        forall|i: int| 0 <= i < front.len() ==> set.has(#[trigger] front[i]),
    ensures
        text::trim_start(front + rest, set) == text::trim_start(rest, set),
    decreases front.len(),
{
    let s = front + rest;
    if front.len() == 0 {
        assert(s =~= rest);
    } else {
        assert(s[0] == front[0]);
        assert(s.drop_first() =~= front.drop_first() + rest);
        lemma_trim_start_front(front.drop_first(), rest, set);
    }
}

proof fn lemma_trim_end_back(rest: Seq<char>, back: Seq<char>, set: CharSet)
    requires
        forall|i: int| 0 <= i < back.len() ==> set.has(#[trigger] back[i]),
    ensures
        text::trim_end(rest + back, set) == text::trim_end(rest, set),
    decreases back.len(),
{
    let s = rest + back;
    if back.len() == 0 {
        assert(s =~= rest);
    } else {
        assert(s.last() == back.last());
        assert(s.drop_last() =~= rest + back.drop_last());
        lemma_trim_end_back(rest, back.drop_last(), set);
    }
}

/// Trimming takes away what is in the set at the ends, all of it, and nothing of what
/// begins and ends outside the set.
pub proof fn law_trim_keeps_the_middle(
    front: Seq<char>,
    middle: Seq<char>,
    back: Seq<char>,
    set: CharSet,
)
    requires
        forall|i: int| 0 <= i < front.len() ==> set.has(#[trigger] front[i]),
        forall|i: int| 0 <= i < back.len() ==> set.has(#[trigger] back[i]),
        middle.len() > 0 ==> !set.has(middle[0]) && !set.has(middle.last()),
    ensures
        text::trim_start(front + middle, set) == middle,
        text::trim_end(middle + back, set) == middle,
        text::trim(front + middle + back, set) == middle,
{
    assert(front + middle + back =~= front + (middle + back));
    lemma_trim_start_front(front, middle, set);
    lemma_trim_start_front(front, middle + back, set);
    lemma_trim_end_back(middle, back, set);
    if middle.len() == 0 {
        assert(middle + back =~= back);
        assert(back + Seq::<char>::empty() =~= back);
        lemma_trim_start_front(back, Seq::empty(), set);
        assert(text::trim_start(middle + back, set) =~= middle);
        assert(middle =~= Seq::empty());
    } else {
        assert((middle + back)[0] == middle[0]);
    }
}

/// Trimming one end takes away what is in the set there, all of it, and leaves the other
/// end alone.
pub proof fn law_trim_one_end(front: Seq<char>, middle: Seq<char>, back: Seq<char>, set: CharSet)
    requires
        forall|i: int| 0 <= i < front.len() ==> set.has(#[trigger] front[i]),
        forall|i: int| 0 <= i < back.len() ==> set.has(#[trigger] back[i]),
    ensures
        middle.len() > 0 ==> !set.has(middle[0]) ==> text::trim_start(front + middle, set)
            == middle,
        middle.len() > 0 ==> !set.has(middle.last()) ==> text::trim_end(middle + back, set)
            == middle,
        middle.len() == 0 ==> text::trim_start(front + middle, set).len() == 0,
        middle.len() == 0 ==> text::trim_end(middle + back, set).len() == 0,
{
    lemma_trim_start_front(front, middle, set);
    lemma_trim_end_back(middle, back, set);
}

/// The first occurrence of a character comes after everything that lacks it.
pub proof fn law_find_stops_at_the_first(before: Seq<char>, c: char, after: Seq<char>)
    requires
        !before.contains(c),
    ensures
        text::find(before.push(c) + after, c) == before.len(),
        text::find(before, c) == before.len(),
{
    let s = before.push(c) + after;
    assert forall|i: int| 0 <= i < before.len() implies s[i] != c by {
        assert(s[i] == before[i]);
        assert(before.contains(before[i]));
    }
    assert forall|i: int| 0 <= i < before.len() implies before[i] != c by {
        assert(before.contains(before[i]));
    }
    text::lemma_find_is(s, c, before.len() as int);
    text::lemma_find_is(before, c, before.len() as int);
}

/// A text without the separator is one piece; a separator ends a piece, and what comes
/// after it is split in the same way.
pub proof fn law_split_at_a_separator(piece: Seq<char>, sep: char, rest: Seq<char>)
    requires
        !piece.contains(sep),
    ensures
        text::split(piece, sep) == seq![piece],
        text::split(piece.push(sep) + rest, sep) == seq![piece] + text::split(rest, sep),
{
    text::lemma_split_whole(piece, sep);
    text::lemma_split_concat(piece, sep, rest);
}

/// Nothing joins to nothing, one part to itself, and one more part comes after one more
/// separator.
pub proof fn law_join_puts_separators_between(parts: Seq<Seq<char>>, part: Seq<char>, sep: char)
    ensures
        text::join(Seq::empty(), sep) == Seq::<char>::empty(),
        text::join(seq![part], sep) == part,
        parts.len() > 0 ==> text::join(parts.push(part), sep) == text::join(parts, sep) + seq![sep]
            + part,
{
    assert(parts.push(part).drop_last() =~= parts);
    if parts.len() > 0 {
        assert(text::join(parts, sep).push(sep) + part =~= text::join(parts, sep) + seq![sep]
            + part);
    }
}

/// A line ends at a line feed, with or without a carriage return before it; the last
/// line needs no ending.
pub proof fn law_lines_end_at_line_feeds(line: Seq<char>, rest: Seq<char>)
    requires
        !line.contains('\n'),
    ensures
        text::lines(Seq::empty()) == Seq::<Seq<char>>::empty(),
        line.len() > 0 ==> text::lines(line) == seq![line],
        text::lines(line.push('\n') + rest) == seq![
            if line.len() > 0 && line.last() == '\r' {
                line.drop_last()
            } else {
                line
            },
        ] + text::lines(rest),
{
    law_find_stops_at_the_first(line, '\n', rest);
    let s = line.push('\n') + rest;
    assert(s.take(line.len() as int) =~= line);
    assert(s.skip(line.len() as int + 1) =~= rest);
}

/// A word is a run of characters that are not white space. White space before it does
/// not count, white space after it ends it, and what comes then is read in the same way.
pub proof fn law_words_end_at_white_space(
    blank: Seq<char>,
    word: Seq<char>,
    c: char,
    rest: Seq<char>,
)
    requires
        forall|i: int| 0 <= i < blank.len() ==> text::white_space(#[trigger] blank[i]),
        forall|i: int| 0 <= i < word.len() ==> !text::white_space(#[trigger] word[i]),
        text::white_space(c),
    ensures
        text::words(blank) == Seq::<Seq<char>>::empty(),
        word.len() > 0 ==> text::words(blank + word) == seq![word],
        word.len() > 0 ==> text::words(blank + word.push(c) + rest) == seq![word] + text::words(
            rest,
        ),
{
    let set = CharSet::WhiteSpace;
    assert(blank + Seq::<char>::empty() =~= blank);
    lemma_trim_start_front(blank, Seq::empty(), set);
    if word.len() > 0 {
        lemma_trim_start_front(blank, word, set);
        text::lemma_span_outside(word, set);
        assert(text::trim_start(word, set) == word);
        assert(text::span_outside(word, set) == word.len()) by {
            if text::span_outside(word, set) < word.len() {
                assert(!text::white_space(word[text::span_outside(word, set) as int]));
            }
        }
        assert(word.take(word.len() as int) =~= word);
        assert(word.skip(word.len() as int) =~= Seq::empty());
        assert(text::words(Seq::empty()) =~= Seq::empty());
        assert(text::words(blank + word) =~= seq![word]);
        let t = word.push(c) + rest;
        assert(blank + word.push(c) + rest =~= blank + t);
        lemma_trim_start_front(blank, t, set);
        assert(t[0] == word[0]);
        assert(text::trim_start(t, set) == t);
        let n = text::span_outside(t, set) as int;
        text::lemma_span_outside(t, set);
        assert(n == word.len()) by {
            assert(t[word.len() as int] == c);
            if n < word.len() {
                assert(t[n] == word[n]);
            }
        }
        assert(t.take(n) =~= word);
        assert(t.skip(n) =~= seq![c] + rest);
        lemma_trim_start_front(seq![c], rest, set);
        assert(text::words(seq![c] + rest) == text::words(rest));
    }
}

/// One more digit makes ten times the number and the digit.
pub proof fn law_digits_count_in_tens(digits: Seq<char>, d: char)
    requires
        '0' <= d <= '9',
    ensures
        text::digits_value(Seq::empty()) == 0,
        text::digits_value(digits.push(d)) == 10 * text::digits_value(digits) + (d as int
            - '0' as int),
{
    assert(digits.push(d).drop_last() =~= digits);
}

/// A number is written in decimal digits that have its value, without a zero in front
/// where there is more than one.
pub proof fn law_decimal_is_the_shortest_text(n: nat)
    ensures
        text::digits_value(text::decimal(n)) == n,
        forall|i: int|
            0 <= i < text::decimal(n).len() ==> '0' <= #[trigger] text::decimal(n)[i] <= '9',
        text::decimal(n).len() > 0,
        text::decimal(n).len() > 1 ==> text::decimal(n)[0] != '0',
    decreases n,
{
    text::lemma_decimal(n);
    if n >= 10 {
        law_decimal_is_the_shortest_text(n / 10);
        text::lemma_decimal(n / 10);
        assert(text::decimal(n)[0] == text::decimal(n / 10)[0]);
        if text::decimal(n / 10).len() == 1 {
            let d = text::decimal(n / 10);
            assert(d.drop_last() =~= Seq::empty());
            assert(text::digits_value(Seq::<char>::empty()) == 0);
            assert(text::digits_value(d) == (d[0] as nat - '0' as nat) as nat);
        }
    }
}

/// A number is read from digits, of which there is at least one, with or without one plus
/// sign before them, if it is not too large; nothing else is a number.
pub proof fn law_numbers_are_digits(digits: Seq<char>, other: Seq<char>, max: nat)
    requires
        digits.len() > 0,
        forall|i: int| 0 <= i < digits.len() ==> '0' <= #[trigger] digits[i] <= '9',
    ensures
        text::parse_number(digits, max) == if text::digits_value(digits) <= max {
            Some(text::digits_value(digits))
        } else {
            None
        },
        text::parse_number(seq!['+'] + digits, max) == text::parse_number(digits, max),
        text::parse_number(other, max) is Some ==> {
            let shown = if other[0] == '+' {
                other.skip(1)
            } else {
                other
            };
            other.len() > 0 && shown.len() > 0 && forall|i: int|
                0 <= i < shown.len() ==> '0' <= #[trigger] shown[i] <= '9'
        },
{
    assert((seq!['+'] + digits).skip(1) =~= digits);
    assert(digits[0] != '+');
}

} // verus!
