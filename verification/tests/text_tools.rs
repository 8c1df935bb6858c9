use cdh_storage::text::{
    begins_with, chars_of, decimal_text, find_from, joined_by_commas, lines_of, parse_usize,
    same_text, split_at_each, split_at_first, trimmed, trimmed_end, trimmed_start, words_of,
    CharSet,
};

const SAMPLES: [&str; 12] = [
    "",
    " ",
    "a",
    "a b",
    "  a\t b \n",
    "one\ntwo\n",
    "one\r\ntwo\r",
    "\n\n",
    "x\ny\r\n\r\nz",
    "\u{a0}\u{3000}w\u{2003}v\u{85}",
    "////",
    "/a//b/",
];

#[test]
fn white_space_is_that_of_unicode() {
    for u in 0..=0x10ffffu32 {
        if let Some(c) = char::from_u32(u) {
            assert_eq!(CharSet::WhiteSpace.contains(c), c.is_whitespace(), "{:x}", u);
        }
    }
    assert!(CharSet::Only('x').contains('x'));
    assert!(!CharSet::Only('x').contains('y'));
}

#[test]
fn trimming_takes_both_ends() {
    for s in SAMPLES {
        assert_eq!(trimmed(s, CharSet::WhiteSpace), s.trim());
        assert_eq!(trimmed_start(s, CharSet::WhiteSpace), s.trim_start());
        assert_eq!(trimmed_end(s, CharSet::WhiteSpace), s.trim_end());
        assert_eq!(trimmed(s, CharSet::Only('/')), s.trim_matches('/'));
        assert_eq!(trimmed_end(s, CharSet::Only('/')), s.trim_end_matches('/'));
    }
}

#[test]
fn lines_end_with_line_feeds() {
    for s in SAMPLES {
        assert_eq!(lines_of(s), s.lines().collect::<Vec<_>>(), "{:?}", s);
    }
}

#[test]
fn words_are_what_white_space_leaves() {
    for s in SAMPLES {
        assert_eq!(words_of(s), s.split_whitespace().collect::<Vec<_>>(), "{:?}", s);
    }
}

#[test]
fn splitting_keeps_empty_pieces() {
    for s in SAMPLES {
        assert_eq!(split_at_each(s, '/'), s.split('/').collect::<Vec<_>>());
        assert_eq!(split_at_each(s, ' '), s.split(' ').collect::<Vec<_>>());
        assert_eq!(split_at_first(s, '/'), s.split_once('/'));
    }
    assert_eq!(split_at_first("k=v=w", '='), Some(("k", "v=w")));
    assert_eq!(split_at_first("k", '='), None);
}

#[test]
fn joining_undoes_splitting() {
    for s in ["", ",", "a,b", ",a,,b,", "\u{fc},x"] {
        let pieces: Vec<String> = split_at_each(s, ',').iter().map(|p| p.to_string()).collect();
        assert_eq!(joined_by_commas(&pieces), s);
    }
    assert_eq!(joined_by_commas(&Vec::new()), "");
}

#[test]
fn characters_are_compared_and_found() {
    assert_eq!(chars_of("a\u{fc}b"), vec!['a', '\u{fc}', 'b']);
    assert!(same_text("a\u{fc}", "a\u{fc}"));
    assert!(!same_text("a", "ab"));
    let chars = chars_of("abcb");
    assert_eq!(find_from(&chars, 0, 'b'), 1);
    assert_eq!(find_from(&chars, 2, 'b'), 3);
    assert_eq!(find_from(&chars, 0, 'x'), 4);
    assert!(begins_with("eth0 x", "eth0"));
    assert!(begins_with("e", ""));
    assert!(!begins_with("eth", "eth0"));
}

#[test]
fn numbers_are_written_in_decimal() {
    for n in [0u64, 1, 9, 10, 32, 100, 65536, 18446744073709551615] {
        assert_eq!(decimal_text(n), n.to_string());
    }
}

#[test]
fn numbers_are_read_as_the_language_reads_them() {
    for s in [
        "0", "7", "32", "+5", "007", "18446744073709551615", "18446744073709551616",
        "99999999999999999999999", "", "+", "-1", "1 ", " 1", "1_0", "0x10", "++1", "1+",
        "\u{661}", "12a",
    ] {
        assert_eq!(parse_usize(s), s.parse::<usize>().ok(), "{:?}", s);
    }
    for n in [0u64, 3, 4096] {
        assert_eq!(parse_usize(&decimal_text(n)), Some(n as usize));
    }
}
