#[test]
fn empty_target_always_matches() {
    let samples: Vec<&[u8]> = vec![b"", b"a", b"Az19", b"\xff\x00binary"];
    for s in samples {
        assert!(vanity_search::predicate::matches(&s.to_vec(), &Vec::new(), false));
        assert!(vanity_search::predicate::matches(&s.to_vec(), &Vec::new(), true));
    }
}

#[test]
fn exact_match_agrees_with_starts_with() {
    let pairs: Vec<(&[u8], &[u8])> = vec![
        (b"abcdef", b"abc"),
        (b"abcdef", b"abd"),
        (b"abcdef", b"Abc"),
        (b"abc", b"abc"),
        (b"ab", b"abc"),
        (b"Zebra42", b"Zeb"),
        (b"zebra", b"Zeb"),
        (b"\xc3\xa9clair", b"\xc3\xa9"),
    ];
    for (s, t) in pairs {
        assert_eq!(vanity_search::predicate::matches(&s.to_vec(), &t.to_vec(), false), s.starts_with(t));
    }
}

#[test]
fn ignore_case_agrees_with_folded_starts_with() {
    let pairs: Vec<(&[u8], &[u8])> = vec![
        (b"abcdef", b"ABC"),
        (b"ABCdef", b"abc"),
        (b"aBcDeF", b"AbCd"),
        (b"abcdef", b"abd"),
        (b"zebra", b"ZEB"),
        (b"Zebra", b"zeq"),
        (b"\xc3\xa9clair", b"\xc3\xa9C"),
    ];
    for (s, t) in pairs {
        let folded_s = s.to_ascii_lowercase();
        let folded_t = t.to_ascii_lowercase();
        assert_eq!(
            vanity_search::predicate::matches(&s.to_vec(), &t.to_vec(), true),
            folded_s.starts_with(&folded_t[..])
        );
    }
}

#[test]
fn target_longer_than_encoding_never_matches() {
    let target = b"abcdefghij".to_vec();
    assert!(!vanity_search::predicate::matches(&b"abcdefghi".to_vec(), &target, false));
    assert!(!vanity_search::predicate::matches(&b"ABCDEFGHI".to_vec(), &target, true));
    assert!(!vanity_search::predicate::matches(&Vec::new(), &b"a".to_vec(), false));
}

#[test]
fn non_ascii_bytes_are_not_folded() {
    // 0xC3 and 0xE3 differ only in the bit that separates ASCII upper
    // from lower case; folding must leave bytes above 127 alone.
    assert!(!vanity_search::predicate::matches(&vec![0xE3u8], &vec![0xC3u8], true));
    assert!(vanity_search::predicate::matches(&vec![0xC3u8, 0x20], &vec![0xC3u8], true));
}
