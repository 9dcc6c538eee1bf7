use vanity_search::cells::TerminationFlag;

use vanity_search::worker::format_match_line;
use vanity_search::worker::process_batch;

// Target "ab", case ignored, candidates cycling through the encodings
// "xy", "AB12" and "zz": exactly the "AB12" candidate matches, its
// emitted line pairs it with its private-material encoding, and with
// stop-on-match the flag is set.
#[test]
fn concrete_scenario_one_match() {
    let target = b"ab".to_vec();
    let candidates: Vec<(Vec<u8>, Vec<u8>)> = vec![
        (b"xy".to_vec(), b"secret-xy".to_vec()),
        (b"AB12".to_vec(), b"secret-ab12".to_vec()),
        (b"zz".to_vec(), b"secret-zz".to_vec()),
    ];

    assert!(!vanity_search::predicate::matches(&candidates[0].0, &target, true));
    assert!(vanity_search::predicate::matches(&candidates[1].0, &target, true));
    assert!(!vanity_search::predicate::matches(&candidates[2].0, &target, true));

    let flag = TerminationFlag::new();
    let matched = process_batch(&candidates, &target, true, true, &flag);
    assert_eq!(matched, 1);
    assert!(flag.is_set());

    let line = format_match_line(&candidates[1].0, &candidates[1].1);
    assert_eq!(line, b"AB12 secret-ab12".to_vec());
}

#[test]
fn scenario_without_stop_leaves_flag_unset() {
    let target = b"ab".to_vec();
    let candidates: Vec<(Vec<u8>, Vec<u8>)> = vec![
        (b"AB12".to_vec(), b"secret-ab12".to_vec()),
    ];
    let flag = TerminationFlag::new();
    let matched = process_batch(&candidates, &target, true, false, &flag);
    assert_eq!(matched, 1);
    assert!(!flag.is_set());
}

#[test]
fn scenario_case_sensitive_rejects_upper() {
    let target = b"ab".to_vec();
    let candidates: Vec<(Vec<u8>, Vec<u8>)> = vec![
        (b"AB12".to_vec(), b"secret-ab12".to_vec()),
        (b"ab12".to_vec(), b"secret-lower".to_vec()),
    ];
    let flag = TerminationFlag::new();
    let matched = process_batch(&candidates, &target, false, true, &flag);
    assert_eq!(matched, 1);
    assert!(flag.is_set());
}

#[test]
fn match_line_format_is_space_separated() {
    let line = format_match_line(&b"PUB".to_vec(), &b"PRIV".to_vec());
    assert_eq!(line, b"PUB PRIV".to_vec());
    let empty = format_match_line(&Vec::new(), &Vec::new());
    assert_eq!(empty, b" ".to_vec());
}
