use vanity_search::config::SearchConfig;

#[test]
fn zero_workers_is_a_configuration_error() {
    let config = SearchConfig::new(b"ab".to_vec(), false, false, 0, None);
    assert!(config.is_none());
}

#[test]
fn valid_configuration_keeps_every_field() {
    let config = SearchConfig::new(b"Sol".to_vec(), true, true, 4, Some(5)).unwrap();
    assert_eq!(config.target, b"Sol".to_vec());
    assert!(config.ignore_case);
    assert!(config.stop_on_match);
    assert_eq!(config.worker_count, 4);
    assert_eq!(config.report_interval_secs, Some(5));
}

#[test]
fn one_worker_no_reporting_is_valid() {
    let config = SearchConfig::new(Vec::new(), false, false, 1, None).unwrap();
    assert_eq!(config.worker_count, 1);
    assert_eq!(config.report_interval_secs, None);
    assert!(config.target.is_empty());
}
