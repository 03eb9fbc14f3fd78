use scrat::observability::{
    ObservabilityConfig, days_to_ymd, format_timestamp, format_timestamp_parts,
};

#[test]
fn format_timestamp_produces_valid_rfc3339() {
    let ts = format_timestamp();
    assert!(ts.ends_with('Z'), "timestamp should end with Z: {ts}");
    assert_eq!(ts.len(), 24, "timestamp should be 24 chars: {ts}");
    assert_eq!(&ts[4..5], "-", "year-month separator");
    assert_eq!(&ts[7..8], "-", "month-day separator");
    assert_eq!(&ts[10..11], "T", "date-time separator");
}

#[test]
fn days_to_ymd_known_dates() {
    assert_eq!(days_to_ymd(0), (1970, 1, 1));
    assert_eq!(days_to_ymd(10957), (2000, 1, 1));
    assert_eq!(days_to_ymd(19782), (2024, 2, 29));
}

#[test]
fn format_timestamp_parts_exact() {
    // 2000-01-01T00:00:00 UTC plus 123.4 ms
    assert_eq!(format_timestamp_parts(946_684_800, 123_400_000), "2000-01-01T00:00:00.123Z");
    // End of a day
    assert_eq!(format_timestamp_parts(946_684_800 + 86_399, 0), "2000-01-01T23:59:59.000Z");
}

#[test]
fn observability_config_carries_overrides() {
    let cfg = ObservabilityConfig::from_env_with_overrides(Some("/var/log/scrat".into()));
    assert_eq!(cfg.service, "scrat");
    assert_eq!(cfg.log_dir.as_deref(), Some("/var/log/scrat"));
}
