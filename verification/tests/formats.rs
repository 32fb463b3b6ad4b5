use systemdmgr::scan::parse_timer_specs;
use systemdmgr::timefmt::format_log_timestamp;

#[test]
fn test_format_log_timestamp_valid() {
    let ts = 1700000000000000_i64; // 2023-11-14
    let result = format_log_timestamp(ts);
    assert!(!result.is_empty());
    // Format is "Mon DD HH:MM:SS" → 15 chars
    assert_eq!(result.len(), 15);
}

#[test]
fn test_format_log_timestamp_zero() {
    let result = format_log_timestamp(0);
    assert!(!result.is_empty());
}

#[test]
fn test_parse_timer_specs_single_calendar() {
    let input = "{ OnCalendar=*-*-* 06:00:00 ; next_elapse=Sun 2026-02-22 06:00:00 UTC }";
    let result = parse_timer_specs(input);
    assert_eq!(result, vec!["OnCalendar=*-*-* 06:00:00"]);
}

#[test]
fn test_parse_timer_specs_multiple() {
    let input = "{ OnCalendar=*-*-* 06:00:00 ; next_elapse=Sun 2026-02-22 06:00:00 UTC }{ OnCalendar=*-*-* 18:00:00 ; next_elapse=Sun 2026-02-22 18:00:00 UTC }";
    let result = parse_timer_specs(input);
    assert_eq!(result, vec!["OnCalendar=*-*-* 06:00:00", "OnCalendar=*-*-* 18:00:00"]);
}

#[test]
fn test_parse_timer_specs_monotonic() {
    let input = "{ OnBootSec=15min ; next_elapse=n/a }";
    let result = parse_timer_specs(input);
    assert_eq!(result, vec!["OnBootSec=15min"]);
}

#[test]
fn test_parse_timer_specs_empty() {
    let result = parse_timer_specs("");
    assert!(result.is_empty());
}
