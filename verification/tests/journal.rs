use systemdmgr::journal::parse_journal_json_line;

#[test]
fn test_parse_complete() {
    let line = r#"{"MESSAGE":"hello world","PRIORITY":"3","__REALTIME_TIMESTAMP":"1700000000000000","_PID":"1234","SYSLOG_IDENTIFIER":"myapp"}"#;
    let entry = parse_journal_json_line(line);
    assert_eq!(entry.message, "hello world");
    assert_eq!(entry.priority, Some(3));
    assert_eq!(entry.timestamp, Some(1700000000000000));
    assert_eq!(entry.pid.as_deref(), Some("1234"));
    assert_eq!(entry.identifier.as_deref(), Some("myapp"));
}

#[test]
fn test_parse_missing_optional_fields() {
    let line = r#"{"MESSAGE":"only message"}"#;
    let entry = parse_journal_json_line(line);
    assert_eq!(entry.message, "only message");
    assert_eq!(entry.priority, None);
    assert_eq!(entry.timestamp, None);
    assert_eq!(entry.pid, None);
    assert_eq!(entry.identifier, None);
}

#[test]
fn test_parse_byte_array_message() {
    let line = r#"{"MESSAGE":[104,101,108,108,111]}"#;
    let entry = parse_journal_json_line(line);
    assert_eq!(entry.message, "hello");
}

#[test]
fn test_parse_non_string_non_array_message() {
    let line = r#"{"MESSAGE":42}"#;
    let entry = parse_journal_json_line(line);
    assert_eq!(entry.message, line);
}

#[test]
fn test_parse_invalid_json() {
    let line = "not json at all";
    let entry = parse_journal_json_line(line);
    assert_eq!(entry.message, "not json at all");
    assert_eq!(entry.priority, None);
    assert_eq!(entry.timestamp, None);
    assert_eq!(entry.pid, None);
    assert_eq!(entry.identifier, None);
}

#[test]
fn test_parse_empty_string() {
    let entry = parse_journal_json_line("");
    assert_eq!(entry.message, "");
}

#[test]
fn test_parse_priority_non_numeric() {
    let line = r#"{"MESSAGE":"test","PRIORITY":"abc"}"#;
    let entry = parse_journal_json_line(line);
    assert_eq!(entry.priority, None);
}

#[test]
fn test_parse_timestamp_non_numeric() {
    let line = r#"{"MESSAGE":"test","__REALTIME_TIMESTAMP":"not_a_number"}"#;
    let entry = parse_journal_json_line(line);
    assert_eq!(entry.timestamp, None);
}

#[test]
fn test_parse_boot_id() {
    let line = r#"{"MESSAGE":"hello","_BOOT_ID":"abcdef123456"}"#;
    let entry = parse_journal_json_line(line);
    assert_eq!(entry.boot_id.as_deref(), Some("abcdef123456"));
}

#[test]
fn test_parse_boot_id_missing() {
    let line = r#"{"MESSAGE":"hello"}"#;
    let entry = parse_journal_json_line(line);
    assert_eq!(entry.boot_id, None);
}

#[test]
fn test_parse_invocation_id_present() {
    let line = r#"{"MESSAGE":"hello","_SYSTEMD_INVOCATION_ID":"0123456789abcdef"}"#;
    let entry = parse_journal_json_line(line);
    assert_eq!(entry.invocation_id.as_deref(), Some("0123456789abcdef"));
}

#[test]
fn test_parse_invocation_id_missing() {
    let line = r#"{"MESSAGE":"hello"}"#;
    let entry = parse_journal_json_line(line);
    assert_eq!(entry.invocation_id, None);
}
