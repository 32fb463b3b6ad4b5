use systemdmgr::app::logs::{LogQuery, TailQuery};
use systemdmgr::commands::{
    action_arguments, action_outcome, list_sockets_arguments, list_timers_arguments,
    list_unit_files_arguments, list_units_arguments, log_arguments, parse_journal_output,
    show_arguments, tail_arguments, trim, unit_file_arguments,
};
use systemdmgr::inventory::{
    merge_details, merge_file_states, timer_detail, unit_file_name, UnitDetail, UnitFileEntry,
};
use systemdmgr::journal::{log_entry_from_members, parse_journal_json_line, JsonMember};
use systemdmgr::parse::{parse_i64, parse_u32, parse_u64, parse_u8};
use systemdmgr::properties::{parse_unit_properties, property_text, split_words};
use systemdmgr::scan::{char_is_space, parse_timer_specs};
use systemdmgr::service::{SystemdUnit, TimeRange, UnitAction, UnitType};
use systemdmgr::text::{chars_of, decimal_string, first_match, str_contains, str_eq, string_of};
use systemdmgr::timefmt::{format_log_timestamp, format_relative_time, timestamp_parts};

fn unit(name: &str) -> SystemdUnit {
    SystemdUnit {
        unit: name.into(),
        load: "loaded".into(),
        active: "active".into(),
        sub: "running".into(),
        description: "d".into(),
        detail: None,
        file_state: None,
    }
}

#[test]
fn unsigned_numbers_are_read_as_std_reads_them() {
    for text in ["0", "7", "007", "+5", "255", "256", "", "+", "-1", "-0", " 1", "1 ", "1_0", "٣",
        "18446744073709551615", "18446744073709551616", "99999999999999999999999999", "4294967295",
        "4294967296", "12a", "++1"]
    {
        assert_eq!(parse_u64(text), text.parse::<u64>().ok(), "{:?}", text);
        assert_eq!(parse_u32(text), text.parse::<u32>().ok(), "{:?}", text);
        assert_eq!(parse_u8(text), text.parse::<u8>().ok(), "{:?}", text);
    }
}

#[test]
fn signed_numbers_are_read_as_std_reads_them() {
    for text in ["0", "-0", "+0", "-1", "+1", "1700000000000000", "-", "+", "", "--1", "-+1",
        "9223372036854775807", "9223372036854775808", "-9223372036854775808",
        "-9223372036854775809", "1e3", "0x10", "-007"]
    {
        assert_eq!(parse_i64(text), text.parse::<i64>().ok(), "{:?}", text);
    }
}

#[test]
fn substring_search_is_what_std_does() {
    let texts = ["", "a", "ab", "aab", "abab", "Grüße", "日本語日本", "aaa", "xyz"];
    for hay in texts {
        for needle in texts {
            assert_eq!(str_contains(hay, needle), hay.contains(needle), "{:?} in {:?}", needle, hay);
            assert_eq!(str_eq(hay, needle), hay == needle, "{:?} = {:?}", needle, hay);
        }
    }
}

#[test]
fn first_match_is_the_leftmost_from_a_position() {
    let hay = chars_of("abcabc");
    let needle = chars_of("bc");
    assert_eq!(first_match(&hay, &needle, 0), 1);
    assert_eq!(first_match(&hay, &needle, 1), 1);
    assert_eq!(first_match(&hay, &needle, 2), 4);
    assert_eq!(first_match(&hay, &needle, 5), 6);
    assert_eq!(first_match(&hay, &needle, 6), 6);
    assert_eq!(first_match(&hay, &chars_of("abcabcd"), 0), 6);
}

#[test]
fn decimal_numerals() {
    assert_eq!(decimal_string(0), "0");
    assert_eq!(decimal_string(9), "9");
    assert_eq!(decimal_string(10), "10");
    assert_eq!(decimal_string(1000), "1000");
    assert_eq!(decimal_string(u64::MAX), "18446744073709551615");
}

#[test]
fn characters_and_back() {
    let v = chars_of("héllo wörld");
    assert_eq!(v.len(), 11);
    assert_eq!(string_of(&v, 0, 5), "héllo");
    assert_eq!(string_of(&v, 6, 11), "wörld");
    assert_eq!(string_of(&v, 3, 3), "");
}

#[test]
fn white_space_is_what_std_takes_for_it() {
    for code in 0u32..0x3100 {
        if let Some(c) = char::from_u32(code) {
            assert_eq!(char_is_space(c), c.is_whitespace(), "U+{:04X}", code);
        }
    }
    assert!(!char_is_space('\u{feff}'));
    assert!(!char_is_space('\u{10ffff}'));
}

#[test]
fn trimming_is_what_std_does() {
    for text in ["", " ", "a", "  a b \n", "\t\u{a0}x\u{3000}", "x  ", "  x"] {
        assert_eq!(trim(text), text.trim());
    }
}

#[test]
fn journal_line_fields() {
    let line = r#"{"MESSAGE":"started","PRIORITY":"6","__REALTIME_TIMESTAMP":"-5","_PID":"1","SYSLOG_IDENTIFIER":"systemd","_BOOT_ID":"b","_SYSTEMD_INVOCATION_ID":"i","__CURSOR":"s=1"}"#;
    let entry = parse_journal_json_line(line);
    assert_eq!(entry.message, "started");
    assert_eq!(entry.priority, Some(6));
    assert_eq!(entry.timestamp, Some(-5));
    assert_eq!(entry.pid.as_deref(), Some("1"));
    assert_eq!(entry.identifier.as_deref(), Some("systemd"));
    assert_eq!(entry.boot_id.as_deref(), Some("b"));
    assert_eq!(entry.invocation_id.as_deref(), Some("i"));
    assert_eq!(entry.cursor.as_deref(), Some("s=1"));
}

#[test]
fn journal_line_that_is_no_object_keeps_the_line() {
    for line in ["[1,2]", "42", "\"text\"", "null", "{\"MESSAGE\":\"x\"} trailing", "{"] {
        let entry = parse_journal_json_line(line);
        assert_eq!(entry.message, line);
        assert_eq!(entry.priority, None);
        assert_eq!(entry.cursor, None);
    }
}

#[test]
fn journal_line_with_fields_of_another_kind() {
    let line = r#"{"MESSAGE":"m","PRIORITY":3,"_PID":17,"__CURSOR":null,"_BOOT_ID":["b"]}"#;
    let entry = parse_journal_json_line(line);
    assert_eq!(entry.message, "m");
    assert_eq!(entry.priority, None);
    assert_eq!(entry.pid, None);
    assert_eq!(entry.cursor, None);
    assert_eq!(entry.boot_id, None);
}

#[test]
fn journal_message_bytes_are_decoded_leniently() {
    let entry = parse_journal_json_line(r#"{"MESSAGE":[104,105,255,33]}"#);
    assert_eq!(entry.message, "hi\u{fffd}!");
    // items that are no small numbers: fractions and strings are passed over,
    // large numbers keep their low byte
    let entry = parse_journal_json_line(r#"{"MESSAGE":[104,1.5,"x",-1,360,105]}"#);
    assert_eq!(entry.message, "hhi");
}

#[test]
fn record_from_members_needs_all_eight() {
    let members = vec![JsonMember::Text("m".into()), JsonMember::Other];
    assert_eq!(log_entry_from_members("raw", Some(members)).message, "raw");
    assert_eq!(log_entry_from_members("raw", None).message, "raw");
    let members = vec![
        JsonMember::Numbers(vec![Some(72), None, Some(256 + 105)]),
        JsonMember::Text("+7".into()),
        JsonMember::Text("12".into()),
        JsonMember::Other,
        JsonMember::Numbers(Vec::new()),
        JsonMember::Text("boot".into()),
        JsonMember::Other,
        JsonMember::Text("cursor".into()),
    ];
    let entry = log_entry_from_members("raw", Some(members));
    assert_eq!(entry.message, "Hi");
    assert_eq!(entry.priority, Some(7));
    assert_eq!(entry.timestamp, Some(12));
    assert_eq!(entry.pid, None);
    assert_eq!(entry.identifier, None);
    assert_eq!(entry.boot_id.as_deref(), Some("boot"));
    assert_eq!(entry.invocation_id, None);
    assert_eq!(entry.cursor.as_deref(), Some("cursor"));
}

#[test]
fn journal_output_gives_a_record_per_line() {
    let output = "{\"MESSAGE\":\"a\"}\n\nnot json\r\n{\"MESSAGE\":\"b\"}";
    let messages: Vec<String> =
        parse_journal_output(output).into_iter().map(|e| e.message).collect();
    assert_eq!(messages, vec!["a", "not json", "b"]);
    assert!(parse_journal_output("").is_empty());
    assert!(parse_journal_output("\n\n").is_empty());
    let messages: Vec<String> =
        parse_journal_output("x\n").into_iter().map(|e| e.message).collect();
    assert_eq!(messages, vec!["x"]);
}

#[test]
fn timer_specs_edge_cases() {
    assert_eq!(parse_timer_specs("{}"), Vec::<String>::new());
    assert_eq!(parse_timer_specs("   "), Vec::<String>::new());
    assert_eq!(parse_timer_specs("{ ; next_elapse=n/a }"), Vec::<String>::new());
    assert_eq!(parse_timer_specs("OnBootSec=1min"), vec!["OnBootSec=1min"]);
    assert_eq!(parse_timer_specs("{{ a ; b }} { c }"), vec!["a", "c"]);
    assert_eq!(parse_timer_specs("{ a }{ }{ b ; c ; d }"), vec!["a", "b"]);
}

#[test]
fn properties_are_read_from_name_value_lines() {
    let output = "Description=OpenSSH server\nMainPID=812\nMemoryCurrent=1536\nCPUUsageNSec=[not set]\nRequires=a.socket   b.target\nWants=\nTimersCalendar={ OnCalendar=daily ; next_elapse=n/a }\nResult=success\nFragmentPath=/lib/systemd/system/ssh.service\nExecStart={ path=/usr/sbin/sshd ; argv[]=-D }\nDescription=Second wins\r\nNoEquals\n";
    let props = parse_unit_properties(output);
    assert_eq!(props.description, "Second wins");
    assert_eq!(props.main_pid, 812);
    assert_eq!(props.memory_current, Some(1536));
    assert_eq!(props.cpu_usage_nsec, None);
    assert_eq!(props.requires, vec!["a.socket", "b.target"]);
    assert!(props.wants.is_empty());
    assert_eq!(props.timers_calendar, vec!["OnCalendar=daily"]);
    assert!(props.timers_monotonic.is_empty());
    assert_eq!(props.result, "success");
    assert_eq!(props.fragment_path, "/lib/systemd/system/ssh.service");
    assert_eq!(props.sub_state, "");
    assert_eq!(props.listen, "");
}

#[test]
fn properties_of_nothing_are_empty() {
    let props = parse_unit_properties("");
    assert_eq!(props.description, "");
    assert_eq!(props.main_pid, 0);
    assert_eq!(props.memory_current, None);
    assert!(props.after.is_empty());
    let props = parse_unit_properties("MainPID=abc\nMemoryCurrent=infinity\nCPUUsageNSec=\n");
    assert_eq!(props.main_pid, 0);
    assert_eq!(props.memory_current, None);
    assert_eq!(props.cpu_usage_nsec, None);
}

#[test]
fn property_value_is_split_at_the_first_equals_sign() {
    let v = chars_of("A=b=c\nAB=x\n=empty name\nA\nB=\r\nC=tail");
    assert_eq!(property_text(&v, "A"), "b=c");
    assert_eq!(property_text(&v, "AB"), "x");
    assert_eq!(property_text(&v, ""), "empty name");
    assert_eq!(property_text(&v, "B"), "");
    assert_eq!(property_text(&v, "C"), "tail");
    assert_eq!(property_text(&v, "D"), "");
}

#[test]
fn words_are_split_at_white_space() {
    for text in ["", "  ", "a", " a  b\tc\n", "a\u{a0}b", "x "] {
        let expected: Vec<String> = text.split_whitespace().map(|w| w.to_string()).collect();
        assert_eq!(split_words(text), expected);
    }
}

#[test]
fn file_names_of_paths() {
    assert_eq!(unit_file_name("/usr/lib/systemd/system/foo.service"), "foo.service");
    assert_eq!(unit_file_name("foo.service"), "foo.service");
    assert_eq!(unit_file_name("dir/"), "");
    assert_eq!(unit_file_name(""), "");
}

#[test]
fn file_states_are_joined_by_file_name() {
    let mut units = vec![unit("a.service"), unit("b.service"), unit("c.service")];
    units[2].file_state = Some("kept".into());
    let entries = vec![
        UnitFileEntry { unit_file: "/etc/systemd/system/a.service".into(), state: "enabled".into() },
        UnitFileEntry { unit_file: "b.service".into(), state: "static".into() },
        UnitFileEntry { unit_file: "/lib/a.service".into(), state: "masked".into() },
    ];
    merge_file_states(&mut units, &entries);
    assert_eq!(units[0].file_state.as_deref(), Some("masked"));
    assert_eq!(units[1].file_state.as_deref(), Some("static"));
    assert_eq!(units[2].file_state.as_deref(), Some("kept"));
    assert_eq!(units[0].unit, "a.service");
    assert_eq!(units[0].detail, None);
}

#[test]
fn details_are_joined_by_unit_name() {
    let mut units = vec![unit("a.timer"), unit("b.timer")];
    let details = vec![
        UnitDetail { unit: "a.timer".into(), text: timer_detail(0, 5) },
        UnitDetail { unit: "x.timer".into(), text: "ignored".into() },
        UnitDetail { unit: "a.timer".into(), text: timer_detail(3_605_000_000, 0) },
    ];
    merge_details(&mut units, &details);
    assert_eq!(units[0].detail.as_deref(), Some("next: 1h 0m"));
    assert_eq!(units[1].detail, None);
    assert_eq!(timer_detail(0, 5), "next: n/a");
    assert_eq!(timer_detail(1, 5), "next: elapsed");
}

#[test]
fn relative_times() {
    let s = 1_000_000;
    assert_eq!(format_relative_time(0, 0), "elapsed");
    assert_eq!(format_relative_time(10, 10), "elapsed");
    assert_eq!(format_relative_time(9, 10), "elapsed");
    assert_eq!(format_relative_time(10 + s - 1, 10), "0s");
    assert_eq!(format_relative_time(59 * s, 0), "59s");
    assert_eq!(format_relative_time(60 * s, 0), "1m 0s");
    assert_eq!(format_relative_time(3599 * s, 0), "59m 59s");
    assert_eq!(format_relative_time(3600 * s, 0), "1h 0m");
    assert_eq!(format_relative_time(86399 * s, 0), "23h 59m");
    assert_eq!(format_relative_time(86400 * s, 0), "1d 0h");
    assert_eq!(format_relative_time(90 * 3600 * s + 100, 100), "3d 18h");
    assert_eq!(format_relative_time(u64::MAX, 0), "213503982d 8h");
}

#[test]
fn timestamps_are_split_toward_zero() {
    assert_eq!(timestamp_parts(0), (0, 0));
    assert_eq!(timestamp_parts(1_700_000_000_123_456), (1_700_000_000, 123_456_000));
    assert_eq!(timestamp_parts(999_999), (0, 999_999_000));
    assert_eq!(timestamp_parts(-3_000_000), (-3, 0));
    assert_eq!(timestamp_parts(-1), (0, 4_294_966_296));
    assert_eq!(timestamp_parts(-1_500_000), (-1, 3_794_967_296));
    assert_eq!(timestamp_parts(i64::MAX), (9_223_372_036_854, 775_807_000));
    assert_eq!(timestamp_parts(i64::MIN), (-9_223_372_036_854, 3_519_159_296));
}

#[test]
fn timestamps_within_reach_are_shown() {
    for timestamp in [
        0,
        1,
        999_999,
        1_700_000_000_123_456,
        -1_000_000,
        -62_135_596_800_000_000,
        253_402_300_799_999_999,
        8_000_000_000_000_999_999,
        -8_000_000_000_000_000_000,
    ] {
        let text = format_log_timestamp(timestamp);
        assert_eq!(text.chars().count(), 15, "{}", timestamp);
        assert_eq!(text.len(), 15, "{}", timestamp);
    }
}

#[test]
fn timestamps_that_cannot_be_shown_are_empty() {
    assert_eq!(format_log_timestamp(-1), "");
    assert_eq!(format_log_timestamp(i64::MAX), "");
    assert_eq!(format_log_timestamp(-3_000_000).chars().count(), 15);
    assert_eq!(format_log_timestamp(1_700_000_000_123_456).chars().count(), 15);
}

#[test]
fn arguments_for_the_service_manager() {
    assert_eq!(
        list_units_arguments(UnitType::Timer, false),
        vec!["list-units", "--type=timer", "--all", "--no-pager", "--output=json"]
    );
    assert_eq!(
        list_units_arguments(UnitType::Service, true),
        vec!["--user", "list-units", "--type=service", "--all", "--no-pager", "--output=json"]
    );
    assert_eq!(
        list_unit_files_arguments(UnitType::Path, true),
        vec!["--user", "list-unit-files", "--type=path", "--no-pager", "--output=json"]
    );
    assert_eq!(
        list_timers_arguments(false),
        vec!["list-timers", "--all", "--no-pager", "--output=json"]
    );
    assert_eq!(
        list_sockets_arguments(true),
        vec!["--user", "list-sockets", "--all", "--no-pager", "--output=json"]
    );
    assert_eq!(show_arguments("a.service", false), vec!["show", "a.service", "--no-pager"]);
    assert_eq!(
        unit_file_arguments("a.service", true),
        vec!["--user", "cat", "a.service", "--no-pager"]
    );
    assert_eq!(unit_file_arguments("a.service", false), vec!["cat", "a.service", "--no-pager"]);
    assert_eq!(
        action_arguments(UnitAction::Restart, "a.service", true),
        vec!["--user", "restart", "a.service"]
    );
    assert_eq!(action_arguments(UnitAction::DaemonReload, "a.service", false), vec!["daemon-reload"]);
    assert_eq!(action_arguments(UnitAction::DaemonReload, "", true), vec!["--user", "daemon-reload"]);
}

#[test]
fn arguments_for_the_log_daemon() {
    let query = LogQuery {
        unit: "a.service".into(),
        lines: 1000,
        user_mode: false,
        priority: None,
        time_range: TimeRange::All,
    };
    assert_eq!(
        log_arguments(&query),
        vec!["-u", "a.service", "-n", "1000", "--no-pager", "--output=json"]
    );
    let query = LogQuery {
        unit: "a.service".into(),
        lines: 5,
        user_mode: true,
        priority: Some(3),
        time_range: TimeRange::FifteenMinutes,
    };
    assert_eq!(
        log_arguments(&query),
        vec![
            "--user-unit", "a.service", "-n", "5", "--no-pager", "--output=json", "-p", "3",
            "--since", "15 min ago"
        ]
    );
    let query = TailQuery {
        unit: "a.service".into(),
        cursor: "s=abc;i=1".into(),
        user_mode: false,
        priority: Some(0),
        time_range: TimeRange::Today,
    };
    assert_eq!(
        tail_arguments(&query),
        vec![
            "-u", "a.service", "--after-cursor=s=abc;i=1", "--no-pager", "--output=json", "-p",
            "0", "--since", "today"
        ]
    );
}

#[test]
fn outcome_of_an_action() {
    assert_eq!(
        action_outcome(UnitAction::Start, "a.service", true, "ignored"),
        Ok("Start succeeded for a.service".to_string())
    );
    assert_eq!(
        action_outcome(UnitAction::Stop, "a.service", false, "  Access denied\n"),
        Err("Stop failed: Access denied".to_string())
    );
    assert_eq!(
        action_outcome(UnitAction::DaemonReload, "", true, ""),
        Ok("Daemon Reload succeeded for ".to_string())
    );
}
