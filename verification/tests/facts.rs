use systemdmgr::facts::{detail_lines, ends_with, join_with_commas, DetailKind, DetailLine};
use systemdmgr::palette::{Color, COLOR_MUTED};
use systemdmgr::service::UnitProperties;

fn heading(name: &str) -> DetailLine {
    DetailLine { kind: DetailKind::Heading, label: name.into(), value: String::new(), color: Color::White }
}

fn colored(label: &str, value: &str, color: Color) -> DetailLine {
    DetailLine { kind: DetailKind::Fact, label: label.into(), value: value.into(), color }
}

fn fact(label: &str, value: &str) -> DetailLine {
    colored(label, value, Color::White)
}

fn item(value: &str) -> DetailLine {
    DetailLine { kind: DetailKind::Item, label: "    ".into(), value: value.into(), color: Color::White }
}

fn blank() -> DetailLine {
    DetailLine { kind: DetailKind::Blank, label: String::new(), value: String::new(), color: Color::White }
}

fn strings(items: &[&str]) -> Vec<String> {
    items.iter().map(|s| s.to_string()).collect()
}

#[test]
fn empty_fact_sheet_has_the_general_section_only() {
    let lines = detail_lines(&UnitProperties::default(), "a.service", "", "");
    assert_eq!(
        lines,
        vec![
            heading("General"),
            fact("  Name:           ", "a.service"),
            fact("  Status:         ", ""),
            fact("  Load State:     ", ""),
            fact("  Description:    ", ""),
            fact("  Active State:   ", ""),
            blank(),
        ]
    );
}

#[test]
fn service_with_process_resources_and_dependencies() {
    let mut p = UnitProperties::default();
    p.sub_state = "running".into();
    p.unit_file_state = "enabled".into();
    p.load_state = "not-found".into();
    p.description = "OpenSSH".into();
    p.active_state = "active".into();
    p.active_enter_timestamp = "Mon".into();
    p.fragment_path = "/lib/ssh.service".into();
    p.main_pid = 812;
    p.exec_main_start_timestamp = "Tue".into();
    p.memory_current = Some(1536);
    p.requires = strings(&["a.socket", "b.target"]);
    p.after = strings(&[
        "network-online.target",
        "systemd-journald.socket",
        "basic.target",
    ]);
    let lines = detail_lines(&p, "ssh.service", "1.5 KB", "unused");
    assert_eq!(
        lines,
        vec![
            heading("General"),
            fact("  Name:           ", "ssh.service"),
            fact("  Status:         ", "running"),
            colored("  Enabled:        ", "enabled", Color::Green),
            colored("  Load State:     ", "not-found", COLOR_MUTED),
            fact("  Description:    ", "OpenSSH"),
            fact("  Active State:   ", "active"),
            fact("  Active Since:   ", "Mon"),
            fact("  Unit File:      ", "/lib/ssh.service"),
            blank(),
            heading("Process"),
            fact("  Main PID:       ", "812"),
            fact("  Started:        ", "Tue"),
            blank(),
            heading("Resources"),
            fact("  Memory:         ", "1.5 KB"),
            blank(),
            heading("Dependencies"),
            fact("  Requires:       ", "a.socket, b.target"),
            fact("  After:", ""),
            item("network-online.target"),
            item("systemd-journald.socket"),
            item("basic.target"),
        ]
    );
}

#[test]
fn timer_section_needs_the_suffix_and_something_to_say() {
    let mut p = UnitProperties::default();
    p.result = "success".into();
    p.persistent = "yes".into();
    let general = detail_lines(&p, "a.timer", "", "").len();
    assert_eq!(general, 7);
    p.timers_calendar = strings(&["OnCalendar=daily"]);
    p.timers_monotonic = strings(&["OnBootSec=5min"]);
    p.last_trigger_usec = "n/a".into();
    p.accuracy_usec = "1min".into();
    p.randomized_delay_usec = "0".into();
    assert_eq!(detail_lines(&p, "a.service", "", "").len(), general);
    let lines = detail_lines(&p, "a.timer", "", "");
    assert_eq!(
        lines[general..].to_vec(),
        vec![
            heading("Timer"),
            fact("  Schedule:       ", "OnCalendar=daily"),
            fact("  Schedule:       ", "OnBootSec=5min"),
            colored("  Result:         ", "success", Color::Green),
            fact("  Persistent:     ", "yes"),
            fact("  Accuracy:       ", "1min"),
            blank(),
        ]
    );
    p.result = "exit-code".into();
    p.persistent = "no".into();
    p.last_trigger_usec = "Mon".into();
    p.next_elapse_realtime = "Tue".into();
    p.timers_calendar.clear();
    p.timers_monotonic.clear();
    let lines = detail_lines(&p, "a.timer", "", "");
    assert_eq!(
        lines[general..].to_vec(),
        vec![
            heading("Timer"),
            fact("  Next Trigger:   ", "Tue"),
            fact("  Last Trigger:   ", "Mon"),
            colored("  Result:         ", "exit-code", Color::Red),
            fact("  Accuracy:       ", "1min"),
            blank(),
        ]
    );
}

#[test]
fn socket_and_path_sections() {
    let mut p = UnitProperties::default();
    p.listen = "/run/x.sock (Stream)".into();
    p.accept = "yes".into();
    p.n_accepted = "3".into();
    p.n_connections = "0".into();
    p.triggers = strings(&["x@.service", "y.service"]);
    let lines = detail_lines(&p, "x.socket", "", "");
    assert_eq!(
        lines[7..].to_vec(),
        vec![
            heading("Socket"),
            fact("  Listen:         ", "/run/x.sock (Stream)"),
            fact("  Accept:         ", "yes"),
            fact("  Accepted:       ", "3"),
            fact("  Triggers:       ", "x@.service"),
            fact("                  ", "y.service"),
            blank(),
            heading("Dependencies"),
            fact("  Triggers:       ", "x@.service, y.service"),
        ]
    );
    p.paths = "/etc/x (PathChanged)".into();
    let lines = detail_lines(&p, "x.path", "", "");
    assert_eq!(
        lines[7..12].to_vec(),
        vec![
            heading("Path"),
            fact("  Watch:          ", "/etc/x (PathChanged)"),
            fact("  Triggers:       ", "x@.service"),
            fact("                  ", "y.service"),
            blank(),
        ]
    );
}

#[test]
fn resources_show_what_is_known() {
    let mut p = UnitProperties::default();
    p.cpu_usage_nsec = Some(5);
    let lines = detail_lines(&p, "a.service", "unused", "0.000s");
    assert_eq!(
        lines[7..].to_vec(),
        vec![heading("Resources"), fact("  CPU Time:       ", "0.000s"), blank()]
    );
}

#[test]
fn dependencies_fit_one_line_up_to_fifty_characters() {
    let mut p = UnitProperties::default();
    // 24 + 2 + 24 characters
    p.wants = strings(&["aaaaaaaaaaaaaaaaaaaaaaaa", "bbbbbbbbbbbbbbbbbbbbbbbb"]);
    let lines = detail_lines(&p, "a.service", "", "");
    assert_eq!(
        lines[8..].to_vec(),
        vec![fact(
            "  Wants:          ",
            "aaaaaaaaaaaaaaaaaaaaaaaa, bbbbbbbbbbbbbbbbbbbbbbbb"
        )]
    );
    p.wants = strings(&["aaaaaaaaaaaaaaaaaaaaaaaa", "bbbbbbbbbbbbbbbbbbbbbbbbb"]);
    let lines = detail_lines(&p, "a.service", "", "");
    assert_eq!(
        lines[8..].to_vec(),
        vec![
            fact("  Wants:", ""),
            item("aaaaaaaaaaaaaaaaaaaaaaaa"),
            item("bbbbbbbbbbbbbbbbbbbbbbbbb"),
        ]
    );
}

#[test]
fn suffixes_and_joins() {
    assert!(ends_with("a.timer", ".timer"));
    assert!(ends_with(".timer", ".timer"));
    assert!(ends_with("x", ""));
    assert!(!ends_with("timer", ".timer"));
    assert!(!ends_with("a.timer.d", ".timer"));
    assert_eq!(join_with_commas(&Vec::new()), "");
    assert_eq!(join_with_commas(&strings(&["a"])), "a");
    assert_eq!(join_with_commas(&strings(&["a", "", "c"])), "a, , c");
}
