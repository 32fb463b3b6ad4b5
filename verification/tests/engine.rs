use systemdmgr::app::actions::ActionPhase;
use systemdmgr::app::logs::LOG_LOAD_LIMIT;
use systemdmgr::app::App;
use systemdmgr::service::{LogEntry, SystemdUnit, TimeRange, UnitAction, UnitProperties, UnitType};
use systemdmgr::viewport::LogScroll;

fn unit(name: &str, sub: &str, desc: &str, file_state: Option<&str>) -> SystemdUnit {
    SystemdUnit {
        unit: name.into(),
        load: "loaded".into(),
        active: "active".into(),
        sub: sub.into(),
        description: desc.into(),
        detail: None,
        file_state: file_state.map(|s| s.into()),
    }
}

fn record(message: &str, cursor: Option<&str>) -> LogEntry {
    LogEntry {
        timestamp: None,
        priority: None,
        pid: None,
        identifier: None,
        message: message.into(),
        boot_id: None,
        invocation_id: None,
        cursor: cursor.map(|s| s.into()),
    }
}

fn sample_units() -> Vec<SystemdUnit> {
    vec![
        unit("ssh.service", "running", "OpenSSH server", Some("enabled")),
        unit("cron.service", "dead", "Regular jobs", Some("disabled")),
        unit("nginx.service", "running", "Web server", Some("enabled")),
        unit("backup.service", "failed", "Nightly backup of SSH keys", Some("static")),
        unit("dbus.service", "running", "Message bus", None),
    ]
}

fn loaded(units: Vec<SystemdUnit>) -> App {
    let mut app = App::new();
    app.load_services(Ok(units), 100);
    app
}

#[test]
fn new_session_is_empty() {
    let app = App::new();
    assert!(app.units.services.is_empty());
    assert!(app.units.filtered_indices.is_empty());
    assert_eq!(app.units.list_state.selected(), None);
    assert_eq!(app.units.unit_type, UnitType::Service);
    assert!(!app.units.user_mode);
    assert_eq!(app.log_panel.logs_scroll, LogScroll::Fixed(0));
    assert_eq!(app.log_panel.log_time_range, TimeRange::All);
    assert!(app.log_panel.cached_entry_heights_dirty);
    assert!(app.details.properties_cache.is_empty());
    assert!(!app.should_quit);
    assert_eq!(app.current_mode(), systemdmgr::input::Mode::Units);
    assert_eq!(app.action_phase(), ActionPhase::Idle);
}

#[test]
fn load_services_lists_filters_and_selects() {
    let app = loaded(sample_units());
    assert_eq!(app.units.services.len(), 5);
    assert_eq!(app.units.filtered_indices, vec![0, 1, 2, 3, 4]);
    assert_eq!(app.units.list_state.selected(), Some(0));
    assert_eq!(app.units.error, None);
    assert_eq!(app.units.last_refreshed, Some(100));
}

#[test]
fn load_services_error_in_system_scope_hints_at_user_scope() {
    let mut app = loaded(sample_units());
    app.details
        .properties_cache
        .insert("ssh.service".into(), UnitProperties::default());
    app.load_services(Err("boom".into()), 200);
    assert_eq!(
        app.units.error.as_deref(),
        Some("boom (press 'u' to switch to user mode)")
    );
    assert_eq!(app.units.services.len(), 5);
    assert_eq!(app.units.last_refreshed, Some(100));
    assert!(app.details.properties_cache.is_empty());
}

#[test]
fn load_services_error_in_user_scope_is_stored_as_it_is() {
    let mut app = App::new();
    app.units.user_mode = true;
    app.load_services(Err("boom".into()), 200);
    assert_eq!(app.units.error.as_deref(), Some("boom"));
}

#[test]
fn load_services_keeps_filters_and_drops_a_stale_selection() {
    let mut app = loaded(sample_units());
    app.units.status_filter = Some("running".into());
    app.update_filter();
    app.units.list_state.select(Some(2));
    app.load_services(Ok(vec![unit("a.service", "running", "A", None)]), 300);
    assert_eq!(app.units.status_filter.as_deref(), Some("running"));
    assert_eq!(app.units.filtered_indices, vec![0]);
    assert_eq!(app.units.list_state.selected(), Some(0));
}

#[test]
fn filtered_list_is_the_matching_sublist_for_every_combination() {
    let queries = ["", "ssh", "SERVER", "zzz"];
    let statuses = [None, Some("running"), Some("failed")];
    let file_states = [None, Some("enabled"), Some("static")];
    for query in queries {
        for status in statuses {
            for file_state in file_states {
                let mut app = loaded(sample_units());
                app.units.search_query = query.into();
                app.units.status_filter = status.map(|s| s.to_string());
                app.units.file_state_filter = file_state.map(|s| s.to_string());
                app.update_filter();
                let lower = query.to_lowercase();
                let expected: Vec<usize> = sample_units()
                    .iter()
                    .enumerate()
                    .filter(|(_, u)| {
                        (query.is_empty()
                            || u.unit.to_lowercase().contains(&lower)
                            || u.description.to_lowercase().contains(&lower))
                            && status.map_or(true, |s| u.sub == s)
                            && file_state.map_or(true, |f| u.file_state.as_deref() == Some(f))
                    })
                    .map(|(i, _)| i)
                    .collect();
                assert_eq!(app.units.filtered_indices, expected);
            }
        }
    }
}

#[test]
fn text_filter_matches_name_or_description_without_regard_to_case() {
    let mut app = loaded(sample_units());
    app.units.search_query = "Ssh".into();
    app.update_filter();
    assert_eq!(app.units.filtered_indices, vec![0, 3]);
}

#[test]
fn selection_stays_on_its_position_while_that_exists() {
    let mut app = loaded(sample_units());
    app.units.list_state.select(Some(1));
    app.units.status_filter = Some("running".into());
    app.update_filter();
    assert_eq!(app.units.filtered_indices, vec![0, 2, 4]);
    // position 1 still exists; it now holds another unit
    assert_eq!(app.units.list_state.selected(), Some(1));
    assert_eq!(app.selected_unit().unwrap().unit, "nginx.service");
}

#[test]
fn selection_resets_to_first_when_its_position_is_gone() {
    let mut app = loaded(sample_units());
    app.units.list_state.select(Some(4));
    app.units.status_filter = Some("running".into());
    app.update_filter();
    assert_eq!(app.units.list_state.selected(), Some(0));
    assert_eq!(app.selected_unit().unwrap().unit, "ssh.service");
}

#[test]
fn selection_keeps_the_unit_that_still_matches_at_its_position() {
    let mut app = loaded(sample_units());
    app.units.list_state.select(Some(0));
    app.units.status_filter = Some("running".into());
    app.update_filter();
    assert_eq!(app.units.list_state.selected(), Some(0));
    assert_eq!(app.selected_unit().unwrap().unit, "ssh.service");
}

#[test]
fn selection_is_cleared_when_nothing_matches() {
    let mut app = loaded(sample_units());
    app.units.list_state.select(Some(2));
    app.units.search_query = "no such unit".into();
    app.update_filter();
    assert!(app.units.filtered_indices.is_empty());
    assert_eq!(app.units.list_state.selected(), None);
    assert!(app.selected_unit().is_none());
}

#[test]
fn selected_unit_is_none_for_a_cursor_outside_the_lists() {
    let mut app = loaded(sample_units());
    app.units.list_state.select(Some(9));
    assert!(app.selected_unit().is_none());
    app.units.filtered_indices = vec![7];
    app.units.list_state.select(Some(0));
    assert!(app.selected_unit().is_none());
}

#[test]
fn typing_and_erasing_the_text_filter_refilters() {
    let mut app = loaded(sample_units());
    app.start_search();
    assert!(app.units.search_mode);
    app.type_search_char('n');
    app.type_search_char('g');
    assert_eq!(app.units.search_query, "ng");
    assert_eq!(app.units.filtered_indices, vec![2]);
    app.erase_search_char();
    assert_eq!(app.units.search_query, "n");
    assert_eq!(app.units.filtered_indices, vec![0, 1, 2, 3]);
    app.erase_search_char();
    app.erase_search_char();
    assert_eq!(app.units.search_query, "");
    assert_eq!(app.units.filtered_indices, vec![0, 1, 2, 3, 4]);
    app.stop_search();
    assert!(!app.units.search_mode);
}

#[test]
fn page_moves_stop_at_the_ends() {
    let mut app = loaded(sample_units());
    app.page_down(usize::MAX);
    assert_eq!(app.units.list_state.selected(), Some(4));
    app.page_up(usize::MAX);
    assert_eq!(app.units.list_state.selected(), Some(0));
    app.units.list_state.select(Some(usize::MAX));
    app.next();
    assert_eq!(app.units.list_state.selected(), Some(4));
    app.units.list_state.select(Some(usize::MAX));
    app.previous();
    assert_eq!(app.units.list_state.selected(), Some(3));
}

#[test]
fn select_unit_ignores_positions_outside_the_list() {
    let mut app = loaded(sample_units());
    app.select_unit(3);
    assert_eq!(app.units.list_state.selected(), Some(3));
    app.select_unit(5);
    assert_eq!(app.units.list_state.selected(), Some(3));
}

#[test]
fn reload_announces_success_only() {
    let mut app = loaded(sample_units());
    app.reload_services(Ok(sample_units()), 500);
    assert_eq!(app.status_message.as_deref(), Some("Refreshed"));
    assert_eq!(app.units.last_refreshed, Some(500));
    app.clear_status_message();
    app.reload_services(Err("down".into()), 600);
    assert_eq!(app.status_message, None);
    assert!(app.units.error.is_some());
}

#[test]
fn load_logs_asks_for_the_selected_unit_once() {
    let mut app = loaded(sample_units());
    app.log_panel.log_priority_filter = Some(4);
    app.log_panel.log_time_range = TimeRange::OneDay;
    app.log_panel.log_search_query = "old".into();
    app.log_panel.logs = vec![record("stale", None)];
    let query = app.load_logs_for_selected().expect("a query");
    assert_eq!(query.unit, "ssh.service");
    assert_eq!(query.lines, LOG_LOAD_LIMIT);
    assert_eq!(query.lines, 1000);
    assert!(!query.user_mode);
    assert_eq!(query.priority, Some(4));
    assert_eq!(query.time_range, TimeRange::OneDay);
    assert!(app.log_panel.logs.is_empty());
    assert!(app.log_panel.log_search_query.is_empty());
    assert_eq!(app.log_panel.logs_scroll, LogScroll::Fixed(0));
    assert_eq!(app.log_panel.last_selected_service.as_deref(), Some("ssh.service"));
    app.logs_loaded(Ok(vec![record("a", None), record("b", None)]));
    assert_eq!(app.log_panel.logs.len(), 2);
    assert_eq!(app.log_panel.logs_scroll, LogScroll::TrackLatest);
    // nothing changed since: no second query
    assert!(app.load_logs_for_selected().is_none());
    assert_eq!(app.log_panel.logs.len(), 2);
}

#[test]
fn load_logs_is_due_again_when_filters_changed_or_selection_moved() {
    let mut app = loaded(sample_units());
    assert!(app.load_logs_for_selected().is_some());
    app.mark_logs_dirty();
    assert!(app.load_logs_for_selected().is_some());
    assert!(!app.log_panel.log_filters_dirty);
    app.next();
    let query = app.load_logs_for_selected().expect("a query");
    assert_eq!(query.unit, "cron.service");
}

#[test]
fn load_logs_without_selection_discards_the_log() {
    let mut app = App::new();
    app.log_panel.logs = vec![record("stale", None)];
    app.log_panel.last_selected_service = Some("gone.service".into());
    assert!(app.load_logs_for_selected().is_none());
    assert!(app.log_panel.logs.is_empty());
    assert_eq!(app.log_panel.last_selected_service, None);
}

#[test]
fn failed_log_fetch_becomes_one_error_record() {
    let mut app = loaded(sample_units());
    app.load_logs_for_selected();
    app.logs_loaded(Err("no journal".into()));
    assert_eq!(app.log_panel.logs.len(), 1);
    assert_eq!(app.log_panel.logs[0].message, "Error fetching logs: no journal");
    assert_eq!(app.log_panel.logs[0].timestamp, None);
    assert_eq!(app.log_panel.logs[0].cursor, None);
    assert_eq!(app.log_panel.logs_scroll, LogScroll::TrackLatest);
}

#[test]
fn empty_log_fetch_anchors_at_the_newest_content_too() {
    let mut app = loaded(sample_units());
    app.load_logs_for_selected();
    app.logs_loaded(Ok(Vec::new()));
    assert!(app.log_panel.logs.is_empty());
    assert_eq!(app.log_panel.logs_scroll, LogScroll::TrackLatest);
    assert_eq!(app.resolve_log_scroll(&[], 10), 0);
}

#[test]
fn switching_scope_discards_what_belongs_to_the_old_one() {
    let mut app = loaded(sample_units());
    app.units.search_query = "ssh".into();
    app.units.status_filter = Some("running".into());
    app.units.file_state_filter = Some("enabled".into());
    app.log_panel.logs = vec![record("a", None)];
    app.log_panel.last_selected_service = Some("ssh.service".into());
    app.log_panel.log_search_query = "a".into();
    app.log_panel.log_priority_filter = Some(3);
    app.log_panel.log_time_range = TimeRange::Today;
    app.log_panel.show_logs = true;
    app.details
        .properties_cache
        .insert("ssh.service".into(), UnitProperties::default());
    app.toggle_user_mode();
    assert!(app.units.user_mode);
    assert_eq!(app.units.unit_type, UnitType::Service);
    assert!(app.units.search_query.is_empty());
    assert_eq!(app.units.status_filter, None);
    assert_eq!(app.units.file_state_filter, None);
    assert!(app.log_panel.logs.is_empty());
    assert!(app.log_panel.log_search_query.is_empty());
    assert_eq!(app.log_panel.last_selected_service, None);
    assert_eq!(app.log_panel.log_priority_filter, None);
    assert_eq!(app.log_panel.log_time_range, TimeRange::All);
    assert!(app.log_panel.show_logs);
    assert!(app.details.properties_cache.is_empty());
    app.toggle_user_mode();
    assert!(!app.units.user_mode);
}

#[test]
fn invalidating_the_heights_marks_them_stale() {
    let mut app = App::new();
    app.log_panel.cached_entry_heights_dirty = false;
    app.invalidate_log_entry_heights_cache();
    assert!(app.log_panel.cached_entry_heights_dirty);
    app.log_panel.cached_entry_heights_dirty = false;
    app.clear_log_search();
    assert!(app.log_panel.cached_entry_heights_dirty);
}

#[test]
fn tail_needs_a_loaded_unit_and_a_cursor() {
    let mut app = loaded(sample_units());
    assert!(app.tail_query().is_none());
    app.log_panel.last_selected_service = Some("ssh.service".into());
    assert!(app.tail_query().is_none());
    app.log_panel.logs = vec![record("a", Some("c1")), record("b", None)];
    assert!(app.tail_query().is_none());
    app.log_panel.logs = vec![record("a", None), record("b", Some("c2"))];
    app.log_panel.log_priority_filter = Some(3);
    let query = app.tail_query().expect("a query");
    assert_eq!(query.unit, "ssh.service");
    assert_eq!(query.cursor, "c2");
    assert_eq!(query.priority, Some(3));
    assert_eq!(query.time_range, TimeRange::All);
    assert!(!query.user_mode);
}

#[test]
fn tail_appends_and_follows_the_newest_content() {
    let mut app = loaded(sample_units());
    app.log_panel.last_selected_service = Some("ssh.service".into());
    app.log_panel.logs = vec![record("a", Some("c1"))];
    app.log_panel.logs_scroll = LogScroll::Fixed(0);
    app.log_panel.cached_entry_heights_dirty = false;
    app.refresh_logs(Ok(vec![record("b", Some("c2")), record("c", Some("c3"))]));
    let messages: Vec<&str> = app.log_panel.logs.iter().map(|e| e.message.as_str()).collect();
    assert_eq!(messages, vec!["a", "b", "c"]);
    assert_eq!(app.log_panel.logs_scroll, LogScroll::TrackLatest);
    assert!(app.log_panel.cached_entry_heights_dirty);
}

#[test]
fn empty_or_failed_tail_changes_nothing() {
    let mut app = loaded(sample_units());
    app.log_panel.last_selected_service = Some("ssh.service".into());
    app.log_panel.logs = vec![record("a", Some("c1"))];
    app.log_panel.logs_scroll = LogScroll::Fixed(0);
    app.refresh_logs(Ok(Vec::new()));
    assert_eq!(app.log_panel.logs.len(), 1);
    assert_eq!(app.log_panel.logs_scroll, LogScroll::Fixed(0));
    app.refresh_logs(Err("down".into()));
    assert_eq!(app.log_panel.logs.len(), 1);
    assert_eq!(app.log_panel.logs_scroll, LogScroll::Fixed(0));
    // a log that cannot be continued takes no records
    app.log_panel.logs = vec![record("a", None)];
    app.refresh_logs(Ok(vec![record("b", None)]));
    assert_eq!(app.log_panel.logs.len(), 1);
}

#[test]
fn search_wraps_from_the_last_match_to_the_first() {
    let mut app = App::new();
    app.log_panel.logs = (0..10).map(|i| record(&format!("line {}", i), None)).collect();
    app.log_panel.log_search_matches = vec![2, 7];
    app.log_panel.log_search_match_index = Some(1);
    app.log_panel.logs_scroll = LogScroll::Fixed(7);
    app.next_log_match(3);
    assert_eq!(app.log_panel.log_search_match_index, Some(0));
    assert_eq!(app.log_panel.log_search_matches[0], 2);
    assert_eq!(app.log_panel.logs_scroll, LogScroll::Fixed(2));
    app.prev_log_match(3);
    assert_eq!(app.log_panel.log_search_match_index, Some(1));
    assert_eq!(app.log_panel.logs_scroll, LogScroll::Fixed(7));
}

#[test]
fn search_step_leaves_the_anchor_when_the_match_is_in_view() {
    let mut app = App::new();
    app.log_panel.logs = (0..10).map(|i| record(&format!("line {}", i), None)).collect();
    app.log_panel.log_search_matches = vec![2, 4];
    app.log_panel.log_search_match_index = Some(0);
    app.log_panel.logs_scroll = LogScroll::Fixed(2);
    app.next_log_match(3);
    assert_eq!(app.log_panel.log_search_match_index, Some(1));
    assert_eq!(app.log_panel.logs_scroll, LogScroll::Fixed(2));
    // one line fewer in view: the match at record 4 is outside
    app.log_panel.log_search_match_index = Some(0);
    app.next_log_match(2);
    assert_eq!(app.log_panel.logs_scroll, LogScroll::Fixed(4));
}

#[test]
fn search_step_from_the_newest_content_jumps_to_the_match() {
    let mut app = App::new();
    app.log_panel.logs = (0..10).map(|i| record(&format!("line {}", i), None)).collect();
    app.log_panel.log_search_matches = vec![2, 7];
    app.log_panel.log_search_match_index = None;
    app.log_panel.logs_scroll = LogScroll::TrackLatest;
    app.next_log_match(5);
    assert_eq!(app.log_panel.log_search_match_index, Some(0));
    assert_eq!(app.log_panel.logs_scroll, LogScroll::Fixed(2));
    app.log_panel.log_search_match_index = None;
    app.prev_log_match(5);
    assert_eq!(app.log_panel.log_search_match_index, Some(1));
}

#[test]
fn search_step_with_a_stray_position_stays_in_the_cycle() {
    let mut app = App::new();
    app.log_panel.logs = (0..10).map(|i| record(&format!("line {}", i), None)).collect();
    app.log_panel.log_search_matches = vec![2, 7, 9];
    app.log_panel.log_search_match_index = Some(usize::MAX);
    app.next_log_match(5);
    // usize::MAX is 0 modulo 3, the position after it is 1
    assert_eq!(app.log_panel.log_search_match_index, Some(1));
    app.log_panel.log_search_match_index = Some(7);
    app.prev_log_match(5);
    // 7 is 1 modulo 3, the position before it is 0
    assert_eq!(app.log_panel.log_search_match_index, Some(0));
}

#[test]
fn typing_the_log_search_searches_messages_only() {
    let mut app = App::new();
    app.log_panel.logs = vec![
        LogEntry { identifier: Some("kernel".into()), ..record("boot ok", None) },
        record("Kernel panic", None),
        record("nothing", None),
    ];
    app.start_log_search();
    for c in "kern".chars() {
        app.type_log_search_char(c);
    }
    assert_eq!(app.log_panel.log_search_matches, vec![1]);
    assert_eq!(app.log_panel.log_search_match_index, Some(0));
    assert_eq!(app.log_panel.logs_scroll, LogScroll::Fixed(1));
    app.type_log_search_char('x');
    assert!(app.log_panel.log_search_matches.is_empty());
    assert_eq!(app.log_panel.log_search_match_index, None);
    assert_eq!(app.log_panel.logs_scroll, LogScroll::Fixed(1));
    app.erase_log_search_char();
    assert_eq!(app.log_panel.log_search_query, "kern");
    assert_eq!(app.log_panel.log_search_matches, vec![1]);
    app.stop_log_search();
    assert!(!app.log_panel.log_search_mode);
}

#[test]
fn manual_scroll_stops_following_and_keeps_the_newest_anchor() {
    let mut app = App::new();
    app.log_panel.logs = vec![record("a", None), record("b", None), record("c", None)];
    app.log_panel.live_tail = true;
    app.log_panel.logs_scroll = LogScroll::TrackLatest;
    app.scroll_logs_up(1);
    assert!(!app.log_panel.live_tail);
    assert_eq!(app.log_panel.logs_scroll, LogScroll::TrackLatest);
    app.log_panel.live_tail = true;
    app.scroll_logs_down(1);
    assert!(!app.log_panel.live_tail);
    assert_eq!(app.log_panel.logs_scroll, LogScroll::TrackLatest);
    app.log_panel.logs_scroll = LogScroll::Fixed(1);
    app.scroll_logs_down(usize::MAX);
    assert_eq!(app.log_panel.logs_scroll, LogScroll::Fixed(2));
    app.scroll_logs_up(usize::MAX);
    assert_eq!(app.log_panel.logs_scroll, LogScroll::Fixed(0));
}

#[test]
fn resolving_the_anchor_holds_it_at_the_bottom_index() {
    let mut app = App::new();
    app.log_panel.logs = (0..5).map(|i| record(&format!("line {}", i), None)).collect();
    app.log_panel.logs_scroll = LogScroll::TrackLatest;
    assert_eq!(app.resolve_log_scroll(&[1, 1, 1, 1, 1], 3), 2);
    assert_eq!(app.log_panel.logs_scroll, LogScroll::Fixed(2));
    app.log_panel.logs_scroll = LogScroll::Fixed(4);
    assert_eq!(app.resolve_log_scroll(&[1, 1, 1, 1, 1], 3), 2);
    app.log_panel.logs_scroll = LogScroll::Fixed(1);
    assert_eq!(app.resolve_log_scroll(&[1, 1, 1, 1, 1], 3), 1);
    assert_eq!(app.log_panel.logs_scroll, LogScroll::Fixed(1));
    app.log_panel.logs.clear();
    app.log_panel.logs_scroll = LogScroll::Fixed(3);
    assert_eq!(app.resolve_log_scroll(&[], 3), 0);
    assert_eq!(app.log_panel.logs_scroll, LogScroll::Fixed(0));
}

#[test]
fn leaving_and_hiding_the_log_panel() {
    let mut app = loaded(sample_units());
    app.toggle_logs();
    app.log_panel.last_selected_service = Some("ssh.service".into());
    app.log_panel.log_search_query = "x".into();
    app.leave_logs();
    assert!(!app.log_panel.show_logs);
    assert!(!app.log_panel.live_tail);
    assert!(app.log_panel.log_search_query.is_empty());
    assert_eq!(app.log_panel.last_selected_service, None);
    app.toggle_logs();
    app.log_panel.last_selected_service = Some("ssh.service".into());
    app.hide_logs();
    assert!(!app.log_panel.show_logs);
    assert!(!app.log_panel.live_tail);
    assert_eq!(app.log_panel.last_selected_service.as_deref(), Some("ssh.service"));
}

#[test]
fn action_passes_through_its_phases_once() {
    let mut app = loaded(sample_units());
    app.open_action_picker();
    app.action_picker_confirm();
    assert_eq!(app.action_phase(), ActionPhase::Confirming);
    assert_eq!(app.action.confirm_action, Some(UnitAction::Stop));

    let request = app.confirm_yes().expect("the action starts");
    assert_eq!(request.action, UnitAction::Stop);
    assert_eq!(request.unit_name, "ssh.service");
    assert_eq!(request.unit_type, UnitType::Service);
    assert!(!request.user_mode);
    assert_eq!(app.action_phase(), ActionPhase::Executing);
    assert!(app.action.action_in_progress);

    // it cannot be started a second time
    assert!(app.confirm_yes().is_none());
    assert_eq!(app.action_phase(), ActionPhase::Executing);

    // a poll without a result leaves it executing
    app.check_action_progress(None, None, 1);
    assert_eq!(app.action_phase(), ActionPhase::Executing);

    app.check_action_progress(Some(Ok("Stop succeeded for ssh.service".into())), None, 2);
    assert_eq!(app.action_phase(), ActionPhase::Settled);
    assert!(!app.action.action_in_progress);
    assert_eq!(
        app.action.action_result,
        Some(Ok("Stop succeeded for ssh.service".to_string()))
    );

    // a second result is not taken
    app.check_action_progress(Some(Err("late".into())), None, 3);
    assert_eq!(
        app.action.action_result,
        Some(Ok("Stop succeeded for ssh.service".to_string()))
    );
    assert!(app.confirm_yes().is_none());

    app.dismiss_action_result();
    assert_eq!(app.action_phase(), ActionPhase::Idle);
    assert!(!app.action.show_confirm);
    assert_eq!(app.action.confirm_action, None);
    assert_eq!(app.action.confirm_unit_name, None);
    assert_eq!(app.action.action_result, None);
    assert!(!app.action.awaiting_action);
    assert!(!app.action.awaiting_refresh);
}

#[test]
fn failed_action_settles_with_its_error() {
    let mut app = loaded(sample_units());
    app.request_daemon_reload();
    assert_eq!(app.action.confirm_unit_name.as_deref(), Some(""));
    let request = app.confirm_yes().expect("the action starts");
    assert_eq!(request.action, UnitAction::DaemonReload);
    assert_eq!(request.unit_name, "");
    app.check_action_progress(Some(Err("Daemon Reload failed: denied".into())), None, 1);
    assert_eq!(app.action_phase(), ActionPhase::Settled);
    assert_eq!(
        app.action.action_result,
        Some(Err("Daemon Reload failed: denied".to_string()))
    );
}

#[test]
fn dismissing_while_executing_drops_what_is_awaited() {
    let mut app = loaded(sample_units());
    app.request_daemon_reload();
    app.confirm_yes();
    app.dismiss_action_result();
    assert_eq!(app.action_phase(), ActionPhase::Idle);
    app.check_action_progress(Some(Ok("late".into())), Some(Vec::new()), 5);
    assert_eq!(app.action.action_result, None);
    assert_eq!(app.units.services.len(), 5);
}

#[test]
fn settling_refreshes_the_inventory_and_marks_shown_logs() {
    let mut app = loaded(sample_units());
    app.units.status_filter = Some("running".into());
    app.update_filter();
    app.toggle_logs();
    app.details
        .properties_cache
        .insert("ssh.service".into(), UnitProperties::default());
    app.request_daemon_reload();
    app.confirm_yes();
    app.check_action_progress(
        Some(Ok("done".into())),
        Some(vec![unit("only.service", "running", "Only", None)]),
        900,
    );
    assert!(app.log_panel.log_filters_dirty);
    assert_eq!(app.units.services.len(), 1);
    assert_eq!(app.units.filtered_indices, vec![0]);
    assert_eq!(app.units.last_refreshed, Some(900));
    assert!(app.details.properties_cache.is_empty());
    assert!(!app.action.awaiting_refresh);
    // the listing is taken once
    app.check_action_progress(None, Some(Vec::new()), 901);
    assert_eq!(app.units.services.len(), 1);
}

#[test]
fn confirm_without_a_pending_action_starts_nothing() {
    let mut app = loaded(sample_units());
    assert!(app.confirm_yes().is_none());
    app.action.show_confirm = true;
    assert!(app.confirm_yes().is_none());
    app.action.confirm_action = Some(UnitAction::Start);
    assert!(app.confirm_yes().is_none());
    assert!(!app.action.action_in_progress);
}

#[test]
fn action_shortcut_picks_the_action_and_asks_for_confirmation() {
    let mut app = loaded(sample_units());
    app.open_action_picker();
    assert_eq!(
        app.pickers.available_actions,
        vec![
            UnitAction::Stop,
            UnitAction::Restart,
            UnitAction::Reload,
            UnitAction::Disable,
            UnitAction::DaemonReload
        ]
    );
    app.action_picker_shortcut('z');
    assert!(app.pickers.show_action_picker);
    assert!(!app.action.show_confirm);
    app.action_picker_shortcut('r');
    assert!(!app.pickers.show_action_picker);
    assert!(app.action.show_confirm);
    assert_eq!(app.pickers.action_picker_state.selected(), Some(1));
    assert_eq!(app.action.confirm_action, Some(UnitAction::Restart));
    assert_eq!(app.action.confirm_unit_name.as_deref(), Some("ssh.service"));
}

#[test]
fn manager_wide_action_from_the_picker_is_for_no_unit() {
    let mut app = loaded(sample_units());
    assert_eq!(app.selected_unit().unwrap().unit, "ssh.service");
    app.open_action_picker();
    let last = app.pickers.available_actions.len() - 1;
    assert_eq!(app.pickers.available_actions[last], UnitAction::DaemonReload);
    app.pickers.action_picker_state.select(Some(last));
    app.action_picker_confirm();
    assert!(app.action.show_confirm);
    assert_eq!(app.action.confirm_action, Some(UnitAction::DaemonReload));
    assert_eq!(app.action.confirm_unit_name, Some(String::new()));
    let request = app.confirm_yes().expect("the action starts");
    assert_eq!(request.action, UnitAction::DaemonReload);
    assert_eq!(request.unit_name, "");
}

#[test]
fn manager_wide_action_by_shortcut_is_for_no_unit() {
    let mut app = loaded(sample_units());
    app.open_action_picker();
    app.action_picker_shortcut('D');
    assert!(app.action.show_confirm);
    assert!(!app.pickers.show_action_picker);
    assert_eq!(app.action.confirm_action, Some(UnitAction::DaemonReload));
    assert_eq!(app.action.confirm_unit_name, Some(String::new()));
    // an action on the unit carries the unit's name
    app.dismiss_action_result();
    app.open_action_picker();
    app.action_picker_shortcut('t');
    assert_eq!(app.action.confirm_action, Some(UnitAction::Stop));
    assert_eq!(app.action.confirm_unit_name.as_deref(), Some("ssh.service"));
}

#[test]
fn resolving_the_anchor_in_a_panel_without_lines_goes_to_the_last_record() {
    let mut app = App::new();
    app.log_panel.logs = (0..4).map(|i| record(&format!("line {}", i), None)).collect();
    app.log_panel.logs_scroll = LogScroll::TrackLatest;
    assert_eq!(app.resolve_log_scroll(&[1, 1, 1, 1], 0), 3);
    app.log_panel.logs_scroll = LogScroll::Fixed(1);
    assert_eq!(app.resolve_log_scroll(&[1, 1, 1, 1], 0), 1);
}

#[test]
fn details_show_what_was_read_and_remember_it() {
    let mut app = loaded(sample_units());
    assert_eq!(app.details_to_fetch().as_deref(), Some("ssh.service"));
    let mut read = UnitProperties::default();
    read.description = "Read once".into();
    app.open_details(Some(read));
    assert!(app.details.show_details);
    assert_eq!(app.details.detail_unit_name.as_deref(), Some("ssh.service"));
    assert_eq!(app.details.detail_properties.as_ref().unwrap().description, "Read once");
    assert_eq!(app.details_to_fetch(), None);
    app.close_details();
    // the remembered sheet wins over what is handed in
    let mut other = UnitProperties::default();
    other.description = "Read twice".into();
    app.open_details(Some(other));
    assert_eq!(app.details.detail_properties.as_ref().unwrap().description, "Read once");
}

#[test]
fn details_without_a_read_sheet_show_the_empty_one() {
    let mut app = loaded(sample_units());
    app.open_details(None);
    assert!(app.details.show_details);
    let shown = app.details.detail_properties.as_ref().unwrap();
    assert_eq!(shown.description, "");
    assert_eq!(shown.main_pid, 0);
    assert_eq!(app.details_to_fetch(), None);
}

#[test]
fn details_without_selection_do_not_open() {
    let mut app = App::new();
    assert_eq!(app.details_to_fetch(), None);
    app.open_details(Some(UnitProperties::default()));
    assert!(!app.details.show_details);
}

#[test]
fn unit_file_viewer_shows_lines_or_the_error() {
    let mut app = loaded(sample_units());
    app.unit_file.unit_file_search_query = "old".into();
    app.open_unit_file(Ok(vec!["[Unit]".into(), "Description=x".into()]));
    assert!(app.unit_file.show_unit_file);
    assert_eq!(app.unit_file.unit_file_content, vec!["[Unit]", "Description=x"]);
    assert_eq!(app.unit_file.unit_file_unit_name.as_deref(), Some("ssh.service"));
    assert!(app.unit_file.unit_file_search_query.is_empty());
    app.close_unit_file();
    app.open_unit_file(Err("No files found".into()));
    assert_eq!(app.unit_file.unit_file_content, vec!["Error: No files found"]);
    let mut empty = App::new();
    empty.open_unit_file(Ok(vec!["x".into()]));
    assert!(!empty.unit_file.show_unit_file);
}

#[test]
fn typing_the_unit_file_search_searches_lines() {
    let mut app = loaded(sample_units());
    app.open_unit_file(Ok(vec!["ExecStart=/bin/a".into(), "Restart=no".into(), "execstop=".into()]));
    app.start_unit_file_search();
    for c in "EXEC".chars() {
        app.type_unit_file_search_char(c);
    }
    assert_eq!(app.unit_file.unit_file_search_matches, vec![0, 2]);
    assert_eq!(app.unit_file.unit_file_scroll, 0);
    app.next_unit_file_match(1);
    assert_eq!(app.unit_file.unit_file_search_match_index, Some(1));
    assert_eq!(app.unit_file.unit_file_scroll, 2);
    app.erase_unit_file_search_char();
    assert_eq!(app.unit_file.unit_file_search_query, "EXE");
    app.stop_unit_file_search();
    assert!(!app.unit_file.unit_file_search_mode);
}

#[test]
fn switching_category_discards_what_belongs_to_the_old_one() {
    let mut app = loaded(sample_units());
    app.units.search_query = "ssh".into();
    app.units.status_filter = Some("running".into());
    app.units.file_state_filter = Some("enabled".into());
    app.log_panel.logs = vec![record("a", None)];
    app.log_panel.last_selected_service = Some("ssh.service".into());
    app.log_panel.log_priority_filter = Some(3);
    app.log_panel.log_time_range = TimeRange::Today;
    app.details
        .properties_cache
        .insert("ssh.service".into(), UnitProperties::default());
    app.open_type_picker();
    app.type_picker_next();
    assert!(app.type_picker_confirm());
    assert_eq!(app.units.unit_type, UnitType::Timer);
    assert!(app.units.search_query.is_empty());
    assert_eq!(app.units.status_filter, None);
    assert_eq!(app.units.file_state_filter, None);
    assert!(app.log_panel.logs.is_empty());
    assert_eq!(app.log_panel.last_selected_service, None);
    assert_eq!(app.log_panel.log_priority_filter, None);
    assert_eq!(app.log_panel.log_time_range, TimeRange::All);
    assert!(app.details.properties_cache.is_empty());
    assert!(!app.pickers.show_type_picker);
    // the units stay until the new listing is taken in
    assert_eq!(app.units.services.len(), 5);
}

#[test]
fn confirming_the_category_in_effect_only_closes_the_picker() {
    let mut app = loaded(sample_units());
    app.units.search_query = "ssh".into();
    app.open_type_picker();
    assert!(!app.type_picker_confirm());
    assert_eq!(app.units.search_query, "ssh");
    assert!(!app.pickers.show_type_picker);
}

#[test]
fn pickers_with_a_stray_cursor_apply_nothing() {
    let mut app = loaded(sample_units());
    app.units.status_filter = Some("running".into());
    app.open_status_picker();
    app.pickers.status_picker_state.select(Some(99));
    app.status_picker_confirm();
    assert_eq!(app.units.status_filter.as_deref(), Some("running"));
    assert!(!app.pickers.show_status_picker);

    app.open_priority_picker();
    app.pickers.priority_picker_state.select(Some(9));
    app.priority_picker_confirm();
    assert_eq!(app.log_panel.log_priority_filter, None);
    assert!(!app.log_panel.log_filters_dirty);

    app.open_time_picker();
    app.pickers.time_picker_state.select(Some(6));
    app.time_picker_confirm();
    assert_eq!(app.log_panel.log_time_range, TimeRange::All);

    app.open_type_picker();
    app.pickers.type_picker_state.select(Some(5));
    assert!(!app.type_picker_confirm());

    app.open_file_state_picker();
    app.pickers.file_state_picker_state.select(Some(6));
    app.file_state_picker_confirm();
    assert_eq!(app.units.file_state_filter, None);
}

#[test]
fn picker_opens_on_the_first_entry_for_an_unknown_filter() {
    let mut app = loaded(sample_units());
    app.units.status_filter = Some("elapsed".into());
    app.open_status_picker();
    assert_eq!(app.pickers.status_picker_state.selected(), Some(0));
    app.units.unit_type = UnitType::Timer;
    app.open_status_picker();
    assert_eq!(app.pickers.status_picker_state.selected(), Some(3));
}

#[test]
fn priority_picker_covers_every_severity() {
    for p in 0u8..8 {
        let mut app = App::new();
        app.open_priority_picker();
        app.pickers.priority_picker_state.select(Some(p as usize + 1));
        app.priority_picker_confirm();
        assert_eq!(app.log_panel.log_priority_filter, Some(p));
        app.open_priority_picker();
        assert_eq!(app.pickers.priority_picker_state.selected(), Some(p as usize + 1));
    }
}

#[test]
fn detail_scroll_to_the_end_stops_at_the_last_page() {
    let mut app = App::new();
    app.detail_scroll_down(usize::MAX, 30, 10);
    assert_eq!(app.details.detail_scroll, 20);
    app.detail_scroll_up(usize::MAX);
    assert_eq!(app.details.detail_scroll, 0);
    app.details.detail_scroll = 25;
    app.detail_scroll_down(1, 30, 10);
    assert_eq!(app.details.detail_scroll, 20);
}
