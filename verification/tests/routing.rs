use systemdmgr::app::App;
use systemdmgr::clock::{LiveTailClock, ACTION_POLL_NS, IDLE_POLL_NS, LIVE_TAIL_INTERVAL_NS};
use systemdmgr::input::{
    Command, Key, KeyPress, Mode, MouseInput, MouseKind, Rect, Viewport, WHEEL_LINES,
};
use systemdmgr::service::SystemdUnit;

fn press(key: Key) -> KeyPress {
    KeyPress { key, ctrl: false }
}

fn typed(c: char) -> KeyPress {
    press(Key::Char(c))
}

fn ctrl(c: char) -> KeyPress {
    KeyPress { key: Key::Char(c), ctrl: true }
}

fn view() -> Viewport {
    Viewport { services_lines: 20, logs_lines: 30, details_lines: 15, unit_file_lines: 12 }
}

fn unit(name: &str) -> SystemdUnit {
    SystemdUnit {
        unit: name.into(),
        load: "loaded".into(),
        active: "active".into(),
        sub: "running".into(),
        description: "d".into(),
        detail: None,
        file_state: None,
    }
}

fn with_units(n: usize) -> App {
    let mut app = App::new();
    app.load_services(Ok((0..n).map(|i| unit(&format!("u{}.service", i))).collect()), 0);
    app
}

#[test]
fn unit_list_keys() {
    let expected = [
        (typed('q'), Command::Quit),
        (typed('l'), Command::ToggleLogs),
        (press(Key::Esc), Command::Quit),
        (typed('/'), Command::StartSearch),
        (typed('j'), Command::Next),
        (press(Key::Down), Command::Next),
        (typed('k'), Command::Previous),
        (press(Key::Up), Command::Previous),
        (typed('g'), Command::GoToTop),
        (press(Key::Home), Command::GoToTop),
        (typed('G'), Command::GoToBottom),
        (press(Key::End), Command::GoToBottom),
        (typed('r'), Command::Reload),
        (typed('u'), Command::ToggleUserMode),
        (typed('s'), Command::OpenStatusPicker),
        (typed('t'), Command::OpenTypePicker),
        (typed('p'), Command::OpenPriorityPicker),
        (typed('T'), Command::OpenTimePicker),
        (typed('i'), Command::OpenDetails),
        (press(Key::Enter), Command::OpenDetails),
        (typed('f'), Command::OpenFileStatePicker),
        (typed('v'), Command::OpenUnitFile),
        (typed('x'), Command::OpenActionPicker),
        (typed('R'), Command::RequestDaemonReload),
        (press(Key::PageUp), Command::PageUp(20)),
        (press(Key::PageDown), Command::PageDown(20)),
        (typed('z'), Command::Nothing),
        (press(Key::Backspace), Command::Nothing),
        (press(Key::Other), Command::Nothing),
        (typed('?'), Command::ToggleHelp),
    ];
    for (key, command) in expected {
        let mut app = with_units(3);
        assert_eq!(app.current_mode(), Mode::Units);
        assert_eq!(app.key_command(key, view()), command);
    }
}

#[test]
fn a_key_for_the_unit_list_removes_the_notice() {
    let mut app = with_units(3);
    app.status_message = Some("Refreshed".into());
    app.key_command(typed('?'), view());
    assert_eq!(app.status_message.as_deref(), Some("Refreshed"));
    app.key_command(typed('z'), view());
    assert_eq!(app.status_message, None);
    app.status_message = Some("Refreshed".into());
    app.toggle_logs();
    app.key_command(typed('j'), view());
    assert_eq!(app.status_message.as_deref(), Some("Refreshed"));
}

#[test]
fn escape_drops_the_text_filter_before_it_quits() {
    let mut app = with_units(3);
    app.units.search_query = "u1".into();
    assert_eq!(app.key_command(press(Key::Esc), view()), Command::ClearSearch);
    assert_eq!(app.key_command(typed('q'), view()), Command::Quit);
}

#[test]
fn help_swallows_the_next_key() {
    let mut app = with_units(3);
    app.toggle_help();
    assert_eq!(app.current_mode(), Mode::Help);
    assert_eq!(app.key_command(typed('q'), view()), Command::CloseHelp);
    assert_eq!(app.key_command(press(Key::Enter), view()), Command::CloseHelp);
    assert_eq!(app.key_command(typed('?'), view()), Command::ToggleHelp);
    app.close_help();
    assert!(!app.pickers.show_help);
}

#[test]
fn help_key_is_taken_by_filter_pickers_and_the_dialog() {
    let mut app = with_units(3);
    app.open_status_picker();
    assert_eq!(app.key_command(typed('?'), view()), Command::Nothing);
    app.close_status_picker();
    app.request_daemon_reload();
    assert_eq!(app.key_command(typed('?'), view()), Command::Nothing);
    app.confirm_no();
    app.open_action_picker();
    assert_eq!(app.key_command(typed('?'), view()), Command::ToggleHelp);
    app.close_action_picker();
    app.start_search();
    assert_eq!(app.key_command(typed('?'), view()), Command::ToggleHelp);
}

#[test]
fn picker_keys() {
    let mut app = with_units(3);
    app.open_status_picker();
    assert_eq!(app.current_mode(), Mode::StatusPicker);
    assert_eq!(app.key_command(press(Key::Esc), view()), Command::CloseStatusPicker);
    assert_eq!(app.key_command(typed('s'), view()), Command::CloseStatusPicker);
    assert_eq!(app.key_command(typed('j'), view()), Command::StatusPickerNext);
    assert_eq!(app.key_command(press(Key::Down), view()), Command::StatusPickerNext);
    assert_eq!(app.key_command(typed('k'), view()), Command::StatusPickerPrevious);
    assert_eq!(app.key_command(press(Key::Up), view()), Command::StatusPickerPrevious);
    assert_eq!(app.key_command(press(Key::Enter), view()), Command::StatusPickerConfirm);
    assert_eq!(app.key_command(typed('t'), view()), Command::Nothing);
    app.close_status_picker();

    app.open_type_picker();
    assert_eq!(app.current_mode(), Mode::TypePicker);
    assert_eq!(app.key_command(typed('t'), view()), Command::CloseTypePicker);
    assert_eq!(app.key_command(press(Key::Enter), view()), Command::TypePickerConfirm);
    assert_eq!(app.key_command(typed('j'), view()), Command::TypePickerNext);
    assert_eq!(app.key_command(typed('k'), view()), Command::TypePickerPrevious);
    app.close_type_picker();

    app.open_priority_picker();
    assert_eq!(app.current_mode(), Mode::PriorityPicker);
    assert_eq!(app.key_command(typed('p'), view()), Command::ClosePriorityPicker);
    assert_eq!(app.key_command(press(Key::Enter), view()), Command::PriorityPickerConfirm);
    assert_eq!(app.key_command(typed('j'), view()), Command::PriorityPickerNext);
    assert_eq!(app.key_command(typed('k'), view()), Command::PriorityPickerPrevious);
    app.close_priority_picker();

    app.open_time_picker();
    assert_eq!(app.current_mode(), Mode::TimePicker);
    assert_eq!(app.key_command(typed('T'), view()), Command::CloseTimePicker);
    assert_eq!(app.key_command(typed('t'), view()), Command::Nothing);
    assert_eq!(app.key_command(press(Key::Enter), view()), Command::TimePickerConfirm);
    assert_eq!(app.key_command(typed('j'), view()), Command::TimePickerNext);
    assert_eq!(app.key_command(typed('k'), view()), Command::TimePickerPrevious);
    app.close_time_picker();

    app.open_file_state_picker();
    assert_eq!(app.current_mode(), Mode::FileStatePicker);
    assert_eq!(app.key_command(typed('f'), view()), Command::CloseFileStatePicker);
    assert_eq!(app.key_command(press(Key::Enter), view()), Command::FileStatePickerConfirm);
    assert_eq!(app.key_command(typed('j'), view()), Command::FileStatePickerNext);
    assert_eq!(app.key_command(typed('k'), view()), Command::FileStatePickerPrevious);
}

#[test]
fn action_picker_keys() {
    let mut app = with_units(3);
    app.open_action_picker();
    assert_eq!(app.current_mode(), Mode::ActionPicker);
    assert_eq!(app.key_command(press(Key::Esc), view()), Command::CloseActionPicker);
    assert_eq!(app.key_command(typed('x'), view()), Command::CloseActionPicker);
    assert_eq!(app.key_command(typed('j'), view()), Command::ActionPickerNext);
    assert_eq!(app.key_command(typed('k'), view()), Command::ActionPickerPrevious);
    assert_eq!(app.key_command(press(Key::Enter), view()), Command::ActionPickerConfirm);
    assert_eq!(app.key_command(typed('t'), view()), Command::ActionPickerShortcut('t'));
    assert_eq!(app.key_command(typed('D'), view()), Command::ActionPickerShortcut('D'));
    assert_eq!(app.key_command(press(Key::PageUp), view()), Command::Nothing);
}

#[test]
fn confirmation_dialog_keys_follow_the_phase() {
    let mut app = with_units(3);
    app.request_daemon_reload();
    assert_eq!(app.current_mode(), Mode::Confirm);
    assert_eq!(app.key_command(typed('y'), view()), Command::ConfirmYes);
    assert_eq!(app.key_command(typed('Y'), view()), Command::ConfirmYes);
    assert_eq!(app.key_command(typed('n'), view()), Command::ConfirmNo);
    assert_eq!(app.key_command(typed('N'), view()), Command::ConfirmNo);
    assert_eq!(app.key_command(press(Key::Esc), view()), Command::ConfirmNo);
    assert_eq!(app.key_command(typed('q'), view()), Command::Nothing);
    app.confirm_yes();
    assert_eq!(app.key_command(typed('n'), view()), Command::Nothing);
    assert_eq!(app.key_command(typed('y'), view()), Command::Nothing);
    assert_eq!(app.key_command(press(Key::Enter), view()), Command::Nothing);
    // an action that never reports back can still be dismissed
    assert_eq!(app.key_command(press(Key::Esc), view()), Command::DismissActionResult);
    app.check_action_progress(Some(Ok("done".into())), None, 0);
    assert_eq!(app.key_command(typed('z'), view()), Command::DismissActionResult);
    assert_eq!(app.key_command(press(Key::Other), view()), Command::DismissActionResult);
}

#[test]
fn details_keys() {
    let mut app = with_units(3);
    app.open_details(None);
    assert_eq!(app.current_mode(), Mode::Details);
    assert_eq!(app.key_command(press(Key::Esc), view()), Command::CloseDetails);
    assert_eq!(app.key_command(typed('i'), view()), Command::CloseDetails);
    assert_eq!(app.key_command(press(Key::Enter), view()), Command::CloseDetails);
    assert_eq!(app.key_command(typed('j'), view()), Command::DetailScrollDown(1));
    assert_eq!(app.key_command(typed('k'), view()), Command::DetailScrollUp(1));
    assert_eq!(app.key_command(typed('g'), view()), Command::DetailScrollUp(usize::MAX));
    assert_eq!(app.key_command(typed('G'), view()), Command::DetailScrollDown(usize::MAX));
    assert_eq!(app.key_command(press(Key::PageDown), view()), Command::DetailScrollDown(10));
    assert_eq!(app.key_command(press(Key::PageUp), view()), Command::DetailScrollUp(10));
}

#[test]
fn search_typing_keys() {
    let mut app = with_units(3);
    app.start_search();
    assert_eq!(app.current_mode(), Mode::Search);
    assert_eq!(app.key_command(typed('q'), view()), Command::TypeSearchChar('q'));
    assert_eq!(app.key_command(typed('j'), view()), Command::TypeSearchChar('j'));
    assert_eq!(app.key_command(press(Key::Backspace), view()), Command::EraseSearchChar);
    assert_eq!(app.key_command(press(Key::Esc), view()), Command::StopSearch);
    assert_eq!(app.key_command(press(Key::Enter), view()), Command::StopSearch);
    assert_eq!(app.key_command(press(Key::Down), view()), Command::Next);
    assert_eq!(app.key_command(press(Key::Up), view()), Command::Previous);
    assert_eq!(app.key_command(press(Key::PageUp), view()), Command::PageUp(20));
    assert_eq!(app.key_command(press(Key::PageDown), view()), Command::PageDown(20));
    assert_eq!(app.key_command(press(Key::Home), view()), Command::Nothing);
}

#[test]
fn log_panel_keys() {
    let expected = [
        (typed('l'), Command::LeaveLogs),
        (press(Key::Esc), Command::HideLogs),
        (typed('q'), Command::HideLogs),
        (typed('/'), Command::StartLogSearch),
        (typed('n'), Command::NextLogMatch(30)),
        (typed('N'), Command::PrevLogMatch(30)),
        (typed('j'), Command::ScrollLogsDown(1)),
        (press(Key::Down), Command::ScrollLogsDown(1)),
        (typed('k'), Command::ScrollLogsUp(1)),
        (press(Key::Up), Command::ScrollLogsUp(1)),
        (typed('g'), Command::LogsTop),
        (press(Key::Home), Command::LogsTop),
        (typed('G'), Command::LogsBottom),
        (press(Key::End), Command::LogsBottom),
        (press(Key::PageUp), Command::ScrollLogsUp(30)),
        (press(Key::PageDown), Command::ScrollLogsDown(30)),
        (ctrl('u'), Command::ScrollLogsUp(15)),
        (ctrl('d'), Command::ScrollLogsDown(15)),
        (typed('u'), Command::Nothing),
        (typed('d'), Command::Nothing),
        (ctrl('j'), Command::ScrollLogsDown(1)),
        (typed('p'), Command::OpenPriorityPicker),
        (typed('t'), Command::OpenTimePicker),
        (typed('x'), Command::OpenActionPicker),
        (typed('f'), Command::ToggleLiveTail),
        (typed('s'), Command::Nothing),
    ];
    for (key, command) in expected {
        let mut app = with_units(3);
        app.toggle_logs();
        assert_eq!(app.current_mode(), Mode::Logs);
        assert_eq!(app.key_command(key, view()), command);
    }
    let mut app = with_units(3);
    app.toggle_logs();
    app.log_panel.log_search_query = "x".into();
    assert_eq!(app.key_command(press(Key::Esc), view()), Command::ClearLogSearch);
    assert_eq!(app.key_command(typed('q'), view()), Command::ClearLogSearch);
    app.start_log_search();
    assert_eq!(app.current_mode(), Mode::LogSearch);
    assert_eq!(app.key_command(typed('q'), view()), Command::TypeLogSearchChar('q'));
    assert_eq!(app.key_command(press(Key::Backspace), view()), Command::EraseLogSearchChar);
    assert_eq!(app.key_command(press(Key::Enter), view()), Command::StopLogSearch);
    assert_eq!(app.key_command(press(Key::Esc), view()), Command::StopLogSearch);
    assert_eq!(app.key_command(press(Key::PageUp), view()), Command::ScrollLogsUp(30));
    assert_eq!(app.key_command(press(Key::PageDown), view()), Command::ScrollLogsDown(30));
    assert_eq!(app.key_command(press(Key::Down), view()), Command::Nothing);
}

#[test]
fn unit_file_viewer_keys() {
    let mut app = with_units(3);
    app.open_unit_file(Ok(vec!["a".into()]));
    assert_eq!(app.current_mode(), Mode::UnitFile);
    assert_eq!(app.key_command(typed('v'), view()), Command::CloseUnitFile);
    assert_eq!(app.key_command(press(Key::Esc), view()), Command::CloseUnitFile);
    assert_eq!(app.key_command(typed('q'), view()), Command::CloseUnitFile);
    assert_eq!(app.key_command(typed('/'), view()), Command::StartUnitFileSearch);
    assert_eq!(app.key_command(typed('n'), view()), Command::NextUnitFileMatch(12));
    assert_eq!(app.key_command(typed('N'), view()), Command::PrevUnitFileMatch(12));
    assert_eq!(app.key_command(typed('j'), view()), Command::ScrollUnitFileDown(1));
    assert_eq!(app.key_command(typed('k'), view()), Command::ScrollUnitFileUp(1));
    assert_eq!(app.key_command(typed('g'), view()), Command::UnitFileTop);
    assert_eq!(app.key_command(typed('G'), view()), Command::UnitFileBottom);
    assert_eq!(app.key_command(press(Key::PageUp), view()), Command::ScrollUnitFileUp(12));
    assert_eq!(app.key_command(press(Key::PageDown), view()), Command::ScrollUnitFileDown(12));
    assert_eq!(app.key_command(ctrl('u'), view()), Command::ScrollUnitFileUp(6));
    assert_eq!(app.key_command(ctrl('d'), view()), Command::ScrollUnitFileDown(6));
    app.unit_file.unit_file_search_query = "a".into();
    assert_eq!(app.key_command(press(Key::Esc), view()), Command::ClearUnitFileSearch);
    assert_eq!(app.key_command(typed('q'), view()), Command::ClearUnitFileSearch);
    assert_eq!(app.key_command(typed('v'), view()), Command::CloseUnitFile);
    app.start_unit_file_search();
    assert_eq!(app.current_mode(), Mode::UnitFileSearch);
    assert_eq!(app.key_command(typed('v'), view()), Command::TypeUnitFileSearchChar('v'));
    assert_eq!(
        app.key_command(press(Key::Backspace), view()),
        Command::EraseUnitFileSearchChar
    );
    assert_eq!(app.key_command(press(Key::Enter), view()), Command::StopUnitFileSearch);
    assert_eq!(app.key_command(press(Key::PageUp), view()), Command::ScrollUnitFileUp(12));
}

#[test]
fn overlays_take_keys_in_a_fixed_order() {
    let mut app = with_units(3);
    app.toggle_logs();
    app.start_log_search();
    app.open_details(None);
    assert_eq!(app.current_mode(), Mode::Details);
    app.request_daemon_reload();
    assert_eq!(app.current_mode(), Mode::Confirm);
    app.open_action_picker();
    assert_eq!(app.current_mode(), Mode::ActionPicker);
    app.open_time_picker();
    assert_eq!(app.current_mode(), Mode::TimePicker);
    app.open_status_picker();
    assert_eq!(app.current_mode(), Mode::StatusPicker);
    app.toggle_help();
    assert_eq!(app.current_mode(), Mode::Help);
}

fn mouse(kind: MouseKind, column: u16, row: u16) -> MouseInput {
    MouseInput { kind, column, row }
}

fn list_area() -> Rect {
    Rect { x: 0, y: 4, width: 80, height: 20 }
}

#[test]
fn click_selects_the_row_under_the_mouse() {
    let mut app = with_units(10);
    // the first row is below the border line of the list
    assert_eq!(
        app.mouse_command(mouse(MouseKind::LeftDown, 5, 5), list_area()),
        Command::SelectUnit(0)
    );
    assert_eq!(
        app.mouse_command(mouse(MouseKind::LeftDown, 5, 4), list_area()),
        Command::SelectUnit(0)
    );
    assert_eq!(
        app.mouse_command(mouse(MouseKind::LeftDown, 5, 8), list_area()),
        Command::SelectUnit(3)
    );
    assert_eq!(
        app.mouse_command(mouse(MouseKind::LeftDown, 5, 15), list_area()),
        Command::Nothing
    );
    assert_eq!(
        app.mouse_command(mouse(MouseKind::LeftDown, 5, 3), list_area()),
        Command::Nothing
    );
    assert_eq!(
        app.mouse_command(mouse(MouseKind::LeftDown, 80, 5), list_area()),
        Command::Nothing
    );
    app.units.list_state = app.units.list_state.with_offset(4);
    assert_eq!(
        app.mouse_command(mouse(MouseKind::LeftDown, 5, 8), list_area()),
        Command::SelectUnit(7)
    );
}

#[test]
fn wheel_moves_the_cursor_inside_the_list_only() {
    let app = with_units(10);
    assert_eq!(
        app.mouse_command(mouse(MouseKind::ScrollDown, 5, 10), list_area()),
        Command::Next
    );
    assert_eq!(
        app.mouse_command(mouse(MouseKind::ScrollUp, 5, 10), list_area()),
        Command::Previous
    );
    assert_eq!(
        app.mouse_command(mouse(MouseKind::ScrollUp, 5, 30), list_area()),
        Command::Nothing
    );
    assert_eq!(
        app.mouse_command(mouse(MouseKind::Other, 5, 10), list_area()),
        Command::Nothing
    );
}

#[test]
fn wheel_scrolls_the_log_panel_anywhere() {
    let mut app = with_units(10);
    app.toggle_logs();
    assert_eq!(WHEEL_LINES, 3);
    assert_eq!(
        app.mouse_command(mouse(MouseKind::ScrollDown, 200, 200), list_area()),
        Command::ScrollLogsDown(3)
    );
    assert_eq!(
        app.mouse_command(mouse(MouseKind::ScrollUp, 0, 0), list_area()),
        Command::ScrollLogsUp(3)
    );
    assert_eq!(
        app.mouse_command(mouse(MouseKind::LeftDown, 5, 5), list_area()),
        Command::Nothing
    );
}

#[test]
fn overlays_take_the_mouse_away() {
    let mut app = with_units(10);
    app.toggle_help();
    assert_eq!(
        app.mouse_command(mouse(MouseKind::ScrollDown, 5, 10), list_area()),
        Command::Nothing
    );
    app.close_help();
    app.open_unit_file(Ok(Vec::new()));
    assert_eq!(
        app.mouse_command(mouse(MouseKind::LeftDown, 5, 5), list_area()),
        Command::Nothing
    );
}

#[test]
fn rect_is_cut_off_at_the_edge_of_the_screen() {
    assert_eq!(Rect::new(1, 2, 3, 4), Rect { x: 1, y: 2, width: 3, height: 4 });
    assert_eq!(
        Rect::new(65530, 65535, 10, 10),
        Rect { x: 65530, y: 65535, width: 5, height: 0 }
    );
}

#[test]
fn clock_starts_when_tailing_starts() {
    let half = LIVE_TAIL_INTERVAL_NS;
    assert_eq!(half, 500_000_000);
    let mut clock = LiveTailClock::new(0);
    assert!(!clock.tick(10 * half, false));
    assert!(!clock.was_active);
    // becoming active restarts both intervals and lights the indicator
    clock.indicator_on = false;
    assert!(!clock.tick(10 * half, true));
    assert!(clock.indicator_on);
    assert_eq!(clock.last_refresh, 10 * half);
    assert_eq!(clock.last_blink, 10 * half);
    assert!(clock.was_active);
}

#[test]
fn clock_tails_once_per_interval_and_catches_up() {
    let half = LIVE_TAIL_INTERVAL_NS;
    let mut clock = LiveTailClock::new(0);
    clock.tick(0, true);
    assert!(!clock.tick(half - 1, true));
    assert!(clock.indicator_on);
    assert!(clock.tick(half, true));
    assert!(!clock.indicator_on);
    assert_eq!(clock.last_refresh, half);
    assert!(!clock.tick(half + 1, true));
    // three and a half intervals later: one tail, three blinks
    assert!(clock.tick(4 * half + half / 2, true));
    assert!(clock.indicator_on);
    assert_eq!(clock.last_refresh, 4 * half);
    assert_eq!(clock.last_blink, 4 * half);
    // two intervals: the indicator is as it was
    assert!(clock.tick(6 * half, true));
    assert!(clock.indicator_on);
}

#[test]
fn clock_waits_no_longer_than_the_next_timer() {
    let half = LIVE_TAIL_INTERVAL_NS;
    let mut clock = LiveTailClock::new(0);
    assert_eq!(clock.poll_timeout(0, false, false), IDLE_POLL_NS);
    assert_eq!(clock.poll_timeout(0, false, true), ACTION_POLL_NS);
    assert_eq!(IDLE_POLL_NS, 60_000_000_000);
    assert_eq!(ACTION_POLL_NS, 100_000_000);
    clock.tick(0, true);
    assert_eq!(clock.poll_timeout(0, true, false), half);
    assert_eq!(clock.poll_timeout(100, true, false), half - 100);
    assert_eq!(clock.poll_timeout(100, true, true), ACTION_POLL_NS);
    assert_eq!(clock.poll_timeout(half - 7, true, true), 7);
    assert_eq!(clock.poll_timeout(half, true, false), 0);
    assert_eq!(clock.poll_timeout(3 * half, true, false), 0);
    clock.last_blink = 200;
    assert_eq!(clock.poll_timeout(300, true, false), half - 300);
}
