use systemctl_tui::action::Action;
use systemctl_tui::action::Effect;
use systemctl_tui::action::ServiceActionKind;
use systemctl_tui::commands::journalctl_batch_args;
use systemctl_tui::commands::parse_journal_batch;
use systemctl_tui::commands::parse_unit_file_output;
use systemctl_tui::commands::prepare_log_lines;
use systemctl_tui::commands::unit_file_location_args;
use systemctl_tui::event::actions_for_event;
use systemctl_tui::event::route_action;
use systemctl_tui::event::Event;
use systemctl_tui::event::KeyCode;
use systemctl_tui::event::KeyEvent;
use systemctl_tui::event::Route;
use systemctl_tui::home::Home;
use systemctl_tui::home::Mode;
use systemctl_tui::layout::centered_rect_abs;
use systemctl_tui::layout::Rect;
use systemctl_tui::supervisor::copy_result_action;
use systemctl_tui::supervisor::task_outcome_actions;
use systemctl_tui::units::to_unit_status;
use systemctl_tui::units::Scope;
use systemctl_tui::units::UnitId;
use systemctl_tui::units::UnitScope;
use systemctl_tui::units::UnitWithStatus;

fn unit(name: &str) -> UnitWithStatus {
    to_unit_status(
        name.to_string(),
        String::new(),
        "loaded".to_string(),
        "active".to_string(),
        "running".to_string(),
        UnitScope::Global,
    )
}

fn id(name: &str) -> UnitId {
    UnitId { name: name.to_string(), scope: UnitScope::Global }
}

fn key(code: KeyCode) -> KeyEvent {
    KeyEvent { code, ctrl: false }
}

fn ctrl(c: char) -> KeyEvent {
    KeyEvent { code: KeyCode::Char(c), ctrl: true }
}

fn home_with(names: &[&str]) -> Home {
    let mut home = Home::new(Scope::All, vec![]);
    home.set_units(names.iter().map(|n| unit(n)).collect());
    home
}

#[test]
fn next_and_previous_wrap_around() {
    let mut home = home_with(&["a.service", "b.service", "c.service"]);
    assert_eq!(home.filtered_units.state, Some(0));
    home.next();
    assert_eq!(home.filtered_units.state, Some(1));
    home.next();
    assert_eq!(home.filtered_units.state, Some(2));
    home.next();
    assert_eq!(home.filtered_units.state, Some(0));
    home.previous();
    assert_eq!(home.filtered_units.state, Some(2));
}

#[test]
fn moving_on_an_empty_list_keeps_no_selection() {
    let mut home = home_with(&[]);
    assert_eq!(home.filtered_units.state, None);
    assert_eq!(home.next(), None);
    assert_eq!(home.filtered_units.state, None);
    assert_eq!(home.previous(), None);
    assert_eq!(home.filtered_units.state, None);
}

#[test]
fn cancel_with_no_task_is_a_safe_no_op() {
    let mut home = home_with(&["a.service"]);
    home.dispatch(Action::EnterMode(Mode::Processing));
    let out = home.dispatch(Action::CancelTask);
    assert_eq!(home.mode, Mode::ServiceList);
    assert!(home.cancel_token.is_none());
    assert!(out.effect.is_none());
    assert!(matches!(out.follow_up, Some(Action::Render)));
}

#[test]
fn enter_opens_the_action_menu_with_bound_items() {
    let mut home = home_with(&["a.service"]);
    home.dispatch(Action::EnterMode(Mode::ServiceList));
    let out = home.handle_key_events(key(KeyCode::Enter));
    assert_eq!(out.actions.len(), 1);
    assert!(matches!(out.actions[0], Action::EnterMode(Mode::ActionMenu)));

    home.dispatch(Action::EnterMode(Mode::ActionMenu));
    assert_eq!(home.mode, Mode::ActionMenu);
    assert_eq!(home.menu_items.items.len(), 4);
    assert_eq!(home.menu_items.state, Some(0));
    assert_eq!(home.menu_items.items[0].name, "Start");
    assert!(matches!(&home.menu_items.items[0].action, Action::StartService(u) if *u == id("a.service")));
    assert!(matches!(&home.menu_items.items[1].action, Action::StopService(u) if *u == id("a.service")));
    assert!(matches!(&home.menu_items.items[2].action, Action::RestartService(u) if *u == id("a.service")));
    assert!(matches!(&home.menu_items.items[3].action, Action::CopyUnitFilePath));
}

#[test]
fn action_menu_needs_a_selection() {
    let mut home = home_with(&[]);
    let out = home.dispatch(Action::EnterMode(Mode::ActionMenu));
    assert_eq!(home.mode, Mode::Search);
    assert!(out.follow_up.is_none());
}

#[test]
fn start_then_cancel_discards_the_result() {
    let mut home = home_with(&["a.service"]);
    let out = home.dispatch(Action::StartService(id("a.service")));
    let token = match out.effect {
        Some(Effect::StartTask { unit, kind, token }) => {
            assert_eq!(unit, id("a.service"));
            assert_eq!(kind, ServiceActionKind::Start);
            token
        },
        _ => panic!("no task was started"),
    };
    assert!(matches!(out.follow_up, Some(Action::EnterMode(Mode::Processing))));
    home.dispatch(Action::EnterMode(Mode::Processing));

    let out = home.dispatch(Action::CancelTask);
    assert_eq!(home.mode, Mode::ServiceList);
    assert!(matches!(out.effect, Some(Effect::CancelToken(t)) if t == token));

    // whatever the abandoned operation reports, only a refresh comes back
    let late_ok = task_outcome_actions(true, Ok(()));
    assert_eq!(late_ok.len(), 1);
    assert!(matches!(late_ok[0], Action::RefreshServices));
    let late_err = task_outcome_actions(true, Err("boom".to_string()));
    assert_eq!(late_err.len(), 1);
    assert!(matches!(late_err[0], Action::RefreshServices));
}

#[test]
fn a_new_action_replaces_the_task_slot() {
    let mut home = home_with(&["a.service", "b.service"]);
    let first = home.dispatch(Action::StartService(id("a.service")));
    let t1 = match first.effect {
        Some(Effect::StartTask { token, .. }) => token,
        _ => panic!("no task"),
    };
    let second = home.dispatch(Action::StopService(id("b.service")));
    let t2 = match second.effect {
        Some(Effect::StartTask { token, kind, .. }) => {
            assert_eq!(kind, ServiceActionKind::Stop);
            token
        },
        _ => panic!("no task"),
    };
    assert_ne!(t1, t2);
    assert_eq!(home.cancel_token, Some(t2));

    // cancelling touches only the most recent handle
    let out = home.dispatch(Action::CancelTask);
    assert!(matches!(out.effect, Some(Effect::CancelToken(t)) if t == t2));
    assert!(home.cancel_token.is_none());
}

#[test]
fn log_lines_for_unselected_units_are_dropped() {
    let mut home = home_with(&["a.service", "b.service"]);
    assert_eq!(home.selected_service(), Some(id("a.service")));
    home.dispatch(Action::SetLogs { unit: id("a.service"), logs: vec!["one".to_string()] });
    assert_eq!(home.logs, vec!["one".to_string()]);

    home.dispatch(Action::AppendLogLine { unit: id("b.service"), line: "stale".to_string() });
    assert_eq!(home.logs, vec!["one".to_string()]);
    home.dispatch(Action::SetLogs { unit: id("b.service"), logs: vec!["stale".to_string()] });
    assert_eq!(home.logs, vec!["one".to_string()]);

    home.dispatch(Action::AppendLogLine { unit: id("a.service"), line: "two".to_string() });
    assert_eq!(home.logs, vec!["one".to_string(), "two".to_string()]);
}

#[test]
fn service_list_key_table() {
    let mut home = home_with(&["a.service", "b.service"]);
    home.dispatch(Action::EnterMode(Mode::ServiceList));
    let out = home.handle_key_events(key(KeyCode::Char('/')));
    assert!(matches!(out.actions[0], Action::EnterMode(Mode::Search)));
    let out = home.handle_key_events(key(KeyCode::Char('q')));
    assert!(matches!(out.actions[0], Action::Quit));
    // Up at the top of the list re-focuses the search box
    assert_eq!(home.filtered_units.state, Some(0));
    let out = home.handle_key_events(key(KeyCode::Up));
    assert!(matches!(out.actions[0], Action::EnterMode(Mode::Search)));
    // Down moves the selection and asks for that unit's logs
    let out = home.handle_key_events(key(KeyCode::Down));
    assert!(matches!(out.actions[0], Action::Render));
    assert_eq!(out.log_request, Some(id("b.service")));
    // an unbound key does nothing
    let out = home.handle_key_events(key(KeyCode::Char('x')));
    assert!(out.actions.is_empty());
}

#[test]
fn modal_key_table() {
    let mut home = home_with(&["a.service"]);
    home.dispatch(Action::EnterMode(Mode::Help));
    let out = home.handle_key_events(key(KeyCode::Esc));
    assert!(matches!(out.actions[0], Action::ToggleHelp));
    home.dispatch(Action::EnterMode(Mode::Error));
    let out = home.handle_key_events(key(KeyCode::Enter));
    assert!(matches!(out.actions[0], Action::EnterMode(Mode::ServiceList)));
    home.dispatch(Action::EnterMode(Mode::Processing));
    let out = home.handle_key_events(key(KeyCode::Esc));
    assert!(matches!(out.actions[0], Action::CancelTask));
    let out = home.handle_key_events(key(KeyCode::Char('z')));
    assert!(out.actions.is_empty());
}

#[test]
fn search_mode_routes_other_keys_to_the_editor() {
    let mut home = home_with(&["abc.service", "xyz.service"]);
    assert_eq!(home.mode, Mode::Search);
    let out = home.handle_key_events(key(KeyCode::Char('x')));
    assert!(out.edit_search);
    assert!(matches!(out.actions[0], Action::Render));
    // the host editor applied the keystroke and hands the new text back
    home.set_search("x".to_string());
    assert_eq!(home.filtered_units.items.len(), 1);
    assert_eq!(home.filtered_units.items[0].name, "xyz.service");
    let out = home.handle_key_events(key(KeyCode::Esc));
    assert!(matches!(out.actions[0], Action::EnterMode(Mode::ServiceList)));
}

#[test]
fn control_bindings_work_in_every_mode() {
    let mut home = home_with(&["a.service"]);
    let out = home.handle_key_events(ctrl('c'));
    assert!(matches!(out.actions[0], Action::Quit));
    let out = home.handle_key_events(ctrl('l'));
    assert!(matches!(out.actions[0], Action::ToggleShowLogger));
    let out = home.handle_key_events(ctrl('d'));
    assert!(matches!(out.actions[0], Action::ScrollDown(1)));
    assert!(matches!(out.actions[1], Action::Render));
    let out = home.handle_key_events(key(KeyCode::Char('?')));
    assert!(matches!(out.actions[0], Action::ToggleHelp));
    let out = home.handle_key_events(key(KeyCode::PageUp));
    assert!(matches!(out.actions[0], Action::ScrollUp(1)));
}

#[test]
fn help_remembers_the_interrupted_mode() {
    let mut home = home_with(&["a.service"]);
    home.dispatch(Action::EnterMode(Mode::ServiceList));
    home.dispatch(Action::ToggleHelp);
    assert_eq!(home.mode, Mode::Help);
    home.dispatch(Action::ToggleHelp);
    assert_eq!(home.mode, Mode::ServiceList);
}

#[test]
fn error_mode_shows_the_message_and_returns_to_the_list() {
    let mut home = home_with(&["a.service"]);
    let out = home.dispatch(Action::EnterError { err: "broken".to_string() });
    assert!(matches!(out.follow_up, Some(Action::EnterMode(Mode::Error))));
    home.dispatch(Action::EnterMode(Mode::Error));
    assert_eq!(home.error_message, "broken");
    assert_eq!(home.mode, Mode::Error);
}

#[test]
fn scrolling_saturates_at_both_ends() {
    let mut home = home_with(&["a.service"]);
    home.dispatch(Action::ScrollUp(5));
    assert_eq!(home.logs_scroll_offset, 0);
    home.dispatch(Action::ScrollDown(65535));
    home.dispatch(Action::ScrollDown(10));
    assert_eq!(home.logs_scroll_offset, 65535);
    home.dispatch(Action::ScrollToTop);
    assert_eq!(home.logs_scroll_offset, 0);
    home.dispatch(Action::SetLogs { unit: id("a.service"), logs: vec!["l".to_string(); 3] });
    home.dispatch(Action::ScrollToBottom);
    assert_eq!(home.logs_scroll_offset, 3);
}

#[test]
fn spinner_tick_wraps_around() {
    let mut home = home_with(&["a.service"]);
    home.spinner_tick = 255;
    let out = home.dispatch(Action::SpinnerTick);
    assert_eq!(home.spinner_tick, 0);
    assert!(matches!(out.follow_up, Some(Action::Render)));
}

#[test]
fn copy_unit_file_path_cases() {
    let mut home = home_with(&["a.service"]);
    // no path resolved yet: the error modal is requested
    let out = home.dispatch(Action::CopyUnitFilePath);
    assert!(matches!(out.follow_up, Some(Action::EnterError { err }) if err == "No unit file path available"));
    // with a resolved path the text goes out to the clipboard
    home.dispatch(Action::SetUnitFilePath { unit: id("a.service"), path: Ok("/etc/a.service".to_string()) });
    let out = home.dispatch(Action::CopyUnitFilePath);
    assert!(matches!(out.effect, Some(Effect::CopyToClipboard(p)) if p == "/etc/a.service"));
    // the clipboard's answer becomes the follow-up action
    assert!(matches!(copy_result_action(Ok(())), Action::EnterMode(Mode::ServiceList)));
    assert!(matches!(copy_result_action(Err("denied".to_string())), Action::EnterError { err } if err == "Error copying to clipboard: denied"));
}

#[test]
fn task_outcomes_translate_to_actions() {
    let ok = task_outcome_actions(false, Ok(()));
    assert_eq!(ok.len(), 2);
    assert!(matches!(ok[0], Action::EnterMode(Mode::ServiceList)));
    assert!(matches!(ok[1], Action::RefreshServices));

    let denied = task_outcome_actions(false, Err("org.freedesktop.DBus.Error.AccessDenied: no".to_string()));
    assert!(matches!(&denied[0], Action::EnterError { err }
        if err == "org.freedesktop.DBus.Error.AccessDenied: no\n\nTry running this tool with sudo."));

    let plain = task_outcome_actions(false, Err("unit not found".to_string()));
    assert!(matches!(&plain[0], Action::EnterError { err } if err == "unit not found"));
}

#[test]
fn unit_file_output_parsing() {
    let a = id("a.service");
    assert_eq!(
        parse_unit_file_output(&a, true, " /etc/a.service \n".to_string(), String::new()),
        Ok("/etc/a.service".to_string())
    );
    assert_eq!(
        parse_unit_file_output(&a, true, " \n".to_string(), String::new()),
        Err("No unit file found for a.service".to_string())
    );
    assert_eq!(
        parse_unit_file_output(&a, false, String::new(), "permission denied".to_string()),
        Err("permission denied".to_string())
    );
}

#[test]
fn command_argument_lists() {
    let global = id("a.service");
    let user = UnitId { name: "a.service".to_string(), scope: UnitScope::User };
    assert_eq!(
        unit_file_location_args(&global),
        vec!["--quiet", "show", "-P", "FragmentPath", "a.service"]
    );
    assert_eq!(
        unit_file_location_args(&user),
        vec!["--user", "--quiet", "show", "-P", "FragmentPath", "a.service"]
    );
    assert_eq!(
        journalctl_batch_args(&user),
        vec!["--quiet", "--output=short-iso", "--lines=500", "-u", "a.service", "--user"]
    );
}

#[test]
fn empty_log_batches_get_a_hint() {
    let out = prepare_log_lines(vec![]);
    assert_eq!(out.len(), 1);
    assert!(out[0].contains("No logs found"));
    let kept = prepare_log_lines(vec!["line".to_string()]);
    assert_eq!(kept, vec!["line".to_string()]);
}

#[test]
fn journal_batches_are_trimmed_and_split() {
    let out = parse_journal_batch(" first line\nsecond line\n".to_string());
    assert_eq!(out, vec!["first line".to_string(), "second line".to_string()]);
    // inner empty lines are kept as lines
    let out = parse_journal_batch("a\n\nb".to_string());
    assert_eq!(out, vec!["a".to_string(), "".to_string(), "b".to_string()]);
    // a blank answer becomes the hint
    let out = parse_journal_batch(" \n ".to_string());
    assert_eq!(out.len(), 2);
    assert_eq!(out[0], "");
    assert!(out[1].contains("No logs found"));
}

#[test]
fn popups_are_centered_and_clamped() {
    let screen = Rect { x: 0, y: 0, width: 100, height: 40 };
    let popup = centered_rect_abs(50, 18, screen);
    assert_eq!(popup, Rect { x: 25, y: 11, width: 50, height: 18 });
    let tiny = Rect { x: 0, y: 0, width: 30, height: 10 };
    let clamped = centered_rect_abs(50, 18, tiny);
    assert_eq!(clamped, Rect { x: 0, y: 0, width: 30, height: 10 });
}

#[test]
fn events_and_routing() {
    let acts = actions_for_event(&Event::RefreshTick);
    assert!(matches!(acts[0], Action::RefreshServices));
    let acts = actions_for_event(&Event::Resize(80, 24));
    assert!(matches!(acts[0], Action::Resize(80, 24)));
    assert!(actions_for_event(&Event::Closed).is_empty());

    assert_eq!(route_action(&Action::Render), Route::DrawNow);
    assert_eq!(route_action(&Action::DebouncedRender), Route::Debounce);
    assert_eq!(route_action(&Action::Quit), Route::Quit);
    assert_eq!(route_action(&Action::Noop), Route::Ignore);
    assert_eq!(route_action(&Action::CancelTask), Route::Forward);
}
