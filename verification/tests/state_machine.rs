use oxiproc::app::{App, AppEvent, KeyInput, STATUS_TTL_MS};
use oxiproc::process::{GlobalStats, ProcessCategory, ProcessData};

fn record(pid: u32, name: &str, cpu_usage: u64, category: ProcessCategory) -> ProcessData {
    ProcessData {
        pid,
        name: name.to_string(),
        memory: 4096,
        cpu_usage,
        category,
    }
}

fn stats() -> GlobalStats {
    GlobalStats { total_memory: 100, used_memory: 50, cpu_usage: 1234, uptime: 5 }
}

fn app_with(records: Vec<ProcessData>) -> App {
    let mut app = App::new();
    let req = app.handle_event(AppEvent::ProcessesUpdated(records, stats()), 0);
    assert!(req.is_none());
    app
}

#[test]
fn initial_state() {
    let app = App::new();
    assert!(app.processes.is_empty());
    assert_eq!(app.selected, 0);
    assert!(!app.should_quit);
    assert!(app.status_message.is_none());
    assert_eq!(app.global_stats.total_memory, 0);
}

#[test]
fn navigation_steps_and_wraps() {
    let mut app = app_with(vec![
        record(1, "a", 3, ProcessCategory::User),
        record(2, "b", 2, ProcessCategory::User),
        record(3, "c", 1, ProcessCategory::User),
    ]);
    assert_eq!(app.selected, 0);
    app.next();
    assert_eq!(app.selected, 1);
    app.next();
    assert_eq!(app.selected, 2);
    app.next(); // down at the last index wraps to the first
    assert_eq!(app.selected, 0);
    app.previous(); // up at the first index wraps to the last
    assert_eq!(app.selected, 2);
    app.previous();
    assert_eq!(app.selected, 1);
}

#[test]
fn navigation_on_empty_list_is_a_noop() {
    let mut app = App::new();
    let req = app.handle_event(AppEvent::Input(KeyInput::Down), 0);
    assert!(req.is_none());
    assert_eq!(app.selected, 0);
    let req = app.handle_event(AppEvent::Input(KeyInput::Up), 0);
    assert!(req.is_none());
    assert_eq!(app.selected, 0);
    assert!(app.status_message.is_none());
    assert!(!app.should_quit);
}

#[test]
fn kill_on_system_selection_is_blocked() {
    let mut app = app_with(vec![record(4, "system", 9, ProcessCategory::System)]);
    let req = app.handle_event(AppEvent::Input(KeyInput::Kill), 42);
    assert!(req.is_none());
    let msg = app.status_message.as_ref().expect("a status message is owed");
    assert!(msg.text.contains("Blocked"));
    assert_eq!(msg.created_at, 42);
    // The list, cursor and quit flag are untouched.
    assert_eq!(app.processes.len(), 1);
    assert_eq!(app.selected, 0);
    assert!(!app.should_quit);
}

#[test]
fn svchost_scenario_classifies_service_and_defers_kill() {
    // One record: pid 10, svchost.exe, running from the system binaries
    // directory. It classifies Service; a kill key press asks for the
    // unimplemented confirmation and performs no OS action.
    let cat = oxiproc::process::Categorizer::new();
    let samples = vec![oxiproc::process::ProcessSample {
        pid: 10,
        name: "svchost.exe".to_string(),
        memory: 4096,
        cpu_usage: 100,
        exe_path: Some("C:\\Windows\\System32\\svchost.exe".to_string()),
    }];
    let (list, global) = oxiproc::process::collect_processes(samples, &cat, 0, 0, &vec![], 0);
    assert_eq!(list[0].category, ProcessCategory::Service);

    let mut app = App::new();
    let req = app.handle_event(AppEvent::ProcessesUpdated(list, global), 0);
    assert!(req.is_none());
    let req = app.handle_event(AppEvent::Input(KeyInput::Kill), 11);
    assert!(req.is_none());
    let msg = app.status_message.as_ref().expect("a status message is owed");
    assert!(msg.text.contains("needs confirmation"));
}

#[test]
fn kill_on_service_selection_needs_confirmation() {
    let mut app = app_with(vec![record(
        10,
        "helper.exe",
        9,
        ProcessCategory::Service,
    )]);
    let req = app.handle_event(AppEvent::Input(KeyInput::Kill), 7);
    assert!(req.is_none());
    let msg = app.status_message.as_ref().expect("a status message is owed");
    assert!(msg.text.contains("needs confirmation"));
}

#[test]
fn kill_on_user_selection_requests_exactly_one_termination() {
    let mut app = app_with(vec![
        record(50, "notepad.exe", 9, ProcessCategory::User),
        record(51, "game.exe", 1, ProcessCategory::User),
    ]);
    app.next();
    let req = app
        .handle_event(AppEvent::Input(KeyInput::Kill), 100)
        .expect("a User selection yields a request");
    assert_eq!(req.pid, 51);
    assert_eq!(req.name, "game.exe");
    // No message until the outcome is known.
    assert!(app.status_message.is_none());

    app.report_kill_outcome(&req, true, 101);
    let msg = app.status_message.as_ref().unwrap();
    assert_eq!(msg.text, "Killed process game.exe (51)");
    assert_eq!(msg.created_at, 101);
}

#[test]
fn failed_kill_outcome_is_surfaced() {
    let mut app = app_with(vec![record(60, "gone.exe", 9, ProcessCategory::User)]);
    let req = app
        .handle_event(AppEvent::Input(KeyInput::Kill), 100)
        .expect("a User selection yields a request");
    app.report_kill_outcome(&req, false, 102);
    let msg = app.status_message.as_ref().unwrap();
    assert_eq!(msg.text, "Failed to kill process gone.exe (60)");
}

#[test]
fn kill_with_no_selection_is_a_silent_noop() {
    let mut app = App::new();
    let req = app.handle_event(AppEvent::Input(KeyInput::Kill), 5);
    assert!(req.is_none());
    assert!(app.status_message.is_none());
}

#[test]
fn status_message_expires_after_ttl() {
    assert_eq!(STATUS_TTL_MS, 3000);
    let mut app = app_with(vec![record(4, "system", 9, ProcessCategory::System)]);
    app.handle_event(AppEvent::Input(KeyInput::Kill), 1000);
    assert!(app.status_message.is_some());
    // 2.9 s after creation: kept.
    app.handle_event(AppEvent::Tick, 3900);
    assert!(app.status_message.is_some());
    // exactly 3 s after creation: cleared.
    app.handle_event(AppEvent::Tick, 4000);
    assert!(app.status_message.is_none());
}

#[test]
fn tick_without_message_changes_nothing() {
    let mut app = App::new();
    let req = app.handle_event(AppEvent::Tick, u64::MAX);
    assert!(req.is_none());
    assert!(app.status_message.is_none());
    assert!(!app.should_quit);
}

#[test]
fn quit_key_sets_the_quit_flag_and_requests_nothing() {
    let mut app = app_with(vec![record(70, "notepad.exe", 9, ProcessCategory::User)]);
    let req = app.handle_event(AppEvent::Input(KeyInput::Quit), 3);
    assert!(req.is_none());
    assert!(app.should_quit);
    // Everything else is untouched.
    assert_eq!(app.processes.len(), 1);
    assert_eq!(app.selected, 0);
    assert!(app.status_message.is_none());
}

#[test]
fn unrecognised_keys_are_ignored() {
    let mut app = app_with(vec![record(80, "a.exe", 9, ProcessCategory::User)]);
    let req = app.handle_event(AppEvent::Input(KeyInput::Other), 9);
    assert!(req.is_none());
    assert_eq!(app.selected, 0);
    assert!(!app.should_quit);
    assert!(app.status_message.is_none());
}

#[test]
fn snapshot_replaces_list_and_keeps_cursor() {
    let mut app = app_with(vec![
        record(1, "a", 3, ProcessCategory::User),
        record(2, "b", 2, ProcessCategory::User),
        record(3, "c", 1, ProcessCategory::User),
    ]);
    app.next();
    app.next();
    assert_eq!(app.selected, 2);
    let req = app.handle_event(
        AppEvent::ProcessesUpdated(vec![record(9, "z", 5, ProcessCategory::User)], stats()),
        0,
    );
    assert!(req.is_none());
    // The cursor is not reset, even though it is now out of range...
    assert_eq!(app.selected, 2);
    assert_eq!(app.processes.len(), 1);
    // ...and readers clamp it.
    assert_eq!(app.clamped_selection(), 0);
}

#[test]
fn clamped_selection_on_empty_list_is_zero() {
    let app = App::new();
    assert_eq!(app.clamped_selection(), 0);
}
