use portreaper::decimal::i64_to_string;
use portreaper::decimal::u64_to_string;
use portreaper::notify::AppState;
use portreaper::notify::Notification;
use portreaper::notify::ProcessInfo;
use portreaper::notify::ProjectEntry;
use portreaper::notify::format_notification;
use portreaper::notify::lookup_project;
use portreaper::notify::maybe_notify_changes;
use portreaper::notify::truncate_command;

fn proc_info(pid: i32, port: u16, command: &str) -> ProcessInfo {
    ProcessInfo { pid, port, command: command.to_string() }
}

fn state(
    enabled: bool,
    processes: Vec<ProcessInfo>,
    projects: Vec<ProjectEntry>,
) -> AppState {
    AppState { notifications_enabled: enabled, processes, projects }
}

fn titles_and_bodies(notes: &[Notification]) -> Vec<(String, String)> {
    notes.iter().map(|n| (n.title.clone(), n.body.clone())).collect()
}

#[test]
fn u64_rendering() {
    assert_eq!(u64_to_string(0), "0");
    assert_eq!(u64_to_string(7), "7");
    assert_eq!(u64_to_string(200), "200");
    assert_eq!(u64_to_string(65535), "65535");
    assert_eq!(u64_to_string(u64::MAX), "18446744073709551615");
}

#[test]
fn i64_rendering() {
    assert_eq!(i64_to_string(0), "0");
    assert_eq!(i64_to_string(1234), "1234");
    assert_eq!(i64_to_string(-42), "-42");
    assert_eq!(i64_to_string(i64::MIN), "-9223372036854775808");
}

#[test]
fn short_command_is_kept() {
    assert_eq!(truncate_command("node server.js", 40), "node server.js");
    assert_eq!(truncate_command("", 40), "");
}

#[test]
fn boundary_command_is_kept() {
    let exactly_forty = "0123456789012345678901234567890123456789";
    assert_eq!(truncate_command(exactly_forty, 40), exactly_forty);
}

#[test]
fn long_command_is_cut() {
    let long = "0123456789012345678901234567890123456789X";
    assert_eq!(
        truncate_command(long, 40),
        "0123456789012345678901234567890123456...",
    );
}

#[test]
fn tiny_budget_keeps_only_the_mark() {
    assert_eq!(truncate_command("abcdef", 2), "...");
    assert_eq!(truncate_command("abcdef", 3), "...");
    assert_eq!(truncate_command("abcdef", 4), "a...");
}

#[test]
fn lookup_takes_first_match() {
    let projects = vec![
        ProjectEntry { pid: 10, name: "alpha".to_string() },
        ProjectEntry { pid: 20, name: "beta".to_string() },
        ProjectEntry { pid: 10, name: "gamma".to_string() },
    ];
    assert_eq!(lookup_project(&projects, 10), Some(&"alpha".to_string()));
    assert_eq!(lookup_project(&projects, 20), Some(&"beta".to_string()));
    assert_eq!(lookup_project(&projects, 30), None);
}

#[test]
fn format_started_without_project() {
    let p = proc_info(1234, 3000, "node server.js");
    let s = state(true, vec![], vec![]);
    let n = format_notification(3000, &p, &s, true);
    assert_eq!(n.title, "Port 3000 Started");
    assert_eq!(n.body, "node server.js (1234)");
}

#[test]
fn format_stopped_with_project() {
    let p = proc_info(77, 8080, "python -m http.server");
    let s = state(
        true,
        vec![],
        vec![ProjectEntry { pid: 77, name: "webapp".to_string() }],
    );
    let n = format_notification(8080, &p, &s, false);
    assert_eq!(n.title, "Port 8080 Stopped");
    assert_eq!(n.body, "python -m http.server (77) • webapp");
}

#[test]
fn format_truncates_long_command() {
    let p = proc_info(9, 80, "0123456789012345678901234567890123456789X");
    let s = state(true, vec![], vec![]);
    let n = format_notification(80, &p, &s, true);
    assert_eq!(n.body, "0123456789012345678901234567890123456... (9)");
}

#[test]
fn disabled_notifications_plan_nothing() {
    let prev = vec![proc_info(1, 3000, "a")];
    let s = state(false, vec![proc_info(2, 4000, "b")], vec![]);
    assert!(maybe_notify_changes(&s, &prev).is_empty());
}

#[test]
fn added_and_removed_ports_are_announced() {
    let prev = vec![proc_info(1, 3000, "keeper"), proc_info(2, 4000, "old")];
    let curr = vec![proc_info(1, 3000, "keeper"), proc_info(3, 5000, "new")];
    let s = state(
        true,
        curr,
        vec![ProjectEntry { pid: 3, name: "site".to_string() }],
    );
    let notes = titles_and_bodies(&maybe_notify_changes(&s, &prev));
    assert_eq!(
        notes,
        vec![
            ("Port 5000 Started".to_string(), "new (3) • site".to_string()),
            ("Port 4000 Stopped".to_string(), "old (2)".to_string()),
        ],
    );
}

#[test]
fn unchanged_snapshot_plans_nothing() {
    let prev = vec![proc_info(1, 3000, "a"), proc_info(2, 4000, "b")];
    let s = state(true, vec![proc_info(1, 3000, "a"), proc_info(2, 4000, "b")], vec![]);
    assert!(maybe_notify_changes(&s, &prev).is_empty());
}

#[test]
fn duplicate_port_is_announced_once_for_its_first_occupant() {
    let prev: Vec<ProcessInfo> = vec![];
    let curr = vec![proc_info(5, 6000, "first"), proc_info(6, 6000, "second")];
    let s = state(true, curr, vec![]);
    let notes = titles_and_bodies(&maybe_notify_changes(&s, &prev));
    assert_eq!(
        notes,
        vec![("Port 6000 Started".to_string(), "first (5)".to_string())],
    );
}

#[test]
fn port_kept_by_another_process_is_not_announced() {
    // the port stays occupied, only the occupant changed: no notification
    let prev = vec![proc_info(1, 3000, "old owner")];
    let s = state(true, vec![proc_info(2, 3000, "new owner")], vec![]);
    assert!(maybe_notify_changes(&s, &prev).is_empty());
}
