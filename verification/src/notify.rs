//! The notification planner: diff two process snapshots by occupied port and
//! render one notification per port that appeared or disappeared.
//!
//! `maybe_notify_changes` only plans: it returns the notifications to show,
//! exactly the ones `spec_change_notes` describes, and sends nothing itself.
//! Delivery is the caller's affair.

use vstd::prelude::*;

use crate::decimal::spec_idecimal;
use crate::decimal::spec_udecimal;
use crate::decimal::i64_to_string;
use crate::decimal::u64_to_string;

verus! {

/// A process occupying a port, as the upstream enumerator reports it.
pub struct ProcessInfo {
    pub pid: i32,
    pub port: u16,
    pub command: String,
}

/// One entry of the project cache: the name of the project a process
/// identifier was started from.
pub struct ProjectEntry {
    pub pid: i32,
    pub name: String,
}

/// The application state the planner reads: whether notifications are
/// enabled, the current process snapshot, and the project cache.
pub struct AppState {
    pub notifications_enabled: bool,
    pub processes: Vec<ProcessInfo>,
    pub projects: Vec<ProjectEntry>,
}

/// One notification to show: a title and a body.
pub struct Notification {
    pub title: String,
    pub body: String,
}

impl View for Notification {
    type V = (Seq<char>, Seq<char>);

    open spec fn view(&self) -> (Seq<char>, Seq<char>) {
        (self.title@, self.body@)
    }
}

/// Whether some process of the snapshot occupies the port.
pub open spec fn has_port(ps: Seq<ProcessInfo>, port: u16) -> bool {
    exists|i: int| 0 <= i < ps.len() && (#[trigger] ps[i]).port == port
}

/// The name cached for a process identifier: that of the first entry with
/// this identifier, if any.
pub open spec fn project_name_of(projects: Seq<ProjectEntry>, pid: i32) -> Option<Seq<char>>
    decreases projects.len(),
{
    if projects.len() == 0 {
        None
    } else if projects[0].pid == pid {
        Some(projects[0].name@)
    } else {
        project_name_of(projects.subrange(1, projects.len() as int), pid)
    }
}

/// A command truncated to at most `max_len` characters; a longer one is cut
/// and ends in "..." (kept even when `max_len` is shorter than that mark).
pub open spec fn spec_truncated(cmd: Seq<char>, max_len: int) -> Seq<char> {
    if cmd.len() <= max_len {
        cmd
    } else {
        cmd.subrange(
            0,
            if max_len < 3 {
                0
            } else {
                max_len - 3
            },
        ) + "..."@
    }
}

/// The title of a notification: the port, and whether it started or stopped.
pub open spec fn spec_title(port: u16, is_start: bool) -> Seq<char> {
    "Port "@ + spec_udecimal(port as nat) + (if is_start {
        " Started"@
    } else {
        " Stopped"@
    })
}

/// The body of a notification: the truncated command, the process identifier
/// in parentheses, and the cached project name if there is one.
pub open spec fn spec_body(command: Seq<char>, pid: i32, project: Option<Seq<char>>) -> Seq<char> {
    let prefix = spec_truncated(command, 40) + " ("@ + spec_idecimal(pid as int);
    match project {
        Some(name) => prefix + ") • "@ + name,
        None => prefix + ")"@,
    }
}

/// The title and body of the notification for one process.
pub open spec fn spec_note(p: ProcessInfo, projects: Seq<ProjectEntry>, is_start: bool) -> (
    Seq<char>,
    Seq<char>,
) {
    (spec_title(p.port, is_start), spec_body(p.command@, p.pid, project_name_of(projects, p.pid)))
}

/// The start notifications for the first `i` processes of the current
/// snapshot: one per port that no process of the previous snapshot occupied,
/// announced for its first occupant, in snapshot order.
pub open spec fn spec_start_notes(
    curr: Seq<ProcessInfo>,
    prev: Seq<ProcessInfo>,
    projects: Seq<ProjectEntry>,
    i: int,
) -> Seq<(Seq<char>, Seq<char>)>
    decreases i,
{
    if i <= 0 {
        Seq::empty()
    } else {
        let rest = spec_start_notes(curr, prev, projects, i - 1);
        let p = curr[i - 1];
        if !has_port(prev, p.port) && !has_port(curr.take(i - 1), p.port) {
            rest.push(spec_note(p, projects, true))
        } else {
            rest
        }
    }
}

/// The stop notifications for the first `i` processes of the previous
/// snapshot: one per port that no process of the current snapshot occupies,
/// announced for its first former occupant, in snapshot order.
pub open spec fn spec_stop_notes(
    curr: Seq<ProcessInfo>,
    prev: Seq<ProcessInfo>,
    projects: Seq<ProjectEntry>,
    i: int,
) -> Seq<(Seq<char>, Seq<char>)>
    decreases i,
{
    if i <= 0 {
        Seq::empty()
    } else {
        let rest = spec_stop_notes(curr, prev, projects, i - 1);
        let p = prev[i - 1];
        if !has_port(curr, p.port) && !has_port(prev.take(i - 1), p.port) {
            rest.push(spec_note(p, projects, false))
        } else {
            rest
        }
    }
}

/// All notifications for one snapshot change: the start notifications, then
/// the stop notifications.
pub open spec fn spec_change_notes(
    curr: Seq<ProcessInfo>,
    prev: Seq<ProcessInfo>,
    projects: Seq<ProjectEntry>,
) -> Seq<(Seq<char>, Seq<char>)> {
    spec_start_notes(curr, prev, projects, curr.len() as int) + spec_stop_notes(
        curr,
        prev,
        projects,
        prev.len() as int,
    )
}

/// Whether some of the first `upto` processes of the snapshot occupies the
/// port.
fn port_in_prefix(ps: &Vec<ProcessInfo>, upto: usize, port: u16) -> (found: bool)
    requires
        upto <= ps@.len(),
    ensures
        found == has_port(ps@.take(upto as int), port),
{
    let mut i: usize = 0;
    while i < upto
        invariant
            i <= upto <= ps@.len(),
            forall|k: int| 0 <= k < i ==> (#[trigger] ps@[k]).port != port,
        decreases upto - i,
    {
        if ps[i].port == port {
            proof {
                assert((ps@.take(upto as int)[i as int]).port == port);
            }
            return true;
        }
        i = i + 1;
    }
    proof {
        assert forall|k: int| 0 <= k < upto implies (#[trigger] ps@.take(upto as int)[k]).port
            != port by {
            assert(ps@.take(upto as int)[k] == ps@[k]);
        }
    }
    false
}

/// A lookup that finds no entry with the identifier among the first `i` finds
/// the same name as a lookup over the remaining entries.
proof fn lemma_project_name_skip(projects: Seq<ProjectEntry>, pid: i32, i: int)
    requires
        0 <= i <= projects.len(),
        forall|k: int| 0 <= k < i ==> (#[trigger] projects[k]).pid != pid,
    ensures
        project_name_of(projects, pid) == project_name_of(
            projects.subrange(i, projects.len() as int),
            pid,
        ),
    decreases i,
{
    if i > 0 {
        let tail = projects.subrange(1, projects.len() as int);
        assert forall|k: int| 0 <= k < i - 1 implies (#[trigger] tail[k]).pid != pid by {
            assert(tail[k] == projects[k + 1]);
        }
        lemma_project_name_skip(tail, pid, i - 1);
        assert(tail.subrange(i - 1, tail.len() as int) =~= projects.subrange(
            i,
            projects.len() as int,
        ));
    } else {
        assert(projects.subrange(0, projects.len() as int) =~= projects);
    }
}

/// Find the cached project name for a process identifier: the first entry
/// with this identifier wins.
pub fn lookup_project<'a>(projects: &'a Vec<ProjectEntry>, pid: i32) -> (r: Option<&'a String>)
    ensures
        match r {
            Some(name) => project_name_of(projects@, pid) == Some(name@),
            None => project_name_of(projects@, pid) is None,
        },
{
    let n = projects.len();
    let mut i: usize = 0;
    while i < n
        invariant
            i <= n,
            n == projects@.len(),
            forall|k: int| 0 <= k < i ==> (#[trigger] projects@[k]).pid != pid,
        decreases n - i,
    {
        let entry = &projects[i];
        if entry.pid == pid {
            proof {
                lemma_project_name_skip(projects@, pid, i as int);
                assert(projects@.subrange(i as int, n as int)[0] == projects@[i as int]);
            }
            return Some(&entry.name);
        }
        i = i + 1;
    }
    proof {
        lemma_project_name_skip(projects@, pid, n as int);
        assert(projects@.subrange(n as int, n as int).len() == 0);
    }
    None
}

/// Truncate a command line for display to at most `max_len` characters,
/// marking a cut with a trailing "...".
pub fn truncate_command(command: &str, max_len: usize) -> (r: String)
    ensures
        r@ == spec_truncated(command@, max_len as int),
{
    let n = command.unicode_len();
    if n <= max_len {
        command.to_owned()
    } else {
        let keep: usize = if max_len < 3 {
            0
        } else {
            max_len - 3
        };
        let head = command.substring_char(0, keep);
        let mut out = head.to_owned();
        out.append("...");
        out
    }
}

/// Render the notification for one process: the title names the port and
/// whether it started or stopped; the body shows the truncated command, the
/// process identifier, and the cached project name if there is one.
pub fn format_notification(port: u16, process: &ProcessInfo, state: &AppState, is_start: bool) -> (
    r: Notification)
    ensures
        r.title@ == spec_title(port, is_start),
        r.body@ == spec_body(
            process.command@,
            process.pid,
            project_name_of(state.projects@, process.pid),
        ),
{
    let mut title = "Port ".to_owned();
    let port_digits = u64_to_string(port as u64);
    title.append(port_digits.as_str());
    if is_start {
        title.append(" Started");
    } else {
        title.append(" Stopped");
    }
    proof {
        assert(title@ =~= spec_title(port, is_start));
    }

    let mut body = truncate_command(process.command.as_str(), 40);
    body.append(" (");
    let pid_digits = i64_to_string(process.pid as i64);
    body.append(pid_digits.as_str());
    match lookup_project(&state.projects, process.pid) {
        Some(name) => {
            body.append(") • ");
            body.append(name.as_str());
        },
        None => {
            body.append(")");
        },
    }
    proof {
        assert(body@ =~= spec_body(
            process.command@,
            process.pid,
            project_name_of(state.projects@, process.pid),
        ));
    }
    Notification { title, body }
}

/// Plan the notifications for one snapshot change. With notifications
/// disabled nothing is announced; otherwise one start notification per port
/// that appeared and one stop notification per port that disappeared, each
/// rendered for the port's first occupant in the respective snapshot.
pub fn maybe_notify_changes(state: &AppState, prev: &Vec<ProcessInfo>) -> (notes: Vec<
    Notification,
>)
    ensures
        notes@.map_values(|n: Notification| n@) == (if state.notifications_enabled {
            spec_change_notes(state.processes@, prev@, state.projects@)
        } else {
            Seq::<(Seq<char>, Seq<char>)>::empty()
        }),
{
    let mut notes: Vec<Notification> = Vec::new();
    proof {
        assert(notes@.map_values(|n: Notification| n@) =~= Seq::<(Seq<char>, Seq<char>)>::empty());
    }
    if !state.notifications_enabled {
        return notes;
    }
    let curr_len = state.processes.len();
    let prev_len = prev.len();
    let mut i: usize = 0;
    while i < curr_len
        invariant
            i <= curr_len,
            curr_len == state.processes@.len(),
            prev_len == prev@.len(),
            notes@.map_values(|n: Notification| n@) == spec_start_notes(
                state.processes@,
                prev@,
                state.projects@,
                i as int,
            ),
        decreases curr_len - i,
    {
        let port = state.processes[i].port;
        let in_prev = port_in_prefix(prev, prev_len, port);
        let seen_before = port_in_prefix(&state.processes, i, port);
        proof {
            assert(prev@.take(prev_len as int) =~= prev@);
        }
        if !in_prev && !seen_before {
            let ghost before = notes@;
            let note = format_notification(port, &state.processes[i], state, true);
            notes.push(note);
            proof {
                assert(notes@.map_values(|n: Notification| n@) =~= before.map_values(
                    |n: Notification| n@,
                ).push(note@));
            }
        }
        i = i + 1;
    }
    let ghost started = notes@.map_values(|n: Notification| n@);
    let mut j: usize = 0;
    while j < prev_len
        invariant
            j <= prev_len,
            curr_len == state.processes@.len(),
            prev_len == prev@.len(),
            started == spec_start_notes(
                state.processes@,
                prev@,
                state.projects@,
                curr_len as int,
            ),
            notes@.map_values(|n: Notification| n@) == started + spec_stop_notes(
                state.processes@,
                prev@,
                state.projects@,
                j as int,
            ),
        decreases prev_len - j,
    {
        let port = prev[j].port;
        let in_curr = port_in_prefix(&state.processes, curr_len, port);
        let seen_before = port_in_prefix(prev, j, port);
        proof {
            assert(state.processes@.take(curr_len as int) =~= state.processes@);
        }
        if !in_curr && !seen_before {
            let ghost before = notes@;
            let note = format_notification(port, &prev[j], state, false);
            notes.push(note);
            proof {
                assert(notes@.map_values(|n: Notification| n@) =~= before.map_values(
                    |n: Notification| n@,
                ).push(note@));
                assert(started + spec_stop_notes(
                    state.processes@,
                    prev@,
                    state.projects@,
                    j as int,
                ).push(note@) =~= (started + spec_stop_notes(
                    state.processes@,
                    prev@,
                    state.projects@,
                    j as int,
                )).push(note@));
            }
        }
        j = j + 1;
    }
    proof {
        assert(notes@.map_values(|n: Notification| n@) == spec_change_notes(
            state.processes@,
            prev@,
            state.projects@,
        ));
    }
    notes
}

} // verus!
