//! The application state machine: one state owned by the control loop,
//! advanced by exactly one event at a time. Keyboard events move the
//! selection, request a termination or quit; tick events expire the status
//! message; snapshot events replace the process list and statistics
//! wholesale.
//!
//! Termination itself is an outside action: a kill key press only returns a
//! [`KillRequest`], the caller performs it and reports the outcome back
//! through [`App::report_kill_outcome`].

use vstd::prelude::*;
use vstd::string::*;
use crate::process::{GlobalStats, ProcessCategory, ProcessData};
use crate::text::{append_dec, dec_str};

verus! {

/// How long a status message stays on screen, in milliseconds.
pub const STATUS_TTL_MS: u64 = 3000;

/// A transient user-facing message and the time (in milliseconds) it was
/// created at.
pub struct StatusMessage {
    pub text: String,
    pub created_at: u64,
}

/// A request to terminate the process with this pid, handed to the caller;
/// the name is carried along for the outcome message.
pub struct KillRequest {
    pub pid: u32,
    pub name: String,
}

/// A key press, already decoded to the keys the state machine consumes.
pub enum KeyInput {
    Quit,
    Kill,
    Down,
    Up,
    Other,
}

/// One event of the merged stream: a key press, an idle tick, or a fresh
/// snapshot from the sampler.
pub enum AppEvent {
    Input(KeyInput),
    Tick,
    ProcessesUpdated(Vec<ProcessData>, GlobalStats),
}

/// The whole application state, owned exclusively by the control loop.
pub struct App {
    pub processes: Vec<ProcessData>,
    pub global_stats: GlobalStats,
    pub selected: usize,
    pub should_quit: bool,
    pub status_message: Option<StatusMessage>,
}

/// The record under the cursor, if the cursor is in range of the current
/// list.
pub open spec fn spec_selected(app: App) -> Option<ProcessData> {
    if app.selected < app.processes@.len() {
        Some(app.processes@[app.selected as int])
    } else {
        None
    }
}

/// The pid a kill key press asks to terminate: only a User-tier selection
/// yields one.
pub open spec fn spec_kill_decision(app: App) -> Option<u32> {
    match spec_selected(app) {
        Some(p) => if p.category == ProcessCategory::User {
            Some(p.pid)
        } else {
            None
        },
        None => None,
    }
}

/// The cursor after a "down" key: one step towards the end, wrapping to the
/// start; unchanged on an empty list.
pub open spec fn spec_next_index(sel: int, len: int) -> int {
    if len == 0 {
        sel
    } else if sel + 1 >= len {
        0
    } else {
        sel + 1
    }
}

/// The cursor after an "up" key: one step towards the start, wrapping to the
/// end; unchanged on an empty list.
pub open spec fn spec_prev_index(sel: int, len: int) -> int {
    if len == 0 {
        sel
    } else if sel == 0 {
        len - 1
    } else {
        sel - 1
    }
}

/// The status message after a tick at `now`: cleared once its age reaches
/// the time to live, kept otherwise.
pub open spec fn spec_tick_status(m: Option<StatusMessage>, now: u64) -> Option<StatusMessage> {
    match m {
        Some(sm) => if now >= sm.created_at + STATUS_TTL_MS {
            None
        } else {
            Some(sm)
        },
        None => None,
    }
}

/// Status text for a kill key press on a System-tier selection.
pub open spec fn spec_blocked_msg() -> Seq<char> {
    "Cannot kill System process! Blocked."@
}

/// Status text for a kill key press on a Service-tier selection.
pub open spec fn spec_confirm_msg() -> Seq<char> {
    "Service process needs confirmation (Not implemented)."@
}

/// Status text after a termination request succeeded.
pub open spec fn spec_killed_msg(name: Seq<char>, pid: u32) -> Seq<char> {
    "Killed process "@ + name + " ("@ + dec_str(pid as nat) + ")"@
}

/// Status text after a termination request failed.
pub open spec fn spec_kill_failed_msg(name: Seq<char>, pid: u32) -> Seq<char> {
    "Failed to kill process "@ + name + " ("@ + dec_str(pid as nat) + ")"@
}

/// The state carries this message, created at `now`.
pub open spec fn status_is(app: App, text: Seq<char>, now: u64) -> bool {
    match app.status_message {
        Some(sm) => sm.text@ == text && sm.created_at == now,
        None => false,
    }
}

/// Everything but the status message is unchanged.
pub open spec fn only_status_may_change(o: App, n: App) -> bool {
    &&& n.processes == o.processes
    &&& n.global_stats == o.global_stats
    &&& n.selected == o.selected
    &&& n.should_quit == o.should_quit
}

/// The transition for a quit key: only the quit flag changes, and it is set.
pub open spec fn quit_post(o: App, n: App) -> bool {
    &&& n.processes == o.processes
    &&& n.global_stats == o.global_stats
    &&& n.selected == o.selected
    &&& n.should_quit == true
    &&& n.status_message == o.status_message
}

/// The transition for a "down" key: only the cursor changes, by one step
/// with wraparound.
pub open spec fn nav_next_post(o: App, n: App) -> bool {
    &&& n.selected as int == spec_next_index(o.selected as int, o.processes@.len() as int)
    &&& n.processes == o.processes
    &&& n.global_stats == o.global_stats
    &&& n.should_quit == o.should_quit
    &&& n.status_message == o.status_message
}

/// The transition for an "up" key: only the cursor changes, by one step
/// with wraparound.
pub open spec fn nav_prev_post(o: App, n: App) -> bool {
    &&& n.selected as int == spec_prev_index(o.selected as int, o.processes@.len() as int)
    &&& n.processes == o.processes
    &&& n.global_stats == o.global_stats
    &&& n.should_quit == o.should_quit
    &&& n.status_message == o.status_message
}

/// The transition for a tick: only the status message may change, and it
/// does exactly by expiry.
pub open spec fn tick_post(o: App, n: App, now: u64) -> bool {
    &&& only_status_may_change(o, n)
    &&& n.status_message == spec_tick_status(o.status_message, now)
}

/// The pid a request asks for, if any.
pub open spec fn spec_req_pid(req: Option<KillRequest>) -> Option<u32> {
    match req {
        Some(r) => Some(r.pid),
        None => None,
    }
}

/// The transition for a kill key press. No selection: a silent no-op. A
/// System selection is blocked, a Service selection needs the unimplemented
/// confirmation; both set a message and request nothing. Only a User
/// selection yields a request, exactly one, for the selected pid, and the
/// message waits for the outcome.
pub open spec fn kill_post(o: App, n: App, req: Option<KillRequest>, now: u64) -> bool {
    &&& only_status_may_change(o, n)
    &&& spec_req_pid(req) == spec_kill_decision(o)
    &&& match spec_selected(o) {
        None => req is None && n.status_message == o.status_message,
        Some(p) => match p.category {
            ProcessCategory::System => req is None && status_is(n, spec_blocked_msg(), now),
            ProcessCategory::Service => req is None && status_is(n, spec_confirm_msg(), now),
            ProcessCategory::User => {
                &&& match req {
                    Some(r) => r.pid == p.pid && r.name@ == p.name@,
                    None => false,
                }
                &&& n.status_message == o.status_message
            },
        },
    }
}

/// The transition for a snapshot: list and statistics are replaced
/// wholesale; the cursor is deliberately not reset (readers clamp it).
pub open spec fn snapshot_post(o: App, n: App, procs: Vec<ProcessData>, stats: GlobalStats) -> bool {
    &&& n.processes == procs
    &&& n.global_stats == stats
    &&& n.selected == o.selected
    &&& n.should_quit == o.should_quit
    &&& n.status_message == o.status_message
}

impl App {
    /// The initial state: running, empty list, cursor at the start, zeroed
    /// statistics, no message.
    pub fn new() -> (app: App)
        ensures
            app.processes@.len() == 0,
            app.selected == 0,
            !app.should_quit,
            app.status_message is None,
            app.global_stats == (GlobalStats {
                total_memory: 0,
                used_memory: 0,
                cpu_usage: 0,
                uptime: 0,
            }),
    {
        App {
            processes: Vec::new(),
            global_stats: GlobalStats { total_memory: 0, used_memory: 0, cpu_usage: 0, uptime: 0 },
            selected: 0,
            should_quit: false,
            status_message: None,
        }
    }

    /// Replaces the status message with `msg`, created now.
    pub fn set_status(&mut self, msg: String, now_ms: u64)
        ensures
            only_status_may_change(*old(self), *final(self)),
            final(self).status_message == Some(StatusMessage { text: msg, created_at: now_ms }),
    {
        self.status_message = Some(StatusMessage { text: msg, created_at: now_ms });
    }

    /// Clears the status message once its age has reached the time to live;
    /// no other state changes.
    pub fn on_tick(&mut self, now_ms: u64)
        ensures
            tick_post(*old(self), *final(self), now_ms),
    {
        let clear: bool = match &self.status_message {
            Some(sm) => now_ms >= sm.created_at && now_ms - sm.created_at >= STATUS_TTL_MS,
            None => false,
        };
        if clear {
            self.status_message = None;
        }
    }

    /// Moves the cursor one step down, wrapping to the start; a no-op on an
    /// empty list.
    pub fn next(&mut self)
        ensures
            nav_next_post(*old(self), *final(self)),
    {
        let len = self.processes.len();
        if len == 0 {
            return;
        }
        self.selected = if self.selected >= len - 1 {
            0
        } else {
            self.selected + 1
        };
    }

    /// Moves the cursor one step up, wrapping to the end; a no-op on an
    /// empty list.
    pub fn previous(&mut self)
        ensures
            nav_prev_post(*old(self), *final(self)),
    {
        let len = self.processes.len();
        if len == 0 {
            return;
        }
        self.selected = if self.selected == 0 {
            len - 1
        } else {
            self.selected - 1
        };
    }

    /// Applies the tier policy to the selection: blocks System, defers
    /// Service to the unimplemented confirmation, and for User returns the
    /// one termination request for the caller to perform.
    pub fn kill_selected_process(&mut self, now_ms: u64) -> (req: Option<KillRequest>)
        ensures
            kill_post(*old(self), *final(self), req, now_ms),
    {
        let idx = self.selected;
        if idx >= self.processes.len() {
            return None;
        }
        match self.processes[idx].category {
            ProcessCategory::System => {
                let msg = String::from_str("Cannot kill System process! Blocked.");
                self.set_status(msg, now_ms);
                None
            },
            ProcessCategory::Service => {
                let msg = String::from_str("Service process needs confirmation (Not implemented).");
                self.set_status(msg, now_ms);
                None
            },
            ProcessCategory::User => {
                let pid = self.processes[idx].pid;
                let name = self.processes[idx].name.clone();
                Some(KillRequest { pid, name })
            },
        }
    }

    /// Records the outcome of a termination request as a status message
    /// naming the process and reporting success or failure.
    pub fn report_kill_outcome(&mut self, req: &KillRequest, success: bool, now_ms: u64)
        ensures
            only_status_may_change(*old(self), *final(self)),
            status_is(
                *final(self),
                if success {
                    spec_killed_msg(req.name@, req.pid)
                } else {
                    spec_kill_failed_msg(req.name@, req.pid)
                },
                now_ms,
            ),
    {
        let mut msg = if success {
            String::from_str("Killed process ")
        } else {
            String::from_str("Failed to kill process ")
        };
        msg.append(req.name.as_str());
        msg.append(" (");
        append_dec(&mut msg, req.pid as u64);
        msg.append(")");
        self.set_status(msg, now_ms);
    }

    /// Applies one event of the merged stream while running, returning the
    /// termination request when the event asks for one. Unrecognised keys
    /// are ignored without error.
    pub fn handle_event(&mut self, event: AppEvent, now_ms: u64) -> (req: Option<KillRequest>)
        ensures
            match event {
                AppEvent::Input(KeyInput::Quit) => quit_post(*old(self), *final(self)) && req
                    is None,
                AppEvent::Input(KeyInput::Kill) => kill_post(
                    *old(self),
                    *final(self),
                    req,
                    now_ms,
                ),
                AppEvent::Input(KeyInput::Down) => nav_next_post(*old(self), *final(self)) && req
                    is None,
                AppEvent::Input(KeyInput::Up) => nav_prev_post(*old(self), *final(self)) && req
                    is None,
                AppEvent::Input(KeyInput::Other) => *final(self) == *old(self) && req is None,
                AppEvent::Tick => tick_post(*old(self), *final(self), now_ms) && req is None,
                AppEvent::ProcessesUpdated(procs, stats) => snapshot_post(
                    *old(self),
                    *final(self),
                    procs,
                    stats,
                ) && req is None,
            },
    {
        match event {
            AppEvent::Input(KeyInput::Quit) => {
                self.should_quit = true;
                None
            },
            AppEvent::Input(KeyInput::Kill) => self.kill_selected_process(now_ms),
            AppEvent::Input(KeyInput::Down) => {
                self.next();
                None
            },
            AppEvent::Input(KeyInput::Up) => {
                self.previous();
                None
            },
            AppEvent::Input(KeyInput::Other) => None,
            AppEvent::Tick => {
                self.on_tick(now_ms);
                None
            },
            AppEvent::ProcessesUpdated(procs, stats) => {
                self.processes = procs;
                self.global_stats = stats;
                None
            },
        }
    }

    /// The cursor as the presentation layer must read it: clamped into the
    /// current list, zero on an empty list. The cursor itself is left alone
    /// so a later, longer snapshot restores the old position.
    pub fn clamped_selection(&self) -> (i: usize)
        ensures
            self.processes@.len() == 0 ==> i == 0,
            self.processes@.len() > 0 ==> i == if self.selected < self.processes@.len() {
                self.selected as int
            } else {
                self.processes@.len() - 1
            },
    {
        let len = self.processes.len();
        if len == 0 {
            0
        } else if self.selected < len {
            self.selected
        } else {
            len - 1
        }
    }
}

/// Navigation wraps around: "down" at the last index selects the first,
/// "up" at the first index selects the last, and both leave the cursor
/// alone on an empty list.
pub proof fn lemma_navigation_wraparound(sel: int, len: int)
    requires
        0 <= sel,
        0 <= len,
    ensures
        len > 0 && sel == len - 1 ==> spec_next_index(sel, len) == 0,
        len > 0 && sel == 0 ==> spec_prev_index(sel, len) == len - 1,
        len == 0 ==> spec_next_index(sel, len) == sel && spec_prev_index(sel, len) == sel,
{
}

/// A kill key press on a System-tier selection never requests an OS
/// termination; that it always sets a (blocking) status message is part of
/// `kill_post`.
pub proof fn lemma_kill_blocked_for_system(app: App)
    requires
        app.selected < app.processes@.len(),
        app.processes@[app.selected as int].category == ProcessCategory::System,
    ensures
        spec_kill_decision(app) is None,
{
}

/// A kill key press on a User-tier selection requests exactly one OS
/// termination, of exactly the selected pid; the outcome message is part of
/// `App::report_kill_outcome`.
pub proof fn lemma_kill_requested_for_user(app: App)
    requires
        app.selected < app.processes@.len(),
        app.processes@[app.selected as int].category == ProcessCategory::User,
    ensures
        spec_kill_decision(app) == Some(app.processes@[app.selected as int].pid),
{
}

/// A status message created at `T` is cleared by a tick at `T + 3s` or
/// later, and kept by any earlier tick.
pub proof fn lemma_status_expiry(msg: StatusMessage, now: u64)
    ensures
        now >= msg.created_at + STATUS_TTL_MS ==> spec_tick_status(Some(msg), now) is None,
        now < msg.created_at + STATUS_TTL_MS ==> spec_tick_status(Some(msg), now) == Some(msg),
{
}

} // verus!
