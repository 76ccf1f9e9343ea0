//! The process monitor: after a launch it waits a grace period, then looks
//! at the table of running processes at a fixed interval until the launched
//! executable is gone, and has the end of the session recorded once.

use vstd::prelude::*;
use vstd::string::*;

use crate::text::{text_contains, text_holds};

verus! {

/// Seconds to wait after a launch before the first look at the process table.
pub const GRACE_SECS: u64 = 2;

/// Seconds between two looks at the process table.
pub const POLL_INTERVAL_SECS: u64 = 5;

/// Where a watch stands.
#[derive(Clone, Copy, Debug, PartialEq, Eq)]
pub enum MonitorState {
    /// The process was launched and the grace period runs.
    Started,
    /// The process table is looked at from time to time.
    Polling,
    /// The process was found gone and the watch is over.
    Exited,
}

/// What a look at the process table gave.
#[derive(Debug)]
pub enum ProcessSnapshot {
    /// The table as text, one running process after another.
    Listed(String),
    /// The table could not be had.
    Unavailable,
}

/// What the watch is told.
#[derive(Debug)]
pub enum MonitorEvent {
    /// The wait that was asked for is over.
    Woke,
    /// The look at the process table that was asked for is done.
    Snapshot(ProcessSnapshot),
}

/// What the watch asks for next.
#[derive(Clone, Copy, Debug, PartialEq, Eq)]
pub enum MonitorAction {
    /// Wait this many seconds, then report `Woke`.
    Sleep(u64),
    /// Look at the process table, then report `Snapshot`.
    TakeSnapshot,
    /// Record in the registry that the session has ended; the watch is over.
    RecordExit,
    /// Nothing: the event does not belong to this state.
    Idle,
}

/// The name under which the launched executable shows in the process table.
pub fn process_name(windows: bool) -> (name: &'static str)
    ensures
        name@ == if windows {
            "Roblox.exe"@
        } else {
            "Roblox"@
        },
{
    if windows {
        "Roblox.exe"
    } else {
        "Roblox"
    }
}

/// Whether a snapshot shows `process_name` among the running processes. A
/// table that could not be had shows nothing.
pub open spec fn shows_process(snapshot: ProcessSnapshot, process_name: Seq<char>) -> bool {
    match snapshot {
        ProcessSnapshot::Listed(table) => text_holds(table@, process_name),
        ProcessSnapshot::Unavailable => false,
    }
}

/// The state that follows `state` on `event`, and what is asked for.
pub open spec fn monitor_next(state: MonitorState, event: MonitorEvent, process_name: Seq<char>) -> (
    MonitorState,
    MonitorAction,
) {
    match (state, event) {
        (MonitorState::Started, MonitorEvent::Woke) => (
            MonitorState::Polling,
            MonitorAction::Sleep(POLL_INTERVAL_SECS),
        ),
        (MonitorState::Polling, MonitorEvent::Woke) => (
            MonitorState::Polling,
            MonitorAction::TakeSnapshot,
        ),
        (MonitorState::Polling, MonitorEvent::Snapshot(snapshot)) => if shows_process(
            snapshot,
            process_name,
        ) {
            (MonitorState::Polling, MonitorAction::Sleep(POLL_INTERVAL_SECS))
        } else {
            (MonitorState::Exited, MonitorAction::RecordExit)
        },
        _ => (state, MonitorAction::Idle),
    }
}

/// Begins a watch right after a successful launch: the grace period comes
/// first.
pub fn monitor_start() -> (begin: (MonitorState, MonitorAction))
    ensures
        begin == (MonitorState::Started, MonitorAction::Sleep(GRACE_SECS)),
{
    (MonitorState::Started, MonitorAction::Sleep(GRACE_SECS))
}

/// Takes one event: gives the next state and what to do next.
pub fn monitor_step(state: MonitorState, event: &MonitorEvent, process_name: &str) -> (next: (
    MonitorState,
    MonitorAction,
))
    ensures
        next == monitor_next(state, *event, process_name@),
{
    match state {
        MonitorState::Started => match event {
            MonitorEvent::Woke => (MonitorState::Polling, MonitorAction::Sleep(POLL_INTERVAL_SECS)),
            MonitorEvent::Snapshot(_) => (state, MonitorAction::Idle),
        },
        MonitorState::Polling => match event {
            MonitorEvent::Woke => (MonitorState::Polling, MonitorAction::TakeSnapshot),
            MonitorEvent::Snapshot(ProcessSnapshot::Listed(table)) => {
                if text_contains(table.as_str(), process_name) {
                    (MonitorState::Polling, MonitorAction::Sleep(POLL_INTERVAL_SECS))
                } else {
                    (MonitorState::Exited, MonitorAction::RecordExit)
                }
            },
            MonitorEvent::Snapshot(ProcessSnapshot::Unavailable) => (
                MonitorState::Exited,
                MonitorAction::RecordExit,
            ),
        },
        MonitorState::Exited => (state, MonitorAction::Idle),
    }
}

/// The state reached from `state` after `events`, taken in order.
pub open spec fn monitor_run(state: MonitorState, events: Seq<MonitorEvent>, process_name: Seq<char>) -> MonitorState
    decreases events.len(),
{
    if events.len() == 0 {
        state
    } else {
        monitor_run(
            monitor_next(state, events.first(), process_name).0,
            events.drop_first(),
            process_name,
        )
    }
}

/// How often the end of the session is recorded while `events` are taken.
pub open spec fn monitor_exit_records(
    state: MonitorState,
    events: Seq<MonitorEvent>,
    process_name: Seq<char>,
) -> nat
    decreases events.len(),
{
    if events.len() == 0 {
        0
    } else {
        let (next, action) = monitor_next(state, events.first(), process_name);
        let now: nat = if action == MonitorAction::RecordExit {
            1
        } else {
            0
        };
        now + monitor_exit_records(next, events.drop_first(), process_name)
    }
}

/// A watch that is over stays over and asks for nothing more, whatever it
/// is told.
pub proof fn lemma_exited_is_final(events: Seq<MonitorEvent>, process_name: Seq<char>)
    ensures
        monitor_run(MonitorState::Exited, events, process_name) == MonitorState::Exited,
        monitor_exit_records(MonitorState::Exited, events, process_name) == 0,
    decreases events.len(),
{
    if events.len() > 0 {
        lemma_exited_is_final(events.drop_first(), process_name);
    }
}

/// Whatever a watch is told, it has the end of the session recorded at most
/// once, and only a watch that ends up over has it recorded at all.
pub proof fn lemma_exit_recorded_once(
    state: MonitorState,
    events: Seq<MonitorEvent>,
    process_name: Seq<char>,
)
    ensures
        monitor_exit_records(state, events, process_name) <= 1,
        monitor_exit_records(state, events, process_name) == 1 ==> monitor_run(
            state,
            events,
            process_name,
        ) == MonitorState::Exited,
    decreases events.len(),
{
    if events.len() > 0 {
        let (next, action) = monitor_next(state, events.first(), process_name);
        if action == MonitorAction::RecordExit {
            lemma_exited_is_final(events.drop_first(), process_name);
        } else {
            lemma_exit_recorded_once(next, events.drop_first(), process_name);
        }
    }
}

} // verus!
