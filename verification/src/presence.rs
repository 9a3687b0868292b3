//! Discord rich presence: what is shown, and the decisions of the worker that
//! keeps it up to date and reconnects when Discord goes away.
use vstd::prelude::*;

verus! {

/// Seconds the worker waits before reconnecting after a failed session.
pub const RECONNECT_DELAY_SECS: u64 = 10;

/// Seconds between two refreshes of the activity during a session.
pub const REFRESH_INTERVAL_SECS: u64 = 30;

/// The Discord application the presence belongs to.
pub fn client_id() -> (id: String)
    ensures
        id@ == "872068124005007420"@,
{
    String::from_str("872068124005007420")
}

/// The activity shown on the user's Discord profile, as plain text.
#[derive(Clone, Debug, PartialEq, Eq)]
pub struct ActivitySpec {
    pub state: String,
    pub details: String,
    pub large_image: String,
    pub large_text: String,
    pub button_label: String,
    pub button_url: String,
}

/// The activity the client shows: chatting on stoat.chat, with the "qr"
/// image and one button that leads to the site.
pub fn presence_activity() -> (a: ActivitySpec)
    ensures
        a.state@ == "stoat.chat"@,
        a.details@ == "Chatting with others"@,
        a.large_image@ == "qr"@,
        a.large_text@ == "Join Stoat!"@,
        a.button_label@ == "Join Stoat"@,
        a.button_url@ == "https://stoat.chat/"@,
{
    ActivitySpec {
        state: String::from_str("stoat.chat"),
        details: String::from_str("Chatting with others"),
        large_image: String::from_str("qr"),
        large_text: String::from_str("Join Stoat!"),
        button_label: String::from_str("Join Stoat"),
        button_url: String::from_str("https://stoat.chat/"),
    }
}

/// Where the presence worker stands; each phase but the first and the last
/// names the action whose outcome the worker waits for.
#[derive(Clone, Copy, Debug, PartialEq, Eq, Structural)]
pub enum WorkerPhase {
    /// Not yet begun.
    Starting,
    /// Connecting to Discord.
    Connecting,
    /// Sending the activity once just after connecting.
    Announcing,
    /// Waiting between two refreshes.
    Waiting,
    /// Sending the activity again.
    Refreshing,
    /// Waiting before reconnecting.
    BackingOff,
    /// Finished.
    Done,
}

/// What the worker does next.
#[derive(Clone, Copy, Debug, PartialEq, Eq, Structural)]
pub enum WorkerAction {
    /// Open a connection to Discord.
    Connect,
    /// Send the activity.
    SendActivity,
    /// Sleep this many seconds.
    Sleep { secs: u64 },
    /// Stop the worker.
    Finish,
}

/// At the top of the reconnect loop: connect while the worker should run.
pub open spec fn spec_loop_top(running: bool) -> (WorkerPhase, WorkerAction) {
    if running {
        (WorkerPhase::Connecting, WorkerAction::Connect)
    } else {
        (WorkerPhase::Done, WorkerAction::Finish)
    }
}

/// At the top of a session: wait for the next refresh while the worker should
/// run, end the session (and the worker) otherwise.
pub open spec fn spec_session_top(running: bool) -> (WorkerPhase, WorkerAction) {
    if running {
        (WorkerPhase::Waiting, WorkerAction::Sleep { secs: REFRESH_INTERVAL_SECS })
    } else {
        (WorkerPhase::Done, WorkerAction::Finish)
    }
}

/// After a failed session: stop if the worker should no longer run, wait
/// before reconnecting otherwise.
pub open spec fn spec_session_failed(running: bool) -> (WorkerPhase, WorkerAction) {
    if running {
        (WorkerPhase::BackingOff, WorkerAction::Sleep { secs: RECONNECT_DELAY_SECS })
    } else {
        (WorkerPhase::Done, WorkerAction::Finish)
    }
}

/// One decision of the worker, given its phase, whether it should still run,
/// and whether the action it waited for succeeded (ignored where that action
/// cannot fail or its failure does not matter).
pub open spec fn spec_worker_step(phase: WorkerPhase, running: bool, succeeded: bool) -> (
    WorkerPhase,
    WorkerAction,
) {
    match phase {
        WorkerPhase::Starting => spec_loop_top(running),
        WorkerPhase::Connecting => if succeeded {
            (WorkerPhase::Announcing, WorkerAction::SendActivity)
        } else {
            spec_session_failed(running)
        },
        WorkerPhase::Announcing => spec_session_top(running),
        WorkerPhase::Waiting => (WorkerPhase::Refreshing, WorkerAction::SendActivity),
        WorkerPhase::Refreshing => if succeeded {
            spec_session_top(running)
        } else {
            spec_session_failed(running)
        },
        WorkerPhase::BackingOff => spec_loop_top(running),
        WorkerPhase::Done => (WorkerPhase::Done, WorkerAction::Finish),
    }
}

fn loop_top(running: bool) -> (r: (WorkerPhase, WorkerAction))
    ensures
        r == spec_loop_top(running),
{
    if running {
        (WorkerPhase::Connecting, WorkerAction::Connect)
    } else {
        (WorkerPhase::Done, WorkerAction::Finish)
    }
}

fn session_top(running: bool) -> (r: (WorkerPhase, WorkerAction))
    ensures
        r == spec_session_top(running),
{
    if running {
        (WorkerPhase::Waiting, WorkerAction::Sleep { secs: REFRESH_INTERVAL_SECS })
    } else {
        (WorkerPhase::Done, WorkerAction::Finish)
    }
}

fn session_failed(running: bool) -> (r: (WorkerPhase, WorkerAction))
    ensures
        r == spec_session_failed(running),
{
    if running {
        (WorkerPhase::BackingOff, WorkerAction::Sleep { secs: RECONNECT_DELAY_SECS })
    } else {
        (WorkerPhase::Done, WorkerAction::Finish)
    }
}

/// One decision of the presence worker. The worker connects, sends the
/// activity once, then refreshes it every `REFRESH_INTERVAL_SECS` until it is
/// told to stop; a failed connection or refresh ends the session, and the
/// worker reconnects after `RECONNECT_DELAY_SECS` unless it was told to stop.
/// The failure of the first send after connecting is ignored.
pub fn worker_step(phase: WorkerPhase, running: bool, succeeded: bool) -> (r: (
    WorkerPhase,
    WorkerAction,
))
    ensures
        r == spec_worker_step(phase, running, succeeded),
{
    match phase {
        WorkerPhase::Starting => loop_top(running),
        WorkerPhase::Connecting => {
            if succeeded {
                (WorkerPhase::Announcing, WorkerAction::SendActivity)
            } else {
                session_failed(running)
            }
        },
        WorkerPhase::Announcing => session_top(running),
        WorkerPhase::Waiting => (WorkerPhase::Refreshing, WorkerAction::SendActivity),
        WorkerPhase::Refreshing => {
            if succeeded {
                session_top(running)
            } else {
                session_failed(running)
            }
        },
        WorkerPhase::BackingOff => loop_top(running),
        WorkerPhase::Done => (WorkerPhase::Done, WorkerAction::Finish),
    }
}

/// What becomes of the presence worker when the setting changes.
#[derive(Clone, Copy, Debug, PartialEq, Eq, Structural)]
pub enum PresenceChange {
    Unchanged,
    Start,
    Stop,
}

/// The worker starts when the setting is turned on, stops when it is turned
/// off, and is left alone when the setting keeps its value.
pub open spec fn spec_presence_change(was_enabled: bool, enabled: bool) -> PresenceChange {
    if was_enabled == enabled {
        PresenceChange::Unchanged
    } else if enabled {
        PresenceChange::Start
    } else {
        PresenceChange::Stop
    }
}

/// Whether the worker runs after `change` is applied to a worker that ran
/// exactly when `running`.
pub open spec fn runs_after(running: bool, change: PresenceChange) -> bool {
    match change {
        PresenceChange::Unchanged => running,
        PresenceChange::Start => true,
        PresenceChange::Stop => false,
    }
}

/// What becomes of the presence worker when the setting goes from
/// `was_enabled` to `enabled`.
pub fn presence_change(was_enabled: bool, enabled: bool) -> (c: PresenceChange)
    ensures
        c == spec_presence_change(was_enabled, enabled),
{
    if was_enabled != enabled {
        if enabled {
            PresenceChange::Start
        } else {
            PresenceChange::Stop
        }
    } else {
        PresenceChange::Unchanged
    }
}

} // verus!
