use rsstoat::presence::{
    client_id, presence_activity, presence_change, worker_step, PresenceChange, WorkerAction,
    WorkerPhase, RECONNECT_DELAY_SECS, REFRESH_INTERVAL_SECS,
};

#[test]
fn client_id_and_delays() {
    assert_eq!(client_id(), "872068124005007420");
    assert_eq!(RECONNECT_DELAY_SECS, 10);
    assert_eq!(REFRESH_INTERVAL_SECS, 30);
}

#[test]
fn activity_content() {
    let a = presence_activity();
    assert_eq!(a.state, "stoat.chat");
    assert_eq!(a.details, "Chatting with others");
    assert_eq!(a.large_image, "qr");
    assert_eq!(a.large_text, "Join Stoat!");
    assert_eq!(a.button_label, "Join Stoat");
    assert_eq!(a.button_url, "https://stoat.chat/");
}

#[test]
fn worker_runs_a_session() {
    let (p, a) = worker_step(WorkerPhase::Starting, true, true);
    assert_eq!((p, a), (WorkerPhase::Connecting, WorkerAction::Connect));
    let (p, a) = worker_step(p, true, true);
    assert_eq!((p, a), (WorkerPhase::Announcing, WorkerAction::SendActivity));
    // the first send fails, which is ignored
    let (p, a) = worker_step(p, true, false);
    assert_eq!((p, a), (WorkerPhase::Waiting, WorkerAction::Sleep { secs: 30 }));
    let (p, a) = worker_step(p, true, true);
    assert_eq!((p, a), (WorkerPhase::Refreshing, WorkerAction::SendActivity));
    let (p, a) = worker_step(p, true, true);
    assert_eq!((p, a), (WorkerPhase::Waiting, WorkerAction::Sleep { secs: 30 }));
}

#[test]
fn worker_reconnects_after_a_failed_refresh() {
    let (p, a) = worker_step(WorkerPhase::Refreshing, true, false);
    assert_eq!((p, a), (WorkerPhase::BackingOff, WorkerAction::Sleep { secs: 10 }));
    let (p, a) = worker_step(p, true, true);
    assert_eq!((p, a), (WorkerPhase::Connecting, WorkerAction::Connect));
    let (p, a) = worker_step(p, true, false);
    assert_eq!((p, a), (WorkerPhase::BackingOff, WorkerAction::Sleep { secs: 10 }));
}

#[test]
fn worker_stops_when_told() {
    assert_eq!(worker_step(WorkerPhase::Starting, false, true), (WorkerPhase::Done, WorkerAction::Finish));
    assert_eq!(worker_step(WorkerPhase::Connecting, false, false), (WorkerPhase::Done, WorkerAction::Finish));
    assert_eq!(worker_step(WorkerPhase::Announcing, false, true), (WorkerPhase::Done, WorkerAction::Finish));
    assert_eq!(worker_step(WorkerPhase::Refreshing, false, true), (WorkerPhase::Done, WorkerAction::Finish));
    assert_eq!(worker_step(WorkerPhase::Refreshing, false, false), (WorkerPhase::Done, WorkerAction::Finish));
    assert_eq!(worker_step(WorkerPhase::BackingOff, false, true), (WorkerPhase::Done, WorkerAction::Finish));
    assert_eq!(worker_step(WorkerPhase::Done, true, true), (WorkerPhase::Done, WorkerAction::Finish));
    // a waiting worker sends once more before it notices
    assert_eq!(
        worker_step(WorkerPhase::Waiting, false, true),
        (WorkerPhase::Refreshing, WorkerAction::SendActivity)
    );
    // a fresh connection is announced before the worker notices
    assert_eq!(
        worker_step(WorkerPhase::Connecting, false, true),
        (WorkerPhase::Announcing, WorkerAction::SendActivity)
    );
}

#[test]
fn presence_follows_the_setting() {
    assert_eq!(presence_change(false, true), PresenceChange::Start);
    assert_eq!(presence_change(true, false), PresenceChange::Stop);
    assert_eq!(presence_change(true, true), PresenceChange::Unchanged);
    assert_eq!(presence_change(false, false), PresenceChange::Unchanged);
}
