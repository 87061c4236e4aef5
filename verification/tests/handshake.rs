use native_events::platform::windows::handshake::{
    Handshake, WorkerAction, WorkerEvent, WorkerPhase,
};
use native_events::platform::windows::init::CreationPath;

fn count_sends(handshake: &mut Handshake, events: &[WorkerEvent]) -> usize {
    let mut sends = 0;
    for event in events {
        if handshake.action() == WorkerAction::SendResult && *event == WorkerEvent::ResultSent {
            sends += 1;
        }
        handshake.on_event(*event);
    }
    sends
}

#[test]
fn only_a_window_without_a_parent_needs_a_thread() {
    assert!(Handshake::new(CreationPath::Standalone).needs_thread());
    assert!(!Handshake::new(CreationPath::Embedded { parent: 3 }).needs_thread());
}

#[test]
fn an_embedded_window_is_made_answered_and_done() {
    let mut handshake = Handshake::new(CreationPath::Embedded { parent: 3 });
    assert_eq!(handshake.phase, WorkerPhase::Init);
    assert_eq!(handshake.action(), WorkerAction::Init);
    handshake.on_event(WorkerEvent::InitDone { created: true });
    assert_eq!(handshake.action(), WorkerAction::SendResult);
    handshake.on_event(WorkerEvent::ResultSent);
    assert_eq!(handshake.action(), WorkerAction::Return);
}

#[test]
fn a_standalone_window_pumps_messages_after_the_answer() {
    let mut handshake = Handshake::new(CreationPath::Standalone);
    assert_eq!(handshake.action(), WorkerAction::Init);
    handshake.on_event(WorkerEvent::InitDone { created: true });
    assert_eq!(handshake.action(), WorkerAction::SendResult);
    handshake.on_event(WorkerEvent::ResultSent);
    assert_eq!(handshake.action(), WorkerAction::GetMessage);
    handshake.on_event(WorkerEvent::Message { result: 1 });
    assert_eq!(handshake.action(), WorkerAction::DispatchMessage);
    handshake.on_event(WorkerEvent::Dispatched);
    assert_eq!(handshake.action(), WorkerAction::GetMessage);
    handshake.on_event(WorkerEvent::Message { result: -1 });
    assert_eq!(handshake.action(), WorkerAction::DispatchMessage);
    handshake.on_event(WorkerEvent::Dispatched);
    handshake.on_event(WorkerEvent::Message { result: 0 });
    assert_eq!(handshake.action(), WorkerAction::Return);
    assert_eq!(handshake.phase, WorkerPhase::Finished);
}

#[test]
fn a_standalone_thread_ends_after_reporting_a_failure() {
    let mut handshake = Handshake::new(CreationPath::Standalone);
    handshake.on_event(WorkerEvent::InitDone { created: false });
    assert_eq!(handshake.action(), WorkerAction::SendResult);
    handshake.on_event(WorkerEvent::ResultSent);
    assert_eq!(handshake.action(), WorkerAction::Return);
}

#[test]
fn the_answer_is_sent_exactly_once() {
    let events = [
        WorkerEvent::ResultSent,
        WorkerEvent::InitDone { created: true },
        WorkerEvent::InitDone { created: false },
        WorkerEvent::ResultSent,
        WorkerEvent::ResultSent,
        WorkerEvent::Message { result: 5 },
        WorkerEvent::ResultSent,
        WorkerEvent::Dispatched,
        WorkerEvent::InitDone { created: true },
        WorkerEvent::Message { result: 0 },
        WorkerEvent::ResultSent,
    ];
    for path in [CreationPath::Standalone, CreationPath::Embedded { parent: 1 }] {
        let mut handshake = Handshake::new(path);
        assert_eq!(count_sends(&mut handshake, &events), 1);
        assert_eq!(handshake.action(), WorkerAction::Return);
        assert_eq!(count_sends(&mut handshake, &events), 0);
    }
}

#[test]
fn no_answer_goes_out_before_the_window_is_made() {
    let mut handshake = Handshake::new(CreationPath::Standalone);
    let events = [WorkerEvent::ResultSent, WorkerEvent::Dispatched, WorkerEvent::ResultSent];
    assert_eq!(count_sends(&mut handshake, &events), 0);
    assert_eq!(handshake, Handshake::new(CreationPath::Standalone));
}
