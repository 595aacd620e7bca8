use bitcoincore_zmq::{
    topic_filter, worker_step, ListenerPhase, MempoolSequence, WorkerAction, WorkerEvent,
    ZMQSeqListenerError,
};

fn topic() -> Vec<u8> {
    b"sequence".to_vec()
}

fn block_message(zmq_seq: u32) -> Vec<Vec<u8>> {
    let mut body: Vec<u8> = (0u8..32).collect();
    body.push(67);
    vec![topic(), body, zmq_seq.to_le_bytes().to_vec()]
}

#[test]
fn topic_filter_is_the_sequence_prefix() {
    assert_eq!(topic_filter(), b"sequence".to_vec());
}

#[test]
fn first_message_releases_barrier_and_enters_steady_receive() {
    let (phase, action) = worker_step(
        ListenerPhase::AwaitFirstMessage,
        WorkerEvent::Frames(block_message(42)),
    );
    assert_eq!(phase, ListenerPhase::SteadyReceive);
    match action {
        WorkerAction::PublishAndRelease(ev) => {
            assert!(matches!(
                ev,
                MempoolSequence::BlockConnection { zmq_seq: 42, .. }
            ));
        }
        other => panic!("expected a publish-and-release action, got {:?}", other),
    }
}

#[test]
fn later_messages_publish_without_release() {
    let (phase, action) = worker_step(
        ListenerPhase::SteadyReceive,
        WorkerEvent::Frames(block_message(43)),
    );
    assert_eq!(phase, ListenerPhase::SteadyReceive);
    assert!(matches!(
        action,
        WorkerAction::Publish(MempoolSequence::BlockConnection { zmq_seq: 43, .. })
    ));
}

#[test]
fn malformed_message_publishes_seq_error_and_continues() {
    let (phase, action) = worker_step(
        ListenerPhase::SteadyReceive,
        WorkerEvent::Frames(vec![topic()]),
    );
    assert_eq!(phase, ListenerPhase::SteadyReceive);
    assert!(matches!(
        action,
        WorkerAction::Publish(MempoolSequence::SeqError {
            error: ZMQSeqListenerError::TooFewFrames
        })
    ));
}

#[test]
fn receive_failure_before_first_message_keeps_waiting() {
    let (phase, action) = worker_step(
        ListenerPhase::AwaitFirstMessage,
        WorkerEvent::ReceiveFailure("socket closed".to_string()),
    );
    assert_eq!(phase, ListenerPhase::AwaitFirstMessage);
    match action {
        WorkerAction::Publish(MempoolSequence::SeqError {
            error: ZMQSeqListenerError::TransportError(text),
        }) => assert_eq!(text, "socket closed"),
        other => panic!("expected a published transport error, got {:?}", other),
    }
}

#[test]
fn receive_failure_in_steady_receive_stays_steady() {
    let (phase, action) = worker_step(
        ListenerPhase::SteadyReceive,
        WorkerEvent::ReceiveFailure("hiccup".to_string()),
    );
    assert_eq!(phase, ListenerPhase::SteadyReceive);
    assert!(matches!(
        action,
        WorkerAction::Publish(MempoolSequence::SeqError {
            error: ZMQSeqListenerError::TransportError(_)
        })
    ));
}

#[test]
fn stop_observed_exits_from_either_active_phase() {
    let (phase, action) = worker_step(ListenerPhase::AwaitFirstMessage, WorkerEvent::StopObserved);
    assert_eq!(phase, ListenerPhase::Stopping);
    assert!(matches!(action, WorkerAction::Exit));

    let (phase, action) = worker_step(ListenerPhase::SteadyReceive, WorkerEvent::StopObserved);
    assert_eq!(phase, ListenerPhase::Stopping);
    assert!(matches!(action, WorkerAction::Exit));
}

#[test]
fn stopping_and_stopped_are_terminal() {
    let (phase, action) = worker_step(
        ListenerPhase::Stopping,
        WorkerEvent::Frames(block_message(1)),
    );
    assert_eq!(phase, ListenerPhase::Stopping);
    assert!(matches!(action, WorkerAction::Exit));

    let (phase, action) = worker_step(
        ListenerPhase::Stopped,
        WorkerEvent::ReceiveFailure("late".to_string()),
    );
    assert_eq!(phase, ListenerPhase::Stopped);
    assert!(matches!(action, WorkerAction::Exit));
}
