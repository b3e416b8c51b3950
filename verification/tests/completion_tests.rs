use mainframer::completion::CompletionFanout;
use mainframer::completion::TryReceiveOutcome;
use mainframer::duration::DurationMs;
use mainframer::remote_command::RemoteCommandErr;
use mainframer::remote_command::RemoteCommandOk;

#[test]
fn all_listeners_receive_the_identical_value() {
    let mut fanout = CompletionFanout::new();
    let first = fanout.register();
    let second = fanout.register();
    let third = fanout.register();
    assert_eq!(fanout.registered, 3);
    let value = Ok(RemoteCommandOk {
        duration: DurationMs::from_millis(900),
    });
    fanout.publish(value);
    assert_eq!(first.receive(&fanout), value);
    assert_eq!(second.receive(&fanout), value);
    assert_eq!(third.receive(&fanout), value);
}

#[test]
fn no_value_is_observable_before_publish() {
    let mut fanout = CompletionFanout::new();
    let listener = fanout.register();
    assert!(matches!(
        listener.try_receive(&fanout),
        TryReceiveOutcome::NotYetAvailable
    ));
}

#[test]
fn try_receive_sees_the_published_value() {
    let mut fanout = CompletionFanout::new();
    let listener = fanout.register();
    let value = Err(RemoteCommandErr {
        duration: DurationMs::from_millis(40),
    });
    fanout.publish(value);
    match listener.try_receive(&fanout) {
        TryReceiveOutcome::Available(received) => assert_eq!(received, value),
        other => panic!("expected the published value, got {:?}", other),
    }
}

#[test]
fn closed_fanout_reports_producer_gone() {
    let mut fanout = CompletionFanout::new();
    let listener = fanout.register();
    fanout.close();
    assert!(matches!(
        listener.try_receive(&fanout),
        TryReceiveOutcome::ProducerGone
    ));
}
