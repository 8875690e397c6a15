use alumet::control::SourceCmd;
use alumet::error::PollError;
use alumet::error::TriggerError;
use alumet::measurement::MeasurementBuffer;
use alumet::queue::InputQueue;
use alumet::queue::QueueRecv;
use alumet::source::CommandStep;
use alumet::source::SourceTaskState;
use alumet::source::SourceType;
use alumet::source::TaggedSource;
use alumet::trigger::SourceTrigger;
use alumet::trigger::SourceTriggerProvider;

fn periodic(poll_interval: u64, flush_interval: u64) -> SourceTriggerProvider {
    SourceTriggerProvider::TimeInterval { start_time: 0, poll_interval, flush_interval }
}

#[test]
fn provide_periodic_exact_ratio() {
    let r = periodic(1_000, 3_000).provide();
    assert_eq!(
        r,
        Ok((SourceTrigger::TimeInterval { start_time: 0, poll_interval: 1_000 }, 3))
    );
}

#[test]
fn provide_truncates_toward_more_frequent_flushing() {
    // 2500 / 1000 truncates to 2: flushes come at least as often as asked.
    let r = periodic(1_000, 2_500).provide();
    assert_eq!(
        r,
        Ok((SourceTrigger::TimeInterval { start_time: 0, poll_interval: 1_000 }, 2))
    );
}

#[test]
fn provide_rejects_zero_poll_interval() {
    assert_eq!(periodic(0, 3_000).provide(), Err(TriggerError::ZeroPollInterval));
}

#[test]
fn provide_rejects_zero_flush_rounds() {
    // flush interval smaller than poll interval: the ratio truncates to zero.
    assert_eq!(periodic(1_000, 999).provide(), Err(TriggerError::ZeroFlushRounds));
}

#[test]
fn provide_event_driven() {
    let r = SourceTriggerProvider::Future { flush_rounds: 5 }.provide();
    assert_eq!(r, Ok((SourceTrigger::Future, 5)));
    let zero = SourceTriggerProvider::Future { flush_rounds: 0 }.provide();
    assert_eq!(zero, Err(TriggerError::ZeroFlushRounds));
}

#[test]
fn tagged_source_keeps_its_metadata() {
    let src = TaggedSource::new(
        SourceType::RealtimePriority,
        periodic(1_000, 2_000),
        String::from("plugin-a"),
    );
    assert_eq!(src.source_type, SourceType::RealtimePriority);
    assert_eq!(src.trigger_provider, periodic(1_000, 2_000));
    assert_eq!(src.plugin_name, "plugin-a");
}

#[test]
fn init_rejects_invalid_provider() {
    let r = SourceTaskState::init(periodic(0, 3_000));
    assert!(matches!(r, Err(PollError::TriggerInit(TriggerError::ZeroPollInterval))));
    let r = SourceTaskState::init(periodic(1_000, 10));
    assert!(matches!(r, Err(PollError::TriggerInit(TriggerError::ZeroFlushRounds))));
}

#[test]
fn source_flushes_exactly_every_three_polls() {
    // flush_rounds resolves to 3: a flush is due after polls 3 and 6, never
    // between, and each flushed batch holds exactly the three polls' samples.
    let mut state = SourceTaskState::init(periodic(1_000, 3_000)).unwrap();
    let mut queue = InputQueue::new(8);

    let mut flushed: Vec<Vec<i64>> = Vec::new();
    for poll in 1..=6i64 {
        state.complete_poll(&vec![poll]);
        let due = state.flush_due();
        assert_eq!(due, poll % 3 == 0, "flush due after poll {}", poll);
        if due {
            state.flush(&mut queue).unwrap();
            match queue.recv() {
                QueueRecv::Received(batch) => {
                    let mut samples = Vec::new();
                    for i in 0..batch.len() {
                        samples.push(batch.get(i));
                    }
                    flushed.push(samples);
                }
                _ => panic!("a flushed batch must be queued"),
            }
        }
    }
    assert_eq!(flushed, vec![vec![1, 2, 3], vec![4, 5, 6]]);
}

#[test]
fn stop_while_paused_terminates_without_polling() {
    let mut state = SourceTaskState::init(periodic(1_000, 3_000)).unwrap();
    state.complete_poll(&vec![7]);
    let step = state.handle_command(&SourceCmd::Stop, true);
    assert_eq!(step, Ok(CommandStep::Terminate));
}

#[test]
fn pause_holds_and_run_resumes() {
    let mut state = SourceTaskState::init(periodic(1_000, 3_000)).unwrap();
    state.complete_poll(&vec![1]);
    state.complete_poll(&vec![2]);

    let step = state.handle_command(&SourceCmd::Pause, false);
    assert_eq!(step, Ok(CommandStep::StayPaused));

    // While paused only commands are consulted; the batch cannot grow.
    let step = state.handle_command(&SourceCmd::Run, true);
    assert_eq!(step, Ok(CommandStep::Proceed));

    // Resumed with the accumulated batch intact: one more poll completes the
    // round of three.
    state.complete_poll(&vec![3]);
    assert!(state.flush_due());
    let mut queue = InputQueue::new(4);
    state.flush(&mut queue).unwrap();
    match queue.recv() {
        QueueRecv::Received(batch) => assert_eq!(batch.len(), 3),
        _ => panic!("a flushed batch must be queued"),
    }
}

#[test]
fn set_trigger_reconfigures_in_place() {
    let mut state = SourceTaskState::init(periodic(1_000, 3_000)).unwrap();
    // Not paused: the new trigger proceeds straight back to polling.
    let cmd = SourceCmd::SetTrigger(Some(periodic(1_000, 1_000)));
    let step = state.handle_command(&cmd, false);
    assert_eq!(step, Ok(CommandStep::Proceed));
    // The cadence is now one flush per poll.
    state.complete_poll(&vec![1]);
    assert!(state.flush_due());
}

#[test]
fn set_trigger_while_paused_stays_paused() {
    let mut state = SourceTaskState::init(periodic(1_000, 3_000)).unwrap();
    let cmd = SourceCmd::SetTrigger(Some(periodic(500, 1_000)));
    let step = state.handle_command(&cmd, true);
    assert_eq!(step, Ok(CommandStep::StayPaused));
}

#[test]
fn set_trigger_invalid_is_fatal() {
    let mut state = SourceTaskState::init(periodic(1_000, 3_000)).unwrap();
    let cmd = SourceCmd::SetTrigger(Some(periodic(0, 1_000)));
    let step = state.handle_command(&cmd, false);
    assert_eq!(step, Err(PollError::TriggerInit(TriggerError::ZeroPollInterval)));
}

#[test]
fn event_driven_source_flushes_every_round() {
    // An explicit cadence of one round flushes after every poll.
    let mut state =
        SourceTaskState::init(SourceTriggerProvider::Future { flush_rounds: 1 }).unwrap();
    let mut queue = InputQueue::new(4);
    for sample in [3i64, 4] {
        state.complete_poll(&vec![sample]);
        assert!(state.flush_due());
        state.flush(&mut queue).unwrap();
    }
    match queue.recv() {
        QueueRecv::Received(batch) => {
            assert_eq!(batch.len(), 1);
            assert_eq!(batch.get(0), 3);
        }
        _ => panic!("each round flushes one batch"),
    }
}

#[test]
fn full_queue_is_fatal_to_the_source() {
    let mut state = SourceTaskState::init(periodic(1_000, 1_000)).unwrap();
    let mut queue = InputQueue::new(1);

    state.complete_poll(&vec![1]);
    assert!(state.flush_due());
    assert_eq!(state.flush(&mut queue), Ok(()));

    // The queue is full now: the next flush is refused, not dropped.
    state.complete_poll(&vec![2]);
    assert!(state.flush_due());
    assert_eq!(state.flush(&mut queue), Err(PollError::QueueFull));
}

#[test]
fn queue_is_first_in_first_out() {
    let mut queue = InputQueue::new(4);
    let mut a = MeasurementBuffer::new();
    a.push(1);
    let mut b = MeasurementBuffer::new();
    b.push(2);
    assert!(queue.try_send(a).is_ok());
    assert!(queue.try_send(b).is_ok());

    match queue.recv() {
        QueueRecv::Received(first) => assert_eq!(first.get(0), 1),
        _ => panic!("first batch expected"),
    }
    match queue.recv() {
        QueueRecv::Received(second) => assert_eq!(second.get(0), 2),
        _ => panic!("second batch expected"),
    }
    assert!(matches!(queue.recv(), QueueRecv::Empty));
    queue.close();
    assert!(matches!(queue.recv(), QueueRecv::Closed));
}

#[test]
fn measurement_buffer_accumulates_in_order() {
    let mut batch = MeasurementBuffer::new();
    assert!(batch.is_empty());
    batch.push(10);
    batch.append_all(&vec![20, 30]);
    assert_eq!(batch.len(), 3);
    assert_eq!((batch.get(0), batch.get(1), batch.get(2)), (10, 20, 30));

    let copy = batch.clone();
    assert_eq!(copy.len(), 3);
    assert_eq!(copy.get(2), 30);
}
