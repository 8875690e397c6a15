use alumet::broadcast::BroadcastChannel;
use alumet::broadcast::BroadcastRecv;
use alumet::control::CommandSlot;
use alumet::control::OutputCmd;
use alumet::control::SourceCmd;
use alumet::error::TransformError;
use alumet::error::WriteError;
use alumet::measurement::MeasurementBuffer;
use alumet::output::on_command;
use alumet::output::on_receive;
use alumet::output::on_unpause;
use alumet::output::on_write_completion;
use alumet::output::OutputAction;
use alumet::output::TaggedOutput;
use alumet::output::WriteCompletion;
use alumet::pipeline::PendingPipeline;
use alumet::pipeline::PipelineTask;
use alumet::source::SourceType;
use alumet::source::TaggedSource;
use alumet::transform::finish_batch;
use alumet::transform::TaggedTransform;
use alumet::transform::TransformChain;
use alumet::trigger::SourceTriggerProvider;

fn batch_of(samples: &[i64]) -> MeasurementBuffer {
    let mut b = MeasurementBuffer::new();
    for &s in samples {
        b.push(s);
    }
    b
}

fn one_source() -> TaggedSource {
    TaggedSource::new(
        SourceType::Normal,
        SourceTriggerProvider::TimeInterval {
            start_time: 0,
            poll_interval: 1_000,
            flush_interval: 2_000,
        },
        String::from("plugin-src"),
    )
}

#[test]
fn transform_failure_halts_chain_and_publishes_nothing() {
    // Three transforms; the one at position 1 fails: position 2 is never
    // asked for and the batch reaches no output.
    let mut chain = TransformChain::new(3);
    assert_eq!(chain.next_to_apply(), Some(0));
    chain.record(true);
    assert_eq!(chain.next_to_apply(), Some(1));
    chain.record(false);
    assert_eq!(chain.next_to_apply(), None);
    assert!(!chain.should_publish());

    let mut chan = BroadcastChannel::new(4);
    let mut rcv = chan.subscribe();
    let r = finish_batch(&chain, batch_of(&[1, 2]), &mut chan);
    assert_eq!(r, Err(TransformError::TransformFailed(1)));
    // Nothing was published for that round.
    assert!(matches!(rcv.recv(&chan), BroadcastRecv::Empty));
}

#[test]
fn completed_chain_publishes_to_every_subscriber() {
    let mut chain = TransformChain::new(2);
    chain.record(true);
    chain.record(true);
    assert!(chain.should_publish());

    let mut chan = BroadcastChannel::new(4);
    let mut rcv_a = chan.subscribe();
    let mut rcv_b = chan.subscribe();
    assert_eq!(finish_batch(&chain, batch_of(&[5, 6]), &mut chan), Ok(()));

    for rcv in [&mut rcv_a, &mut rcv_b] {
        match rcv.recv(&chan) {
            BroadcastRecv::Received(b) => {
                assert_eq!(b.len(), 2);
                assert_eq!((b.get(0), b.get(1)), (5, 6));
            }
            _ => panic!("every subscriber receives the published batch"),
        }
    }
}

#[test]
fn publish_without_subscriber_is_fatal() {
    let chain = TransformChain::new(0);
    let mut chan = BroadcastChannel::new(4);
    let r = finish_batch(&chain, batch_of(&[9]), &mut chan);
    assert_eq!(r, Err(TransformError::PublishFailed));
}

#[test]
fn lagging_output_sees_exact_dropped_count_and_resumes() {
    // History of 2: after four sends, a subscriber still at the start has
    // lost exactly batches 0 and 1 and resumes at batch 2.
    let mut chan = BroadcastChannel::new(2);
    let mut rcv = chan.subscribe();
    for s in 0..4i64 {
        assert!(chan.send(batch_of(&[s])).is_ok());
    }
    match rcv.recv(&chan) {
        BroadcastRecv::Lagged(missed) => assert_eq!(missed, 2),
        _ => panic!("a subscriber behind the history must see the lag"),
    }
    match rcv.recv(&chan) {
        BroadcastRecv::Received(b) => assert_eq!(b.get(0), 2),
        _ => panic!("consumption resumes at the oldest retained batch"),
    }
    match rcv.recv(&chan) {
        BroadcastRecv::Received(b) => assert_eq!(b.get(0), 3),
        _ => panic!("and continues in order"),
    }
    assert!(matches!(rcv.recv(&chan), BroadcastRecv::Empty));
}

#[test]
fn late_subscriber_sees_only_later_batches() {
    let mut chan = BroadcastChannel::new(4);
    let mut early = chan.subscribe();
    assert!(chan.send(batch_of(&[1])).is_ok());
    let mut late = chan.subscribe();
    assert!(chan.send(batch_of(&[2])).is_ok());

    match early.recv(&chan) {
        BroadcastRecv::Received(b) => assert_eq!(b.get(0), 1),
        _ => panic!("the early subscriber sees everything"),
    }
    // The late subscriber starts at the batch published after it joined.
    match late.recv(&chan) {
        BroadcastRecv::Received(b) => assert_eq!(b.get(0), 2),
        _ => panic!("the late subscriber starts where it joined"),
    }
    assert!(matches!(late.recv(&chan), BroadcastRecv::Empty));
}

#[test]
fn caught_up_subscriber_sees_closed_when_publisher_leaves() {
    let mut chan = BroadcastChannel::new(2);
    let mut rcv = chan.subscribe();
    assert!(chan.send(batch_of(&[1])).is_ok());
    assert!(matches!(rcv.recv(&chan), BroadcastRecv::Received(_)));
    chan.close();
    assert!(matches!(rcv.recv(&chan), BroadcastRecv::Closed));
}

#[test]
fn output_decisions_follow_commands() {
    assert_eq!(on_command(&OutputCmd::Run), OutputAction::Continue);
    assert_eq!(on_command(&OutputCmd::Pause), OutputAction::AwaitUnpause);
    assert_eq!(on_command(&OutputCmd::Stop), OutputAction::Halt);
    assert_eq!(on_unpause(&OutputCmd::Run), OutputAction::Continue);
    assert_eq!(on_unpause(&OutputCmd::Stop), OutputAction::Halt);
}

#[test]
fn failed_write_is_not_fatal() {
    assert_eq!(
        on_write_completion(&WriteCompletion::WriteFailed),
        Ok(OutputAction::Continue)
    );
    assert_eq!(on_write_completion(&WriteCompletion::Done), Ok(OutputAction::Continue));
    assert_eq!(
        on_write_completion(&WriteCompletion::WorkerLost),
        Err(WriteError::WorkerLost)
    );
}

#[test]
fn lag_and_batches_map_to_output_actions() {
    assert_eq!(on_receive(&BroadcastRecv::Received(batch_of(&[1]))), OutputAction::Write);
    assert_eq!(on_receive(&BroadcastRecv::Lagged(3)), OutputAction::Continue);
    assert_eq!(on_receive(&BroadcastRecv::Empty), OutputAction::Continue);
    assert_eq!(on_receive(&BroadcastRecv::Closed), OutputAction::Halt);
}

#[test]
fn command_slot_keeps_only_the_latest_command() {
    let mut slot: CommandSlot<OutputCmd> = CommandSlot::new(OutputCmd::Run);
    assert!(!slot.has_changed());
    assert_eq!(slot.borrow(), OutputCmd::Run);

    slot.send(OutputCmd::Pause);
    slot.send(OutputCmd::Stop);
    // Pause was overwritten before anyone read it: only Stop remains.
    assert!(slot.has_changed());
    assert_eq!(slot.borrow_and_update(), OutputCmd::Stop);
    assert!(!slot.has_changed());
    assert_eq!(slot.borrow(), OutputCmd::Stop);
}

#[test]
fn started_pipeline_subscribes_outputs_before_sources_can_emit() {
    let pending = PendingPipeline::new(
        vec![one_source()],
        vec![TaggedTransform { plugin_name: String::from("plugin-t") }],
        vec![
            TaggedOutput { plugin_name: String::from("plugin-o1") },
            TaggedOutput { plugin_name: String::from("plugin-o2") },
        ],
    );
    let mut ctrl = pending.start();

    assert_eq!(ctrl.output_receivers.len(), 2);
    assert_eq!(ctrl.source_slots.len(), 1);
    assert_eq!(ctrl.output_slots.len(), 2);
    assert!(!ctrl.uses_priority);

    // Every source slot is preloaded with its mandatory initial trigger.
    let first = ctrl.source_slots[0].borrow();
    assert!(matches!(
        first,
        SourceCmd::SetTrigger(Some(SourceTriggerProvider::TimeInterval {
            start_time: 0,
            poll_interval: 1_000,
            flush_interval: 2_000,
        }))
    ));

    // The very first batch published is received by every output: no batch
    // is lost to a missing subscriber at startup.
    let chain = TransformChain::new(0);
    assert_eq!(finish_batch(&chain, batch_of(&[42]), &mut ctrl.broadcast), Ok(()));
    let mut receivers = std::mem::take(&mut ctrl.output_receivers);
    for rcv in receivers.iter_mut() {
        match rcv.recv(&ctrl.broadcast) {
            BroadcastRecv::Received(b) => assert_eq!(b.get(0), 42),
            _ => panic!("an output subscribed at startup receives the first batch"),
        }
    }
}

#[test]
fn priority_pool_is_built_exactly_when_asked_for() {
    let mut realtime = one_source();
    realtime.source_type = SourceType::RealtimePriority;
    let mut pending = PendingPipeline::new(
        vec![one_source(), realtime],
        vec![],
        vec![TaggedOutput { plugin_name: String::from("plugin-o") }],
    );
    pending.normal_worker_threads(2);
    pending.priority_worker_threads(1);
    let ctrl = pending.start();
    assert!(ctrl.uses_priority);
    assert_eq!(ctrl.normal_worker_threads, Some(2));
    assert_eq!(ctrl.priority_worker_threads, Some(1));
}

#[test]
fn commands_reach_every_source_and_output() {
    let pending = PendingPipeline::new(
        vec![one_source(), one_source()],
        vec![],
        vec![
            TaggedOutput { plugin_name: String::from("plugin-o1") },
            TaggedOutput { plugin_name: String::from("plugin-o2") },
        ],
    );
    let mut ctrl = pending.start();

    ctrl.command_all_sources(SourceCmd::Pause);
    for slot in ctrl.source_slots.iter() {
        assert!(slot.has_changed());
        assert!(matches!(slot.borrow(), SourceCmd::Pause));
    }

    ctrl.command_all_outputs(OutputCmd::Stop);
    for slot in ctrl.output_slots.iter() {
        assert!(slot.has_changed());
        assert_eq!(slot.borrow(), OutputCmd::Stop);
    }
}

#[test]
fn shutdown_awaits_sources_then_transform_then_outputs() {
    let pending = PendingPipeline::new(
        vec![one_source(), one_source()],
        vec![TaggedTransform { plugin_name: String::from("plugin-t") }],
        vec![
            TaggedOutput { plugin_name: String::from("plugin-o1") },
            TaggedOutput { plugin_name: String::from("plugin-o2") },
            TaggedOutput { plugin_name: String::from("plugin-o3") },
        ],
    );
    let ctrl = pending.start();
    let plan = ctrl.shutdown_plan();
    assert_eq!(
        plan,
        vec![
            PipelineTask::Source(0),
            PipelineTask::Source(1),
            PipelineTask::Transform,
            PipelineTask::Output(0),
            PipelineTask::Output(1),
            PipelineTask::Output(2),
        ]
    );
}
