use vstd::prelude::*;
use crate::broadcast::BroadcastChannel;
use crate::broadcast::BroadcastReceiver;
use crate::control::CommandSlot;
use crate::control::OutputCmd;
use crate::control::SourceCmd;
use crate::output::TaggedOutput;
use crate::queue::InputQueue;
use crate::source::SourceType;
use crate::source::TaggedSource;
use crate::transform::TaggedTransform;

verus! {

/// Fixed capacity of the bounded queue from the sources to the transform
/// stage.
pub const INPUT_QUEUE_CAPACITY: usize = 256;

/// Fixed retained history of the broadcast channel from the transform stage
/// to the outputs.
pub const BROADCAST_HISTORY: usize = 256;

/// The declared, not-yet-running elements of a pipeline.
struct PipelineElements {
    sources: Vec<TaggedSource>,
    transforms: Vec<TaggedTransform>,
    outputs: Vec<TaggedOutput>,
}

/// Thread-pool sizing; an absent count leaves the choice to the runtime.
struct PipelineParameters {
    normal_worker_threads: Option<usize>,
    priority_worker_threads: Option<usize>,
}

/// A builder for measurement pipelines: collects the declared elements and
/// parameters, then assembles them into a live, controllable topology.
pub struct PendingPipeline {
    elements: PipelineElements,
    params: PipelineParameters,
}

/// One task of a running pipeline, as shutdown refers to it.
#[derive(Clone, Copy, PartialEq, Eq, Structural, Debug)]
pub enum PipelineTask {
    /// The polling task of the source at this position.
    Source(usize),
    /// The single transform task.
    Transform,
    /// The consuming task of the output at this position.
    Output(usize),
}

/// The live handle on a started pipeline: the two transports, one command
/// slot per source and per output, and the metadata of every element.
///
/// The controller is the single owner of the pipeline's command side for its
/// whole lifetime — every source and output keeps exactly one slot from
/// start to stop — and the only sanctioned way to observe termination is its
/// shutdown plan, awaited to the end.
pub struct PipelineController {
    /// The bounded queue every source flushes into.
    pub input_queue: InputQueue,
    /// The broadcast channel the transform stage publishes to.
    pub broadcast: BroadcastChannel,
    /// One subscription per output, all taken before any source could emit.
    pub output_receivers: Vec<BroadcastReceiver>,
    /// One latest-value command slot per source.
    pub source_slots: Vec<CommandSlot<SourceCmd>>,
    /// One latest-value command slot per output.
    pub output_slots: Vec<CommandSlot<OutputCmd>>,
    /// The declared sources, in position order.
    pub sources: Vec<TaggedSource>,
    /// The declared transform chain, in application order.
    pub transforms: Vec<TaggedTransform>,
    /// The declared outputs, in position order.
    pub outputs: Vec<TaggedOutput>,
    /// Whether any source asked for the elevated-priority worker pool.
    pub uses_priority: bool,
    /// Requested size of the normal worker pool.
    pub normal_worker_threads: Option<usize>,
    /// Requested size of the elevated-priority worker pool.
    pub priority_worker_threads: Option<usize>,
}

impl PendingPipeline {
    /// The declared sources, in position order.
    pub closed spec fn sources(self) -> Seq<TaggedSource> {
        self.elements.sources@
    }

    /// The declared transforms, in application order.
    pub closed spec fn transforms(self) -> Seq<TaggedTransform> {
        self.elements.transforms@
    }

    /// The declared outputs, in position order.
    pub closed spec fn outputs(self) -> Seq<TaggedOutput> {
        self.elements.outputs@
    }

    /// Requested size of the normal worker pool.
    pub closed spec fn spec_normal_worker_threads(self) -> Option<usize> {
        self.params.normal_worker_threads
    }

    /// Requested size of the elevated-priority worker pool.
    pub closed spec fn spec_priority_worker_threads(self) -> Option<usize> {
        self.params.priority_worker_threads
    }

    /// Declares a pipeline over these elements, with the thread-pool sizes
    /// left to the runtime.
    pub fn new(
        sources: Vec<TaggedSource>,
        transforms: Vec<TaggedTransform>,
        outputs: Vec<TaggedOutput>,
    ) -> (r: PendingPipeline)
        ensures
            r.sources() == sources@,
            r.transforms() == transforms@,
            r.outputs() == outputs@,
            r.spec_normal_worker_threads() is None,
            r.spec_priority_worker_threads() is None,
    {
        PendingPipeline {
            elements: PipelineElements { sources, transforms, outputs },
            params: PipelineParameters {
                normal_worker_threads: None,
                priority_worker_threads: None,
            },
        }
    }

    /// Requests this many worker threads for the normal pool.
    pub fn normal_worker_threads(&mut self, n: usize)
        ensures
            final(self).spec_normal_worker_threads() == Some(n),
            final(self).spec_priority_worker_threads() == old(
                self,
            ).spec_priority_worker_threads(),
            final(self).sources() == old(self).sources(),
            final(self).transforms() == old(self).transforms(),
            final(self).outputs() == old(self).outputs(),
    {
        self.params.normal_worker_threads = Some(n);
    }

    /// Requests this many worker threads for the elevated-priority pool.
    pub fn priority_worker_threads(&mut self, n: usize)
        ensures
            final(self).spec_priority_worker_threads() == Some(n),
            final(self).spec_normal_worker_threads() == old(self).spec_normal_worker_threads(),
            final(self).sources() == old(self).sources(),
            final(self).transforms() == old(self).transforms(),
            final(self).outputs() == old(self).outputs(),
    {
        self.params.priority_worker_threads = Some(n);
    }

    /// Assembles the pipeline into a live topology, wired back to front so
    /// that every consumer exists before anything can produce: both
    /// transports are created empty, every output is subscribed to the
    /// broadcast channel while nothing was ever published, and only then is
    /// each source issued its command slot, already holding the mandatory
    /// initial `SetTrigger` with that source's own trigger configuration.
    /// The elevated-priority pool is called for exactly when some source asks
    /// for it.
    pub fn start(self) -> (r: PipelineController)
        ensures
            r.sources@ == self.sources(),
            r.transforms@ == self.transforms(),
            r.outputs@ == self.outputs(),
            r.normal_worker_threads == self.spec_normal_worker_threads(),
            r.priority_worker_threads == self.spec_priority_worker_threads(),
            r.uses_priority == exists|k: int|
                0 <= k < self.sources().len() && self.sources()[k].source_type
                    == SourceType::RealtimePriority,
            r.input_queue.wf(),
            r.input_queue.batches() == Seq::<crate::measurement::MeasurementBuffer>::empty(),
            r.input_queue.capacity() == INPUT_QUEUE_CAPACITY,
            !r.input_queue.is_closed(),
            r.broadcast.wf(),
            r.broadcast.next_seq() == 0,
            r.broadcast.capacity() == BROADCAST_HISTORY,
            r.broadcast.receiver_count() == self.outputs().len(),
            !r.broadcast.is_closed(),
            r.output_receivers@.len() == self.outputs().len(),
            forall|i: int|
                0 <= i < r.output_receivers@.len() ==> #[trigger] r.output_receivers@[i].next()
                    == 0,
            r.output_slots@.len() == self.outputs().len(),
            forall|i: int|
                0 <= i < r.output_slots@.len() ==> (#[trigger] r.output_slots@[i]).value()
                    == OutputCmd::Run && !r.output_slots@[i].is_changed(),
            r.source_slots@.len() == self.sources().len(),
            forall|i: int|
                0 <= i < r.source_slots@.len() ==> (#[trigger] r.source_slots@[i]).value()
                    == SourceCmd::SetTrigger(Some(self.sources()[i].trigger_provider))
                    && !r.source_slots@[i].is_changed(),
    {
        let PendingPipeline { elements, params } = self;
        let PipelineElements { sources, transforms, outputs } = elements;

        // Does any source call for the elevated-priority pool?
        let n_sources = sources.len();
        let mut uses_priority = false;
        let mut i: usize = 0;
        while i < n_sources
            invariant
                i <= n_sources,
                n_sources == sources@.len(),
                uses_priority == exists|k: int|
                    0 <= k < i && sources@[k].source_type == SourceType::RealtimePriority,
            decreases n_sources - i,
        {
            if sources[i].source_type == SourceType::RealtimePriority {
                uses_priority = true;
            }
            i = i + 1;
        }

        // Both transports, created empty.
        let input_queue = InputQueue::new(INPUT_QUEUE_CAPACITY);
        let mut broadcast = BroadcastChannel::new(BROADCAST_HISTORY);

        // Outputs first: subscribe each one while nothing was published yet.
        let n_outputs = outputs.len();
        let mut output_receivers: Vec<BroadcastReceiver> = Vec::new();
        let mut output_slots: Vec<CommandSlot<OutputCmd>> = Vec::new();
        let mut j: usize = 0;
        while j < n_outputs
            invariant
                j <= n_outputs,
                broadcast.wf(),
                broadcast.next_seq() == 0,
                broadcast.capacity() == BROADCAST_HISTORY,
                broadcast.receiver_count() == j,
                !broadcast.is_closed(),
                output_receivers@.len() == j,
                forall|k: int|
                    0 <= k < j ==> #[trigger] output_receivers@[k].next() == 0,
                output_slots@.len() == j,
                forall|k: int|
                    0 <= k < j ==> (#[trigger] output_slots@[k]).value() == OutputCmd::Run
                        && !output_slots@[k].is_changed(),
            decreases n_outputs - j,
        {
            let receiver = broadcast.subscribe();
            output_receivers.push(receiver);
            output_slots.push(CommandSlot::new(OutputCmd::Run));
            j = j + 1;
        }

        // Sources last: each gets its slot, preloaded with the mandatory
        // initial trigger configuration.
        let mut source_slots: Vec<CommandSlot<SourceCmd>> = Vec::new();
        let mut s: usize = 0;
        while s < n_sources
            invariant
                s <= n_sources,
                n_sources == sources@.len(),
                source_slots@.len() == s,
                forall|k: int|
                    0 <= k < s ==> (#[trigger] source_slots@[k]).value()
                        == SourceCmd::SetTrigger(Some(sources@[k].trigger_provider))
                        && !source_slots@[k].is_changed(),
            decreases n_sources - s,
        {
            let provider = sources[s].trigger_provider;
            source_slots.push(CommandSlot::new(SourceCmd::SetTrigger(Some(provider))));
            s = s + 1;
        }

        PipelineController {
            input_queue,
            broadcast,
            output_receivers,
            source_slots,
            output_slots,
            sources,
            transforms,
            outputs,
            uses_priority,
            normal_worker_threads: params.normal_worker_threads,
            priority_worker_threads: params.priority_worker_threads,
        }
    }
}

impl PipelineController {
    /// Overwrites every source's command slot with `command` — latest value
    /// wins, slot by slot. Nothing else of the pipeline is touched.
    pub fn command_all_sources(&mut self, command: SourceCmd)
        ensures
            final(self).source_slots@.len() == old(self).source_slots@.len(),
            forall|i: int|
                0 <= i < final(self).source_slots@.len()
                    ==> (#[trigger] final(self).source_slots@[i]).value() == command
                    && final(self).source_slots@[i].is_changed(),
            final(self).input_queue == old(self).input_queue,
            final(self).broadcast == old(self).broadcast,
            final(self).output_receivers == old(self).output_receivers,
            final(self).output_slots == old(self).output_slots,
            final(self).sources == old(self).sources,
            final(self).transforms == old(self).transforms,
            final(self).outputs == old(self).outputs,
            final(self).uses_priority == old(self).uses_priority,
            final(self).normal_worker_threads == old(self).normal_worker_threads,
            final(self).priority_worker_threads == old(self).priority_worker_threads,
    {
        let n = self.source_slots.len();
        let mut i: usize = 0;
        while i < n
            invariant
                i <= n,
                n == self.source_slots@.len(),
                forall|t: int|
                    0 <= t < i ==> (#[trigger] self.source_slots@[t]).value() == command
                        && self.source_slots@[t].is_changed(),
                self.input_queue == old(self).input_queue,
                self.broadcast == old(self).broadcast,
                self.output_receivers == old(self).output_receivers,
                self.output_slots == old(self).output_slots,
                self.sources == old(self).sources,
                self.transforms == old(self).transforms,
                self.outputs == old(self).outputs,
                self.uses_priority == old(self).uses_priority,
                self.normal_worker_threads == old(self).normal_worker_threads,
                self.priority_worker_threads == old(self).priority_worker_threads,
            decreases n - i,
        {
            let mut slot = self.source_slots[i];
            slot.send(command);
            self.source_slots.set(i, slot);
            i = i + 1;
        }
    }

    /// Overwrites every output's command slot with `command` — latest value
    /// wins, slot by slot. Nothing else of the pipeline is touched.
    pub fn command_all_outputs(&mut self, command: OutputCmd)
        ensures
            final(self).output_slots@.len() == old(self).output_slots@.len(),
            forall|i: int|
                0 <= i < final(self).output_slots@.len()
                    ==> (#[trigger] final(self).output_slots@[i]).value() == command
                    && final(self).output_slots@[i].is_changed(),
            final(self).input_queue == old(self).input_queue,
            final(self).broadcast == old(self).broadcast,
            final(self).output_receivers == old(self).output_receivers,
            final(self).source_slots == old(self).source_slots,
            final(self).sources == old(self).sources,
            final(self).transforms == old(self).transforms,
            final(self).outputs == old(self).outputs,
            final(self).uses_priority == old(self).uses_priority,
            final(self).normal_worker_threads == old(self).normal_worker_threads,
            final(self).priority_worker_threads == old(self).priority_worker_threads,
    {
        let n = self.output_slots.len();
        let mut i: usize = 0;
        while i < n
            invariant
                i <= n,
                n == self.output_slots@.len(),
                forall|t: int|
                    0 <= t < i ==> (#[trigger] self.output_slots@[t]).value() == command
                        && self.output_slots@[t].is_changed(),
                self.input_queue == old(self).input_queue,
                self.broadcast == old(self).broadcast,
                self.output_receivers == old(self).output_receivers,
                self.source_slots == old(self).source_slots,
                self.sources == old(self).sources,
                self.transforms == old(self).transforms,
                self.outputs == old(self).outputs,
                self.uses_priority == old(self).uses_priority,
                self.normal_worker_threads == old(self).normal_worker_threads,
                self.priority_worker_threads == old(self).priority_worker_threads,
            decreases n - i,
        {
            let mut slot = self.output_slots[i];
            slot.send(command);
            self.output_slots.set(i, slot);
            i = i + 1;
        }
    }

    /// The order in which shutdown awaits the pipeline's tasks: every source
    /// first, then the single transform task, then every output — upstream
    /// before downstream, so a stage is only awaited once nothing can feed it
    /// any more. The plan names every task of the pipeline exactly once;
    /// shutdown is complete only when the whole plan has been awaited to the
    /// end.
    pub fn shutdown_plan(&self) -> (r: Vec<PipelineTask>)
        ensures
            r@.len() == self.source_slots@.len() + 1 + self.output_slots@.len(),
            forall|i: int|
                0 <= i < self.source_slots@.len() ==> r@[i] == PipelineTask::Source(i as usize),
            r@[self.source_slots@.len() as int] == PipelineTask::Transform,
            forall|j: int|
                0 <= j < self.output_slots@.len() ==> #[trigger] r@[self.source_slots@.len() + 1
                    + j] == PipelineTask::Output(j as usize),
    {
        let n_sources = self.source_slots.len();
        let n_outputs = self.output_slots.len();
        let mut plan: Vec<PipelineTask> = Vec::new();
        let mut i: usize = 0;
        while i < n_sources
            invariant
                i <= n_sources,
                plan@.len() == i,
                forall|t: int| 0 <= t < i ==> plan@[t] == PipelineTask::Source(t as usize),
            decreases n_sources - i,
        {
            plan.push(PipelineTask::Source(i));
            i = i + 1;
        }
        plan.push(PipelineTask::Transform);
        let mut j: usize = 0;
        while j < n_outputs
            invariant
                j <= n_outputs,
                plan@.len() == n_sources + 1 + j,
                forall|t: int| 0 <= t < n_sources ==> plan@[t] == PipelineTask::Source(t as usize),
                plan@[n_sources as int] == PipelineTask::Transform,
                forall|t: int|
                    0 <= t < j ==> #[trigger] plan@[n_sources + 1 + t] == PipelineTask::Output(
                        t as usize,
                    ),
            decreases n_outputs - j,
        {
            plan.push(PipelineTask::Output(j));
            j = j + 1;
        }
        plan
    }
}

} // verus!
