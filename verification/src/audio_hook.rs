//! The part of the audio callback that keeps the list of real-time
//! processors: once per cycle it learns whether the audio engine may have
//! been asleep, hands out the feedback tasks that have come, and applies the
//! tasks that add and remove processors, each kind within its budget. The
//! processors themselves stay with the caller; the list holds their
//! instances in the order in which they are driven.
use crate::channel::try_receive;
use vstd::prelude::*;

verus! {

/// How many tasks that add or remove processors one cycle applies.
pub const AUDIO_HOOK_TASK_BULK_SIZE: usize = 1;

/// How many feedback tasks one cycle hands out.
pub const FEEDBACK_TASK_BULK_SIZE: usize = 1000;

/// After how many microseconds without a cycle the audio engine may have
/// been asleep.
pub const REBIRTH_GAP_MICROS: u64 = 1_000_000;

/// An instance of the plug-in.
#[derive(Copy, Clone, PartialEq, Eq, Debug)]
pub struct InstanceId(pub u64);

/// A list of instance numbers that lives in place while it is short.
#[verifier::external_body]
pub struct InstanceList {
    ids: smallvec::SmallVec<[u64; 256]>,
}

/// The numbers in a list, in their order.
pub uninterp spec fn listed(list: InstanceList) -> Seq<u64>;

/// `SmallVec::new`: a list without numbers.
#[verifier::external_body]
fn new_list() -> (list: InstanceList)
    ensures
        listed(list) == Seq::<u64>::empty(),
{
    InstanceList { ids: smallvec::SmallVec::new() }
}

/// `SmallVec::len`: how many numbers the list holds.
#[verifier::external_body]
fn list_len(list: &InstanceList) -> (len: usize)
    ensures
        len == listed(*list).len(),
{
    list.ids.len()
}

/// Indexing a `SmallVec`: the number at a place that the list has.
#[verifier::external_body]
fn list_get(list: &InstanceList, index: usize) -> (id: u64)
    requires
        index < listed(*list).len(),
    ensures
        id == listed(*list)[index as int],
{
    list.ids[index]
}

/// `SmallVec::push`: appends a number. The list grows as it has to; it
/// fails only where memory or the range of lengths runs out.
#[verifier::external_body]
fn list_push(list: &mut InstanceList, id: u64)
    ensures
        listed(*final(list)) == listed(*old(list)).push(id),
{
    list.ids.push(id)
}

/// `SmallVec::swap_remove`: takes the number at a place that the list has
/// out and puts the last number in its place.
#[verifier::external_body]
fn list_swap_remove(list: &mut InstanceList, index: usize) -> (id: u64)
    requires
        index < listed(*old(list)).len(),
    ensures
        id == listed(*old(list))[index as int],
        listed(*final(list)) == listed(*old(list)).update(
            index as int,
            listed(*old(list)).last(),
        ).drop_last(),
{
    list.ids.swap_remove(index)
}

/// A task that is always applied, however late. `P` is what it takes to
/// drive a processor, `L` where learned sources go.
pub enum NormalAudioHookTask<P, L> {
    /// The instance comes first, so that nobody has to look into the
    /// processor for it.
    AddRealTimeProcessor(InstanceId, P),
    RemoveRealTimeProcessor(InstanceId),
    StartLearningSources(L),
    StopLearningSources,
}

/// What a task did, for the caller to do the same with the processors that
/// it keeps.
pub enum HookChange<P, L> {
    /// The processor was appended to the list.
    Added(InstanceId, P),
    /// The processor at `position` was taken out and the last put in its
    /// place.
    Removed { id: InstanceId, position: usize },
    /// No processor of that instance is in the list.
    Missing(InstanceId),
    LearningStarted(L),
    LearningStopped,
}

/// What a hook is, as contracts speak of it.
pub struct HookView {
    /// Whether sources are being learned.
    pub learning: bool,
    /// The instances of the processors, in the order in which they are
    /// driven.
    pub instances: Seq<u64>,
    /// When the last cycle began, in microseconds.
    pub time_of_last_run: Option<u64>,
}

/// The first place of `id` among the first `count` numbers, if it is among
/// them.
pub open spec fn first_position(ids: Seq<u64>, id: u64, count: nat) -> Option<nat>
    decreases count,
{
    if count == 0 {
        None
    } else {
        match first_position(ids, id, (count - 1) as nat) {
            Some(position) => Some(position),
            None => if ids[count - 1] == id {
                Some((count - 1) as nat)
            } else {
                None
            },
        }
    }
}

/// Whether the audio engine may have been asleep before a cycle that begins
/// at `now`: it may where the cycle before began more than a second earlier.
pub open spec fn rebirth_suspected(time_of_last_run: Option<u64>, now_micros: u64) -> bool {
    match time_of_last_run {
        Some(last) => now_micros - last > REBIRTH_GAP_MICROS,
        None => false,
    }
}

impl HookView {
    /// The hook after a task.
    pub open spec fn after_task<P, L>(self, task: NormalAudioHookTask<P, L>) -> Self {
        match task {
            NormalAudioHookTask::AddRealTimeProcessor(id, _) => HookView {
                instances: self.instances.push(id.0),
                ..self
            },
            NormalAudioHookTask::RemoveRealTimeProcessor(id) => match first_position(
                self.instances,
                id.0,
                self.instances.len(),
            ) {
                Some(position) => HookView {
                    instances: self.instances.update(
                        position as int,
                        self.instances.last(),
                    ).drop_last(),
                    ..self
                },
                None => self,
            },
            NormalAudioHookTask::StartLearningSources(_) => HookView { learning: true, ..self },
            NormalAudioHookTask::StopLearningSources => HookView { learning: false, ..self },
        }
    }

    /// What a task did.
    pub open spec fn change_of<P, L>(self, task: NormalAudioHookTask<P, L>) -> HookChange<P, L> {
        match task {
            NormalAudioHookTask::AddRealTimeProcessor(id, processor) => HookChange::Added(
                id,
                processor,
            ),
            NormalAudioHookTask::RemoveRealTimeProcessor(id) => match first_position(
                self.instances,
                id.0,
                self.instances.len(),
            ) {
                Some(position) => HookChange::Removed { id, position: position as usize },
                None => HookChange::Missing(id),
            },
            NormalAudioHookTask::StartLearningSources(sender) => HookChange::LearningStarted(
                sender,
            ),
            NormalAudioHookTask::StopLearningSources => HookChange::LearningStopped,
        }
    }

    /// The hook after the tasks, one after the other.
    pub open spec fn after_tasks<P, L>(self, tasks: Seq<NormalAudioHookTask<P, L>>) -> Self
        decreases tasks.len(),
    {
        if tasks.len() == 0 {
            self
        } else {
            self.after_tasks(tasks.drop_last()).after_task(tasks.last())
        }
    }

    /// What the tasks did, one after the other.
    pub open spec fn changes_of<P, L>(self, tasks: Seq<NormalAudioHookTask<P, L>>) -> Seq<
        HookChange<P, L>,
    >
        decreases tasks.len(),
    {
        if tasks.len() == 0 {
            Seq::empty()
        } else {
            self.changes_of(tasks.drop_last()).push(
                self.after_tasks(tasks.drop_last()).change_of(tasks.last()),
            )
        }
    }
}

/// The first place of a number is a place of the list that holds it, and no
/// place before it does. Where there is none, the list does not hold the
/// number.
pub proof fn first_position_is_first(ids: Seq<u64>, id: u64, count: nat)
    requires
        count <= ids.len(),
    ensures
        match first_position(ids, id, count) {
            Some(position) => position < count && ids[position as int] == id && forall|i: int|
                0 <= i < position ==> ids[i] != id,
            None => forall|i: int| 0 <= i < count ==> ids[i] != id,
        },
    decreases count,
{
    if count > 0 {
        first_position_is_first(ids, id, (count - 1) as nat);
    }
}

/// The first part of a cycle: the feedback tasks are handed out.
#[derive(Debug)]
pub struct FeedbackPhase {
    might_be_rebirth: bool,
    taken: usize,
}

/// The second part of a cycle: the processors are driven.
#[derive(Debug)]
pub struct ProcessorPhase {
    might_be_rebirth: bool,
}

/// The last part of a cycle: processors are added and removed, so that a
/// processor that is about to go has been driven once more.
#[derive(Debug)]
pub struct TaskPhase {}

impl FeedbackPhase {
    #[verifier::type_invariant]
    spec fn within_budget(&self) -> bool {
        self.taken <= FEEDBACK_TASK_BULK_SIZE
    }

    /// Whether the audio engine may have been asleep before the cycle.
    pub closed spec fn rebirth(&self) -> bool {
        self.might_be_rebirth
    }

    /// How many feedback tasks the cycle has handed out.
    pub closed spec fn taken(&self) -> nat {
        self.taken as nat
    }

    /// Goes on to the processors.
    pub fn done(self) -> (next: ProcessorPhase)
        ensures
            next.rebirth() == self.rebirth(),
    {
        ProcessorPhase { might_be_rebirth: self.might_be_rebirth }
    }
}

impl ProcessorPhase {
    /// Whether the audio engine may have been asleep before the cycle.
    pub closed spec fn rebirth(&self) -> bool {
        self.might_be_rebirth
    }

    /// Whether the audio engine may have been asleep before the cycle.
    pub fn might_be_rebirth(&self) -> (rebirth: bool)
        ensures
            rebirth == self.rebirth(),
    {
        self.might_be_rebirth
    }

    /// Goes on to the tasks that add and remove processors.
    pub fn done(self) -> TaskPhase {
        TaskPhase {  }
    }
}

/// The audio hook.
#[verifier::reject_recursive_types(P)]
#[verifier::reject_recursive_types(L)]
#[verifier::reject_recursive_types(F)]
pub struct RealearnAudioHook<P, L, F> {
    learning: bool,
    instances: InstanceList,
    normal_task_receiver: crossbeam_channel::Receiver<NormalAudioHookTask<P, L>>,
    feedback_task_receiver: crossbeam_channel::Receiver<F>,
    time_of_last_run: Option<u64>,
}

impl<P, L, F> View for RealearnAudioHook<P, L, F> {
    type V = HookView;

    closed spec fn view(&self) -> HookView {
        HookView {
            learning: self.learning,
            instances: listed(self.instances),
            time_of_last_run: self.time_of_last_run,
        }
    }
}

impl<P, L, F> RealearnAudioHook<P, L, F> {
    /// A hook without processors that has not run yet.
    pub fn new(
        normal_task_receiver: crossbeam_channel::Receiver<NormalAudioHookTask<P, L>>,
        feedback_task_receiver: crossbeam_channel::Receiver<F>,
    ) -> (hook: Self)
        ensures
            hook@ == (HookView {
                learning: false,
                instances: Seq::empty(),
                time_of_last_run: None,
            }),
    {
        RealearnAudioHook {
            learning: false,
            instances: new_list(),
            normal_task_receiver,
            feedback_task_receiver,
            time_of_last_run: None,
        }
    }

    /// Begins a cycle at `now_micros`, unless the call comes after the
    /// audio was processed. The cycle begins with its feedback tasks.
    pub fn call(&mut self, is_post: bool, now_micros: u64) -> (cycle: Option<FeedbackPhase>)
        ensures
            is_post ==> cycle is None && final(self)@ == old(self)@,
            !is_post ==> cycle is Some && cycle->Some_0.rebirth() == rebirth_suspected(
                old(self)@.time_of_last_run,
                now_micros,
            ) && cycle->Some_0.taken() == 0 && final(self)@ == (HookView {
                time_of_last_run: Some(now_micros),
                ..old(self)@
            }),
    {
        if is_post {
            return None;
        }
        let might_be_rebirth = match self.time_of_last_run {
            Some(last) => now_micros > last && now_micros - last > REBIRTH_GAP_MICROS,
            None => false,
        };
        self.time_of_last_run = Some(now_micros);
        Some(FeedbackPhase { might_be_rebirth, taken: 0 })
    }

    /// Whether sources are being learned.
    pub fn is_learning(&self) -> (learning: bool)
        ensures
            learning == self@.learning,
    {
        self.learning
    }

    /// How many processors are in the list.
    pub fn processor_count(&self) -> (count: usize)
        ensures
            count == self@.instances.len(),
    {
        list_len(&self.instances)
    }

    /// The instance of the processor at a place of the list.
    pub fn instance_at(&self, position: usize) -> (id: Option<InstanceId>)
        ensures
            id == if position < self@.instances.len() {
                Some(InstanceId(self@.instances[position as int]))
            } else {
                None
            },
    {
        if position < list_len(&self.instances) {
            Some(InstanceId(list_get(&self.instances, position)))
        } else {
            None
        }
    }

    /// The first place of the instance's processor in the list.
    pub fn position_of(&self, id: InstanceId) -> (position: Option<usize>)
        ensures
            match first_position(self@.instances, id.0, self@.instances.len()) {
                Some(first) => position == Some(first as usize),
                None => position is None,
            },
    {
        let count = list_len(&self.instances);
        let mut i: usize = 0;
        while i < count
            invariant
                i <= count,
                count == listed(self.instances).len(),
                first_position(listed(self.instances), id.0, i as nat) is None,
            decreases count - i,
        {
            if list_get(&self.instances, i) == id.0 {
                proof {
                    lemma_first_position_stays(listed(self.instances), id.0, (i + 1) as nat,
                        count as nat);
                }
                return Some(i);
            }
            i += 1;
        }
        None
    }

    /// The next feedback task, if one has come and the cycle has not handed
    /// out its budget yet. Tasks come out in the order in which they came
    /// in.
    pub fn take_feedback_task(&self, phase: &mut FeedbackPhase) -> (task: Option<F>)
        ensures
            final(phase).rebirth() == old(phase).rebirth(),
            task is Some ==> old(phase).taken() < FEEDBACK_TASK_BULK_SIZE && final(phase).taken()
                == old(phase).taken() + 1,
            task is None ==> final(phase).taken() == old(phase).taken(),
            final(phase).taken() <= FEEDBACK_TASK_BULK_SIZE,
    {
        proof {
            use_type_invariant(&*phase);
        }
        if phase.taken >= FEEDBACK_TASK_BULK_SIZE {
            None
        } else {
            let task = try_receive(&self.feedback_task_receiver);
            if task.is_some() {
                phase.taken = phase.taken + 1;
            }
            task
        }
    }

    /// Applies a task to the list and to the learning state, and says what
    /// it did.
    pub fn apply_task(&mut self, task: NormalAudioHookTask<P, L>) -> (change: HookChange<P, L>)
        ensures
            final(self)@ == old(self)@.after_task(task),
            change == old(self)@.change_of(task),
    {
        match task {
            NormalAudioHookTask::AddRealTimeProcessor(id, processor) => {
                list_push(&mut self.instances, id.0);
                HookChange::Added(id, processor)
            },
            NormalAudioHookTask::RemoveRealTimeProcessor(id) => {
                let count = list_len(&self.instances);
                proof {
                    first_position_is_first(
                        listed(self.instances),
                        id.0,
                        listed(self.instances).len(),
                    );
                }
                match self.position_of(id) {
                    Some(position) => {
                        let _ = list_swap_remove(&mut self.instances, position);
                        HookChange::Removed { id, position }
                    },
                    None => HookChange::Missing(id),
                }
            },
            NormalAudioHookTask::StartLearningSources(sender) => {
                self.learning = true;
                HookChange::LearningStarted(sender)
            },
            NormalAudioHookTask::StopLearningSources => {
                self.learning = false;
                HookChange::LearningStopped
            },
        }
    }

    /// Ends a cycle: applies the tasks that have come, up to the budget of a
    /// cycle, in the order in which they came, and says what they did. Which
    /// tasks there are is for their senders to say.
    pub fn process_add_remove_tasks(&mut self, phase: TaskPhase) -> (changes: Vec<
        HookChange<P, L>,
    >)
        ensures
            exists|tasks: Seq<NormalAudioHookTask<P, L>>|
                tasks.len() <= AUDIO_HOOK_TASK_BULK_SIZE
                    && final(self)@ == #[trigger] old(self)@.after_tasks(tasks)
                        && changes@ == old(self)@.changes_of(tasks),
    {
        let mut changes: Vec<HookChange<P, L>> = Vec::new();
        let ghost mut tasks: Seq<NormalAudioHookTask<P, L>> = Seq::empty();
        let mut taken: usize = 0;
        while taken < AUDIO_HOOK_TASK_BULK_SIZE
            invariant
                taken <= AUDIO_HOOK_TASK_BULK_SIZE,
                tasks.len() == taken,
                self@ == old(self)@.after_tasks(tasks),
                changes@ == old(self)@.changes_of(tasks),
            decreases AUDIO_HOOK_TASK_BULK_SIZE - taken,
        {
            match try_receive(&self.normal_task_receiver) {
                Some(task) => {
                    proof {
                        assert(tasks.push(task).drop_last() =~= tasks);
                        tasks = tasks.push(task);
                    }
                    let change = self.apply_task(task);
                    changes.push(change);
                },
                None => {
                    break ;
                },
            }
            taken += 1;
        }
        changes
    }
}

proof fn lemma_first_position_stays(ids: Seq<u64>, id: u64, found: nat, count: nat)
    requires
        found <= count,
        first_position(ids, id, found) is Some,
    ensures
        first_position(ids, id, count) == first_position(ids, id, found),
    decreases count,
{
    if count > found {
        lemma_first_position_stays(ids, id, found, (count - 1) as nat);
    }
}

} // verus!
