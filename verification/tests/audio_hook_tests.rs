use clip_engine::audio_hook::{
    HookChange, InstanceId, NormalAudioHookTask, RealearnAudioHook, FEEDBACK_TASK_BULK_SIZE,
};
use clip_engine::channel::take_within_budget;

type Hook = RealearnAudioHook<&'static str, u8, u32>;
type Task = NormalAudioHookTask<&'static str, u8>;

fn hook() -> (Hook, crossbeam_channel::Sender<Task>, crossbeam_channel::Sender<u32>) {
    let (normal_sender, normal_receiver) = crossbeam_channel::bounded(10);
    let (feedback_sender, feedback_receiver) = crossbeam_channel::bounded(2000);
    (RealearnAudioHook::new(normal_receiver, feedback_receiver), normal_sender, feedback_sender)
}

fn instances(hook: &Hook) -> Vec<u64> {
    (0..hook.processor_count()).map(|i| hook.instance_at(i).unwrap().0).collect()
}

fn is_added(change: &HookChange<&'static str, u8>, id: u64, processor: &str) -> bool {
    matches!(change, HookChange::Added(InstanceId(i), p) if *i == id && *p == processor)
}

#[test]
fn a_new_hook_has_no_processors() {
    let (hook, _, _) = hook();
    assert_eq!(hook.processor_count(), 0);
    assert_eq!(hook.instance_at(0), None);
    assert_eq!(hook.position_of(InstanceId(1)), None);
    assert!(!hook.is_learning());
}

#[test]
fn processors_are_added_in_order_and_removed_by_swapping() {
    let (mut hook, _, _) = hook();
    for (id, name) in [(10, "a"), (20, "b"), (30, "c"), (20, "d"), (40, "e")] {
        let change = hook.apply_task(NormalAudioHookTask::AddRealTimeProcessor(InstanceId(id),
            name));
        assert!(is_added(&change, id, name));
    }
    assert_eq!(instances(&hook), vec![10, 20, 30, 20, 40]);
    assert_eq!(hook.position_of(InstanceId(20)), Some(1));
    assert_eq!(hook.position_of(InstanceId(40)), Some(4));
    assert_eq!(hook.instance_at(2), Some(InstanceId(30)));
    assert_eq!(hook.instance_at(5), None);
    // The first processor of the instance goes, and the last takes its place.
    let change = hook.apply_task(NormalAudioHookTask::RemoveRealTimeProcessor(InstanceId(20)));
    assert!(matches!(change, HookChange::Removed { id: InstanceId(20), position: 1 }));
    assert_eq!(instances(&hook), vec![10, 40, 30, 20]);
    let change = hook.apply_task(NormalAudioHookTask::RemoveRealTimeProcessor(InstanceId(20)));
    assert!(matches!(change, HookChange::Removed { id: InstanceId(20), position: 3 }));
    assert_eq!(instances(&hook), vec![10, 40, 30]);
    let change = hook.apply_task(NormalAudioHookTask::RemoveRealTimeProcessor(InstanceId(20)));
    assert!(matches!(change, HookChange::Missing(InstanceId(20))));
    assert_eq!(instances(&hook), vec![10, 40, 30]);
}

#[test]
fn learning_is_switched_by_tasks() {
    let (mut hook, _, _) = hook();
    let change = hook.apply_task(NormalAudioHookTask::StartLearningSources(7));
    assert!(matches!(change, HookChange::LearningStarted(7)));
    assert!(hook.is_learning());
    let change = hook.apply_task(NormalAudioHookTask::StopLearningSources);
    assert!(matches!(change, HookChange::LearningStopped));
    assert!(!hook.is_learning());
}

#[test]
fn one_task_is_applied_per_cycle() {
    let (mut hook, sender, _) = hook();
    sender.try_send(NormalAudioHookTask::AddRealTimeProcessor(InstanceId(1), "a")).unwrap();
    sender.try_send(NormalAudioHookTask::AddRealTimeProcessor(InstanceId(2), "b")).unwrap();
    let mut now = 0;
    let mut cycle = |hook: &mut Hook| {
        now += 10;
        hook.call(false, now).unwrap().done().done()
    };
    let phase = cycle(&mut hook);
    let changes = hook.process_add_remove_tasks(phase);
    assert_eq!(changes.len(), 1);
    assert!(is_added(&changes[0], 1, "a"));
    assert_eq!(instances(&hook), vec![1]);
    let phase = cycle(&mut hook);
    let changes = hook.process_add_remove_tasks(phase);
    assert_eq!(changes.len(), 1);
    assert!(is_added(&changes[0], 2, "b"));
    let phase = cycle(&mut hook);
    assert!(hook.process_add_remove_tasks(phase).is_empty());
    assert_eq!(instances(&hook), vec![1, 2]);
}

#[test]
fn feedback_tasks_come_in_order_within_the_budget() {
    let (mut hook, _, sender) = hook();
    for i in 0..1500u32 {
        sender.try_send(i).unwrap();
    }
    let mut phase = hook.call(false, 1).unwrap();
    let mut taken = vec![];
    while let Some(task) = hook.take_feedback_task(&mut phase) {
        taken.push(task);
    }
    assert_eq!(taken.len(), FEEDBACK_TASK_BULK_SIZE);
    assert_eq!(taken, (0..1000u32).collect::<Vec<_>>());
    assert_eq!(hook.take_feedback_task(&mut phase), None);
    // The rest stays for the next cycle.
    let mut phase = hook.call(false, 2).unwrap();
    let mut rest = vec![];
    while let Some(task) = hook.take_feedback_task(&mut phase) {
        rest.push(task);
    }
    assert_eq!(rest, (1000..1500u32).collect::<Vec<_>>());
    assert!(!phase.done().might_be_rebirth());
}

#[test]
fn rebirth_is_suspected_after_more_than_a_second() {
    let (mut hook, _, _) = hook();
    let mut rebirth = |is_post: bool, now: u64| {
        hook.call(is_post, now).map(|phase| phase.done().might_be_rebirth())
    };
    assert_eq!(rebirth(true, 5), None);
    assert_eq!(rebirth(false, 1_000), Some(false));
    // The call after the audio was processed does not count as a cycle.
    assert_eq!(rebirth(true, 9_000_000), None);
    assert_eq!(rebirth(false, 1_001_000), Some(false));
    assert_eq!(rebirth(false, 2_001_001), Some(true));
    assert_eq!(rebirth(false, 2_001_000), Some(false));
    assert_eq!(rebirth(false, u64::MAX), Some(true));
}

#[test]
fn a_drain_stops_at_its_budget() {
    let (sender, receiver) = crossbeam_channel::bounded(100);
    for i in 0..50 {
        sender.try_send(i).unwrap();
    }
    assert_eq!(take_within_budget(&receiver, 32), (0..32).collect::<Vec<_>>());
    assert_eq!(take_within_budget(&receiver, 0), Vec::<i32>::new());
    assert_eq!(take_within_budget(&receiver, 32), (32..50).collect::<Vec<_>>());
    assert!(take_within_budget(&receiver, 32).is_empty());
}

#[test]
fn the_list_grows_beyond_what_it_holds_in_place() {
    let (mut hook, _, _) = hook();
    for id in 0..1000u64 {
        let change = hook.apply_task(NormalAudioHookTask::AddRealTimeProcessor(InstanceId(id), "p"));
        assert!(matches!(change, HookChange::Added(InstanceId(i), "p") if i == id));
    }
    assert_eq!(hook.processor_count(), 1000);
    assert_eq!(hook.instance_at(999), Some(InstanceId(999)));
    assert_eq!(hook.position_of(InstanceId(256)), Some(256));
    let change = hook.apply_task(NormalAudioHookTask::RemoveRealTimeProcessor(InstanceId(0)));
    assert!(matches!(change, HookChange::Removed { id: InstanceId(0), position: 0 }));
    assert_eq!(hook.instance_at(0), Some(InstanceId(999)));
    assert_eq!(hook.processor_count(), 999);
}
