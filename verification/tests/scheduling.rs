use till::executor::Executor;
use till::manager::{ArrayTaskManager, StreamingIterator};
use till::marshall::SingleThreadMarshall;
use till::registry::DummyPool;
use till::task::{PollStep, ScriptTask, StatusTask, SuspendableTask, WakeStatus};

#[test]
fn test_single_thread_marshall() {
    let mut marshall = SingleThreadMarshall::new();
    marshall.register(false);
    marshall.wake();
    let flag = marshall.unregister();
    assert!(flag)
}

#[test]
fn wake_is_a_noop_while_unregistered() {
    let mut marshall = SingleThreadMarshall::new();
    marshall.wake();
    let flag = marshall.unregister();
    assert!(!flag);
}

#[test]
fn wake_is_idempotent() {
    let mut marshall = SingleThreadMarshall::new();
    marshall.register(false);
    marshall.wake();
    marshall.wake();
    assert!(marshall.unregister());
}

#[test]
fn script_task_terminates_after_its_polls() {
    let mut task = ScriptTask::new(2, false);
    assert!(!task.is_terminated());
    assert_eq!(task.poll(), PollStep::Pending { woke: false });
    assert_eq!(task.remaining_polls(), 1);
    assert!(!task.is_terminated());
    assert_eq!(task.poll(), PollStep::Done);
    assert!(task.is_terminated());
}

#[test]
fn script_task_reports_its_self_wake() {
    let mut task = ScriptTask::new(3, true);
    assert_eq!(task.poll(), PollStep::Pending { woke: true });
    assert_eq!(task.poll(), PollStep::Pending { woke: true });
    assert_eq!(task.poll(), PollStep::Done);
}

#[test]
fn status_task_starts_woken() {
    let mut wrapped = StatusTask::new(ScriptTask::new(1, false));
    assert_eq!(wrapped.status(), WakeStatus::Woken);
    wrapped.set_status(WakeStatus::Asleep);
    assert_eq!(wrapped.status(), WakeStatus::Asleep);
    assert!(!wrapped.is_terminated());
    assert_eq!(wrapped.poll(), PollStep::Done);
    assert!(wrapped.is_terminated());
}

#[test]
fn conduit_wake_reaches_the_bound_status_cell() {
    let mut wrapped = StatusTask::new(ScriptTask::new(2, false));
    wrapped.set_status(WakeStatus::Asleep);
    let mut marshall = SingleThreadMarshall::new();
    wrapped.bind_conduit(&mut marshall);
    marshall.wake();
    wrapped.unbind_conduit(&mut marshall);
    assert_eq!(wrapped.status(), WakeStatus::Woken);
}

#[test]
fn unbinding_an_unwoken_conduit_leaves_the_task_asleep() {
    let mut wrapped = StatusTask::new(ScriptTask::new(2, false));
    wrapped.set_status(WakeStatus::Asleep);
    let mut marshall = SingleThreadMarshall::new();
    wrapped.bind_conduit(&mut marshall);
    wrapped.unbind_conduit(&mut marshall);
    assert_eq!(wrapped.status(), WakeStatus::Asleep);
}

#[test]
fn manager_get_task_checks_the_index() {
    let slots = vec![StatusTask::new(ScriptTask::new(1, false))];
    let manager = ArrayTaskManager::new(slots);
    assert_eq!(manager.len(), 1);
    assert!(manager.get_task(0).is_some());
    assert!(manager.get_task(1).is_none());
}

#[test]
fn manager_cursor_visits_every_slot_once() {
    let slots = vec![
        StatusTask::new(ScriptTask::new(1, false)),
        StatusTask::new(ScriptTask::new(2, false)),
    ];
    let manager = ArrayTaskManager::new(slots);
    let mut cursor = manager.tasks();
    assert_eq!(cursor.next(), Some(0));
    assert_eq!(cursor.next(), Some(1));
    assert_eq!(cursor.next(), None);
    assert_eq!(cursor.next(), None);
}

#[test]
fn sleep_all_parks_every_task() {
    let slots = vec![
        StatusTask::new(ScriptTask::new(1, false)),
        StatusTask::new(ScriptTask::new(2, true)),
    ];
    let mut manager = ArrayTaskManager::new(slots);
    manager.sleep_all();
    assert_eq!(manager.status(0), WakeStatus::Asleep);
    assert_eq!(manager.status(1), WakeStatus::Asleep);
}

#[test]
fn first_round_polls_every_fresh_task() {
    let slots = vec![
        StatusTask::new(ScriptTask::new(1, false)),
        StatusTask::new(ScriptTask::new(3, false)),
    ];
    let manager = ArrayTaskManager::new(slots);
    let mut executor = Executor::new(manager, DummyPool);
    executor.run_round();
    assert!(executor.manager.is_terminated(0));
    let second = executor.manager.get_task(1).unwrap();
    assert_eq!(second.task.remaining_polls(), 2);
}

#[test]
fn self_waking_task_stays_eligible() {
    let slots = vec![StatusTask::new(ScriptTask::new(3, true))];
    let manager = ArrayTaskManager::new(slots);
    let mut executor = Executor::new(manager, DummyPool);
    executor.run_round();
    assert_eq!(executor.manager.status(0), WakeStatus::Woken);
    executor.run_round();
    let task = executor.manager.get_task(0).unwrap();
    assert_eq!(task.task.remaining_polls(), 1);
}

#[test]
fn task_without_self_wake_goes_asleep() {
    let slots = vec![StatusTask::new(ScriptTask::new(2, false))];
    let manager = ArrayTaskManager::new(slots);
    let mut executor = Executor::new(manager, DummyPool);
    executor.run_round();
    assert_eq!(executor.manager.status(0), WakeStatus::Asleep);
    executor.run_round();
    let task = executor.manager.get_task(0).unwrap();
    assert_eq!(task.task.remaining_polls(), 1);
}

#[test]
fn slept_task_is_skipped_next_round() {
    let slots = vec![StatusTask::new(ScriptTask::new(2, true))];
    let manager = ArrayTaskManager::new(slots);
    let mut executor = Executor::new(manager, DummyPool);
    executor.manager.sleep_task(0);
    executor.run_round();
    let task = executor.manager.get_task(0).unwrap();
    assert_eq!(task.task.remaining_polls(), 2);
    assert_eq!(executor.manager.status(0), WakeStatus::Asleep);
}

#[test]
fn woken_task_is_polled_again() {
    let slots = vec![StatusTask::new(ScriptTask::new(2, false))];
    let manager = ArrayTaskManager::new(slots);
    let mut executor = Executor::new(manager, DummyPool);
    executor.run_round();
    assert!(!executor.manager.is_terminated(0));
    executor.manager.wake_task(0);
    executor.run_round();
    assert!(executor.manager.is_terminated(0));
}

#[test]
fn run_to_completion_finishes_driven_tasks() {
    let slots = vec![
        StatusTask::new(ScriptTask::new(1, false)),
        StatusTask::new(ScriptTask::new(4, true)),
        StatusTask::new(ScriptTask::new(2, true)),
    ];
    let manager = ArrayTaskManager::new(slots);
    let mut executor = Executor::new(manager, DummyPool);
    executor.run_to_completion();
    assert!(executor.all_done());
    assert!(executor.manager.is_terminated(0));
    assert!(executor.manager.is_terminated(1));
    assert!(executor.manager.is_terminated(2));
}

#[test]
fn three_task_scenario() {
    // Task A terminates on its first poll; task B needs one external
    // wake after its first poll; task C is parked and never woken.
    let slots = vec![
        StatusTask::new(ScriptTask::new(1, false)),
        StatusTask::new(ScriptTask::new(2, false)),
        StatusTask::new(ScriptTask::new(1, false)),
    ];
    let manager = ArrayTaskManager::new(slots);
    let mut executor = Executor::new(manager, DummyPool);
    executor.manager.sleep_task(2);

    // Round 1 polls A and B, the two tasks still woken.
    executor.run_round();
    assert!(executor.manager.is_terminated(0));
    assert!(!executor.manager.is_terminated(1));
    assert_eq!(executor.manager.status(1), WakeStatus::Asleep);
    assert!(!executor.manager.is_terminated(2));
    assert!(!executor.all_done());

    // With B awaiting its wake and C parked, further rounds make no
    // progress at all.
    executor.run_round();
    assert!(!executor.manager.is_terminated(1));
    assert_eq!(executor.manager.get_task(1).unwrap().task.remaining_polls(), 1);

    // B's conduit fires; the next round polls and terminates B.
    executor.manager.wake_task(1);
    executor.run_round();
    assert!(executor.manager.is_terminated(1));

    // C stays asleep and unterminated: the loop would spin forever, the
    // documented liveness violation.
    assert!(!executor.all_done());
    executor.run_round();
    assert!(!executor.manager.is_terminated(2));
    assert_eq!(executor.manager.status(2), WakeStatus::Asleep);
}
