use till::context::{ExplicitContext, ImplicitContext};
use till::executor::Executor;
use till::manager::{ArrayTaskManager, StreamingIterator};
use till::maybe_send::Sendable;
use till::registry::SlotPool;
use till::task::{ScriptTask, StatusTask};

#[test]
fn sendable_hands_its_value_back() {
    let wrapped = Sendable::new(17u32);
    assert_eq!(wrapped.into_inner(), 17);
}

#[test]
fn explicit_context_wraps_a_reference() {
    let value: u32 = 5;
    let ctx = ExplicitContext::from(&value);
    assert_eq!(*ctx.0, 5);
    let copy = ctx;
    assert_eq!(*copy.0, 5);
}

#[test]
fn implicit_context_is_value_free() {
    let ctx: ImplicitContext<u32> = ImplicitContext::default();
    let copy = ctx.clone();
    let _ = copy;
}

#[test]
fn executor_hands_the_registry_back() {
    let slots = vec![StatusTask::new(ScriptTask::new(2, true))];
    let manager = ArrayTaskManager::new(slots);
    let mut pool = SlotPool::new(1);
    let id = pool.register_source().unwrap();
    let mut executor = Executor::new(manager, pool);
    executor.run_to_completion();
    assert!(executor.manager.is_terminated(0));
    let listed = executor.pool.sources();
    assert_eq!(listed.len(), 1);
    assert_eq!(listed[0], id);
}

#[test]
fn cursor_remains_exhausted_at_the_end() {
    let manager: ArrayTaskManager<ScriptTask> = ArrayTaskManager::new(Vec::new());
    assert_eq!(manager.len(), 0);
    let mut cursor = manager.tasks();
    assert_eq!(cursor.next(), None);
}
