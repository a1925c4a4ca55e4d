use nocciolo::task::executor::{Action, Executor, TaskId};

#[test]
fn executor_without_tasks_exits() {
    let mut executor = Executor::new();
    assert_eq!(executor.next(), Action::Exit);
}

#[test]
fn tasks_get_fresh_identifiers() {
    let mut executor = Executor::new();
    assert!(executor.can_spawn());
    assert_eq!(executor.spawn(), TaskId(0));
    assert_eq!(executor.spawn(), TaskId(1));
    executor.complete(TaskId(0));
    assert_eq!(executor.spawn(), TaskId(2));
    assert!(!executor.is_live(TaskId(0)));
    assert!(executor.is_live(TaskId(1)));
    assert!(executor.is_live(TaskId(2)));
    assert!(!executor.is_live(TaskId(3)));
}

#[test]
fn tasks_are_polled_in_the_order_in_which_they_became_ready() {
    let mut executor = Executor::new();
    let first = executor.spawn();
    let second = executor.spawn();
    assert_eq!(executor.next(), Action::Poll(first));
    assert_eq!(executor.next(), Action::Poll(second));
    // Both are pending: the processor rests until one is woken.
    assert_eq!(executor.next(), Action::Halt);
    executor.wake(second);
    executor.wake(first);
    assert_eq!(executor.next(), Action::Poll(second));
    assert_eq!(executor.next(), Action::Poll(first));
    assert_eq!(executor.next(), Action::Halt);
}

#[test]
fn completed_tasks_are_not_polled_again() {
    let mut executor = Executor::new();
    let first = executor.spawn();
    let second = executor.spawn();
    assert_eq!(executor.next(), Action::Poll(first));
    executor.wake(first);
    executor.complete(first);
    assert_eq!(executor.next(), Action::Poll(second));
    // The stale wake-up of the first task is skipped.
    assert_eq!(executor.next(), Action::Halt);
    executor.complete(second);
    executor.complete(second);
    assert_eq!(executor.next(), Action::Exit);
}

#[test]
fn run_loop_ends_when_the_last_task_ends() {
    let mut executor = Executor::new();
    let ids = [executor.spawn(), executor.spawn(), executor.spawn()];
    let mut polled = Vec::new();
    loop {
        match executor.next() {
            Action::Poll(id) => {
                polled.push(id);
                executor.complete(id);
            },
            Action::Halt => panic!("nothing is pending"),
            Action::Exit => break,
        }
    }
    assert_eq!(polled, ids.to_vec());
}
