use netproxy::pool::{FlyingTasks, Future, FutureState, Outcome};

#[test]
fn a_task_that_returns_leaves_its_output_once() {
    let mut future = Future::<i32>::default();
    assert_eq!(future.state(), FutureState::Flying);
    assert!(!future.is_done());
    assert!(!future.has_output());
    future.set_started();
    assert_eq!(future.state(), FutureState::Started);
    assert!(!future.is_done());
    future.set_done(5);
    assert_eq!(future.state(), FutureState::Done);
    assert!(future.is_done());
    assert!(future.has_output());
    assert_eq!(future.output(), 5);
    assert_eq!(future.state(), FutureState::Done);
    assert!(!future.has_output());
    assert_eq!(future.try_output(), None);
}

#[test]
fn outputs_of_any_type_are_handed_over() {
    let mut future = Future::<String>::default();
    future.set_started();
    future.settle(Outcome::Returned(String::from("Hi")));
    assert_eq!(future.state(), FutureState::Done);
    assert_eq!(future.try_output(), Some(String::from("Hi")));

    let mut future = Future::<(String, bool)>::default();
    future.set_started();
    future.set_done((String::from("Hi"), false));
    assert_eq!(future.output(), (String::from("Hi"), false));
}

#[test]
fn a_task_that_panics_leaves_no_output() {
    let mut future = Future::<i32>::default();
    future.set_started();
    future.settle(Outcome::Panicked);
    assert_eq!(future.state(), FutureState::Panicked);
    assert!(future.is_done());
    assert!(!future.has_output());
    assert_eq!(future.try_output(), None);
}

#[test]
fn a_future_that_has_ended_stays_as_it_is() {
    let mut future = Future::<i32>::default();
    future.set_panicked();
    future.set_done(3);
    future.set_started();
    assert_eq!(future.state(), FutureState::Panicked);
    assert!(!future.has_output());

    let mut future = Future::<i32>::default();
    future.set_done(15);
    future.set_panicked();
    future.set_done(16);
    future.set_started();
    assert_eq!(future.state(), FutureState::Done);
    assert_eq!(future.output(), 15);
}

#[test]
fn a_started_future_does_not_go_back_to_flying() {
    let mut future = Future::<()>::default();
    future.set_started();
    future.set_started();
    assert_eq!(future.state(), FutureState::Started);
    assert!(!FutureState::Flying.is_terminal());
    assert!(!FutureState::Started.is_terminal());
    assert!(FutureState::Done.is_terminal());
    assert!(FutureState::Panicked.is_terminal());
}

#[test]
fn flying_tasks_are_counted() {
    let mut tasks = FlyingTasks::new();
    assert_eq!(tasks.flying_tasks_count(), 0);
    tasks.launched();
    tasks.launched();
    assert_eq!(tasks.flying_tasks_count(), 2);
    tasks.landed();
    assert_eq!(tasks.flying_tasks_count(), 1);
    tasks.landed();
    tasks.landed();
    assert_eq!(tasks.flying_tasks_count(), u16::MAX);
    tasks.launched();
    assert_eq!(tasks.flying_tasks_count(), 0);
}
