use byor::executor::{Executor, JoinOutcome};

#[test]
fn spawn_returns_handle_immediately() {
    let mut ex: Executor<u32> = Executor::new();
    let h = ex.spawn(vec![1, 2, 3], 99);
    assert_eq!(h.id(), 0);
    // Nothing has run yet: spawning does not suspend or perform work.
    assert_eq!(ex.log(), &Vec::<(usize, u64)>::new());
    match ex.join(h) {
        JoinOutcome::Waiting(h) => {
            ex.step(h.id());
            ex.step(h.id());
            ex.step(h.id());
            ex.step(h.id());
            match ex.join(h) {
                JoinOutcome::Done(v) => assert_eq!(v, 99),
                JoinOutcome::Waiting(_) => panic!("a finished task resolves its handle"),
            }
        },
        JoinOutcome::Done(_) => panic!("an unstarted task cannot be done"),
    }
    assert_eq!(ex.log(), &vec![(0, 1), (0, 2), (0, 3)]);
}

#[test]
fn dropping_handle_cancels_remaining_effects() {
    let mut ex: Executor<u32> = Executor::new();
    let h = ex.spawn(vec![10, 20, 30], 0);
    let id = h.id();
    ex.step(id);
    // Dropping the handle before completion: the effect already
    // performed stays, the rest never appear.
    ex.cancel(h);
    assert_eq!(ex.log(), &vec![(0, 10)]);
}

#[test]
fn cancel_after_completion_changes_nothing() {
    let mut ex: Executor<u32> = Executor::new();
    let h = ex.spawn(vec![5], 1);
    let id = h.id();
    ex.step(id);
    ex.step(id);
    ex.cancel(h);
    assert_eq!(ex.log(), &vec![(0, 5)]);
}

#[test]
fn detach_lets_the_task_run_on() {
    let mut ex: Executor<u32> = Executor::new();
    let h = ex.spawn(vec![7, 8], 0);
    let id = h.id();
    h.detach();
    // The handle is gone, the task is not: it still makes progress.
    ex.step(id);
    ex.step(id);
    assert_eq!(ex.log(), &vec![(0, 7), (0, 8)]);
}

#[test]
fn block_on_runs_whole_script_in_order() {
    let mut ex: Executor<u64> = Executor::new();
    let r = ex.block_on(vec![4, 5, 6], 77);
    assert_eq!(r, 77);
    assert_eq!(ex.log(), &vec![(0, 4), (0, 5), (0, 6)]);
    // The blocking task counts like any other; the next spawn follows it.
    let h = ex.spawn(vec![1], 5);
    assert_eq!(h.id(), 1);
    ex.cancel(h);
}

#[test]
fn tasks_interleave_without_affecting_each_other() {
    let mut ex: Executor<u32> = Executor::new();
    let ha = ex.spawn(vec![1, 2], 0);
    let hb = ex.spawn(vec![9], 1);
    ex.step(ha.id());
    ex.step(hb.id());
    ex.step(ha.id());
    assert_eq!(ex.log(), &vec![(0, 1), (1, 9), (0, 2)]);
    ex.cancel(ha);
    ex.cancel(hb);
}
