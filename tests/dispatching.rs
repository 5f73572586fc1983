use sensor_data_analyzer::dispatch::{BatchReport, DispatchAction, DispatchError, Dispatcher};

#[test]
fn never_more_running_than_pool_size() {
    let k: usize = 3;
    let m: usize = 10;
    let mut d = Dispatcher::new(k, m);
    let mut running: Vec<usize> = Vec::new();
    let mut started: Vec<usize> = Vec::new();
    let mut peak = 0;
    loop {
        match d.next_action() {
            DispatchAction::Start(i) => {
                running.push(i);
                started.push(i);
            }
            DispatchAction::AwaitCompletion => {
                let i = running.remove(0);
                d.complete(i, i % 4 != 1).unwrap();
            }
            DispatchAction::Finished => break,
        }
        assert_eq!(d.running_count(), running.len());
        assert!(d.running_count() <= k);
        peak = peak.max(d.running_count());
    }
    assert_eq!(peak, k);
    assert_eq!(started, (0..m).collect::<Vec<_>>());
    assert_eq!(
        d.report(),
        BatchReport { succeeded: vec![0, 2, 3, 4, 6, 7, 8], failed: vec![1, 5, 9] }
    );
}

#[test]
fn pool_of_one_runs_tasks_one_at_a_time() {
    let mut d = Dispatcher::new(1, 2);
    assert_eq!(d.next_action(), DispatchAction::Start(0));
    assert_eq!(d.next_action(), DispatchAction::AwaitCompletion);
    assert_eq!(d.complete(0, true), Ok(()));
    assert_eq!(d.next_action(), DispatchAction::Start(1));
    assert_eq!(d.complete(1, false), Ok(()));
    assert_eq!(d.next_action(), DispatchAction::Finished);
    assert_eq!(d.report(), BatchReport { succeeded: vec![0], failed: vec![1] });
}

#[test]
fn empty_batch_is_finished_at_once() {
    let mut d = Dispatcher::new(4, 0);
    assert_eq!(d.next_action(), DispatchAction::Finished);
    assert_eq!(d.report(), BatchReport { succeeded: vec![], failed: vec![] });
}

#[test]
fn completion_of_unknown_or_idle_task_is_refused() {
    let mut d = Dispatcher::new(2, 2);
    assert_eq!(d.complete(5, true), Err(DispatchError::UnknownTask));
    assert_eq!(d.complete(0, true), Err(DispatchError::TaskNotRunning));
    assert_eq!(d.next_action(), DispatchAction::Start(0));
    assert_eq!(d.complete(0, true), Ok(()));
    assert_eq!(d.complete(0, true), Err(DispatchError::TaskNotRunning));
    assert_eq!(d.running_count(), 0);
}
