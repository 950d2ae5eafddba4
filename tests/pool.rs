use mln::dispatch::{DispatchQueue, Message};
use mln::pool::{PoolClosedError, PoolControl};
use mln::worker::{WorkerAction, WorkerEvent, WorkerPhase, WorkerState};

fn task_of(m: Option<Message<u32>>) -> Option<u32> {
    match m {
        Some(Message::Task(t)) => Some(t),
        _ => None,
    }
}

#[test]
fn new_pool_has_size_workers_and_is_open() {
    let p = PoolControl::new(3);
    assert_eq!(p.size(), 3);
    assert!(!p.is_closed());
    for id in 0..3 {
        assert!(!p.is_joined(id));
    }
}

#[test]
fn tasks_leave_in_submission_order() {
    let p = PoolControl::new(2);
    let mut q: DispatchQueue<u32> = DispatchQueue::new();
    for i in 1..=5u32 {
        assert_eq!(p.submit(&mut q, i), Ok(()));
    }
    assert_eq!(q.len(), 5);
    let mut log = Vec::new();
    while let Some(t) = task_of(q.receive()) {
        log.push(t);
    }
    assert_eq!(log, vec![1, 2, 3, 4, 5]);
    assert!(q.is_empty());
}

#[test]
fn receive_on_empty_queue_is_none() {
    let mut q: DispatchQueue<u32> = DispatchQueue::new();
    assert!(q.receive().is_none());
    assert_eq!(q.len(), 0);
}

#[test]
fn shutdown_puts_one_terminate_per_worker_after_tasks() {
    let mut p = PoolControl::new(3);
    let mut q: DispatchQueue<u32> = DispatchQueue::new();
    p.submit(&mut q, 10).unwrap();
    p.submit(&mut q, 11).unwrap();
    assert!(p.shutdown(&mut q));
    assert_eq!(q.len(), 5);
    assert_eq!(task_of(q.receive()), Some(10));
    assert_eq!(task_of(q.receive()), Some(11));
    for _ in 0..3 {
        assert!(q.receive().unwrap().is_terminate());
    }
    assert!(q.is_empty());
}

#[test]
fn second_shutdown_changes_nothing() {
    let mut p = PoolControl::new(2);
    let mut q: DispatchQueue<u32> = DispatchQueue::new();
    assert!(p.shutdown(&mut q));
    assert!(!p.shutdown(&mut q));
    assert_eq!(q.len(), 2);
}

#[test]
fn submit_after_shutdown_is_refused() {
    let mut p = PoolControl::new(1);
    let mut q: DispatchQueue<u32> = DispatchQueue::new();
    p.shutdown(&mut q);
    assert_eq!(p.submit(&mut q, 7), Err(PoolClosedError));
    assert_eq!(q.len(), 1);
    assert!(q.receive().unwrap().is_terminate());
}

#[test]
fn join_order_waits_for_shutdown_then_joins_each_once() {
    let mut p = PoolControl::new(4);
    let mut q: DispatchQueue<u32> = DispatchQueue::new();
    assert!(p.take_join_order().is_empty());
    p.shutdown(&mut q);
    assert_eq!(p.take_join_order(), vec![0, 1, 2, 3]);
    for id in 0..4 {
        assert!(p.is_joined(id));
    }
    assert!(p.take_join_order().is_empty());
}

#[test]
fn panicking_task_does_not_end_worker() {
    let mut w = WorkerState::new(0);
    let mut q: DispatchQueue<u32> = DispatchQueue::new();
    let p = PoolControl::new(1);
    p.submit(&mut q, 1).unwrap();
    p.submit(&mut q, 2).unwrap();
    assert_eq!(w.receive(q.receive()), Some(1));
    assert_eq!(w.step(WorkerEvent::TaskPanicked), WorkerAction::ReportFailure);
    assert_eq!(w.phase(), WorkerPhase::Idle);
    assert_eq!(w.receive(q.receive()), Some(2));
    assert_eq!(w.phase(), WorkerPhase::Running);
    assert_eq!(w.step(WorkerEvent::TaskFinished), WorkerAction::Wait);
    assert_eq!(w.phase(), WorkerPhase::Idle);
}

#[test]
fn worker_life_cycle_ends_on_terminate_or_disconnect() {
    let mut w = WorkerState::new(5);
    assert_eq!(w.id(), 5);
    assert_eq!(w.receive::<u32>(Some(Message::Terminate)), None);
    assert_eq!(w.phase(), WorkerPhase::Terminated);
    assert_eq!(w.receive(Some(Message::Task(3u32))), None);
    assert_eq!(w.step(WorkerEvent::TaskReceived), WorkerAction::Exit);
    let mut v = WorkerState::new(1);
    assert_eq!(v.receive::<u32>(None), None);
    assert_eq!(v.phase(), WorkerPhase::Terminated);
}

#[test]
fn out_of_phase_events_keep_the_phase() {
    let mut w = WorkerState::new(0);
    assert_eq!(w.step(WorkerEvent::TaskFinished), WorkerAction::Wait);
    assert_eq!(w.phase(), WorkerPhase::Idle);
    assert_eq!(w.step(WorkerEvent::TaskReceived), WorkerAction::Run);
    assert_eq!(w.step(WorkerEvent::TerminateReceived), WorkerAction::Run);
    assert_eq!(w.phase(), WorkerPhase::Running);
}

/// Drives `size` workers by hand, taking turns, until each has stopped;
/// returns the task values in the order they were run.
fn run_to_end(p: &mut PoolControl, q: &mut DispatchQueue<u32>) -> (Vec<u32>, Vec<WorkerPhase>) {
    let mut workers: Vec<WorkerState> = (0..p.size()).map(WorkerState::new).collect();
    let mut ran = Vec::new();
    let mut turn = 0;
    while workers.iter().any(|w| w.phase() != WorkerPhase::Terminated) {
        let w = &mut workers[turn % p.size()];
        turn += 1;
        if w.phase() == WorkerPhase::Terminated || q.is_empty() {
            continue;
        }
        if let Some(t) = w.receive(q.receive()) {
            ran.push(t);
            assert_eq!(w.step(WorkerEvent::TaskFinished), WorkerAction::Wait);
        }
    }
    assert_eq!(p.take_join_order(), (0..p.size()).collect::<Vec<_>>());
    (ran, workers.iter().map(|w| w.phase()).collect())
}

#[test]
fn every_task_runs_exactly_once() {
    let mut p = PoolControl::new(3);
    let mut q: DispatchQueue<u32> = DispatchQueue::new();
    for i in 0..10u32 {
        p.submit(&mut q, i).unwrap();
    }
    p.shutdown(&mut q);
    let (ran, _) = run_to_end(&mut p, &mut q);
    assert_eq!(ran, (0..10u32).collect::<Vec<_>>());
    assert!(q.is_empty());
}

#[test]
fn four_workers_hundred_tasks() {
    let mut p = PoolControl::new(4);
    let mut q: DispatchQueue<u32> = DispatchQueue::new();
    for _ in 0..100 {
        p.submit(&mut q, 1).unwrap();
    }
    p.shutdown(&mut q);
    let (ran, phases) = run_to_end(&mut p, &mut q);
    let counter: u32 = ran.iter().sum();
    assert_eq!(counter, 100);
    assert_eq!(phases, vec![WorkerPhase::Terminated; 4]);
    assert_eq!(p.submit(&mut q, 1), Err(PoolClosedError));
}
