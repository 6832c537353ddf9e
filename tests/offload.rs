use std::cell::RefCell;
use yawe::offload::{drain, tick, try_tick, Disconnected, TaskSender, TryTickError};

#[test]
fn drained_jobs_run_in_submission_order_and_yield_their_values() {
    let mut chan: TaskSender<u32, u32> = TaskSender::new();
    let mut futures = Vec::new();
    for v in 1..=5u32 {
        futures.push(chan.send(v));
    }
    let order = RefCell::new(Vec::new());
    let host = |j: u32| {
        order.borrow_mut().push(j);
        j
    };
    let mut runs = 0;
    while try_tick(&mut chan, &host).is_ok() {
        runs += 1;
    }
    assert_eq!(runs, 5);
    assert_eq!(*order.borrow(), vec![1, 2, 3, 4, 5]);
    let mut got = Vec::new();
    for f in futures {
        got.push(f.wait(&mut chan).unwrap());
    }
    assert_eq!(got, vec![1, 2, 3, 4, 5]);
}

#[test]
fn futures_get_tickets_in_submission_order() {
    let mut chan: TaskSender<u8, u8> = TaskSender::new();
    let a = chan.send(7);
    let b = chan.send(9);
    assert_eq!(a.ticket(), 0);
    assert_eq!(b.ticket(), 1);
    assert_eq!(chan.submitted_count(), 2);
    assert!(chan.is_queued(&a));
    assert!(chan.is_queued(&b));
}

#[test]
fn wait_returns_value_computed_by_job() {
    let mut chan: TaskSender<i32, i64> = TaskSender::new();
    let f = chan.send(21);
    let host = |j: i32| (j as i64) * 2;
    assert_eq!(try_tick(&mut chan, &host), Ok(()));
    assert!(!chan.is_queued(&f));
    assert_eq!(f.wait(&mut chan), Ok(42));
}

#[test]
fn wait_returns_zero_sized_result() {
    let mut chan: TaskSender<u8, ()> = TaskSender::new();
    let f = chan.send(1);
    let host = |_j: u8| ();
    assert_eq!(try_tick(&mut chan, &host), Ok(()));
    assert_eq!(f.wait(&mut chan), Ok(()));
}

#[test]
fn submit_after_consumer_stops_disconnects() {
    let mut chan: TaskSender<u8, u8> = TaskSender::new();
    let queued = chan.send(1);
    chan.stop_draining();
    let late = chan.send(2);
    assert!(!chan.is_queued(&queued));
    assert!(!chan.is_queued(&late));
    assert_eq!(queued.wait(&mut chan), Err(Disconnected));
    assert_eq!(late.wait(&mut chan), Err(Disconnected));
}

#[test]
fn try_tick_on_empty_queue_does_no_work() {
    let mut chan: TaskSender<u8, u8> = TaskSender::new();
    let calls = RefCell::new(0);
    let host = |j: u8| {
        *calls.borrow_mut() += 1;
        j
    };
    assert_eq!(try_tick(&mut chan, &host), Err(TryTickError::Empty));
    assert_eq!(*calls.borrow(), 0);
    chan.close();
    assert_eq!(try_tick(&mut chan, &host), Err(TryTickError::Disconnected));
    assert_eq!(*calls.borrow(), 0);
}

#[test]
fn tick_reports_hang_up_on_empty_closed_queue() {
    let mut chan: TaskSender<u8, u8> = TaskSender::new();
    let f = chan.send(3);
    chan.close();
    let host = |j: u8| j + 1;
    assert_eq!(tick(&mut chan, &host), Ok(()));
    assert_eq!(tick(&mut chan, &host), Err(Disconnected));
    assert_eq!(f.wait(&mut chan), Ok(4));
}

#[test]
fn run_drains_earlier_jobs_first() {
    let mut chan: TaskSender<u32, u32> = TaskSender::new();
    let first = chan.send(10);
    let order = RefCell::new(Vec::new());
    let host = |j: u32| {
        order.borrow_mut().push(j);
        j + 1
    };
    assert_eq!(chan.run(20, &host), 21);
    assert_eq!(*order.borrow(), vec![10, 20]);
    assert_eq!(first.wait(&mut chan), Ok(11));
}

#[test]
fn drain_runs_every_queued_job_once() {
    let mut chan: TaskSender<u32, u32> = TaskSender::new();
    let futures: Vec<_> = (1..=5u32).map(|v| chan.send(v)).collect();
    let order = RefCell::new(Vec::new());
    let host = |j: u32| {
        order.borrow_mut().push(j);
        j * 10
    };
    assert_eq!(drain(&mut chan, &host), 5);
    assert_eq!(drain(&mut chan, &host), 0);
    assert_eq!(*order.borrow(), vec![1, 2, 3, 4, 5]);
    let got: Vec<u32> = futures.into_iter().map(|f| f.wait(&mut chan).unwrap()).collect();
    assert_eq!(got, vec![10, 20, 30, 40, 50]);
}

#[test]
fn taken_job_counts_as_queued_until_finished() {
    let mut chan: TaskSender<u8, u8> = TaskSender::new();
    let f = chan.send(4);
    let g = chan.send(5);
    let (t, job) = chan.take_job().unwrap();
    assert_eq!((t, job), (0, 4));
    assert!(chan.is_queued(&f));
    assert_eq!(chan.running_ticket(), Some(0));
    chan.finish_job(t, job * 2);
    assert!(!chan.is_queued(&f));
    assert!(chan.is_queued(&g));
    assert_eq!(chan.running_ticket(), None);
    assert_eq!(f.wait(&mut chan), Ok(8));
    let (t, job) = chan.take_job().unwrap();
    chan.finish_job(t, job);
    assert!(chan.take_job().is_none());
    assert_eq!(g.wait(&mut chan), Ok(5));
}
