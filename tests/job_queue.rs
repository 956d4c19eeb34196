use std::cell::Cell;
use std::rc::Rc;

use rusttp::job_queue::JobQueue;

#[test]
fn every_job_is_claimed_once_in_order() {
    let mut queue: JobQueue<u32> = JobQueue::new();
    let mut claimed: Vec<u32> = Vec::new();
    for job in 0..10 {
        queue.submit(job);
        if job % 3 == 2 {
            claimed.push(queue.claim().unwrap());
        }
    }
    assert_eq!(queue.len(), 7);
    while let Some(job) = queue.claim() {
        claimed.push(job);
    }
    assert!(queue.is_empty());
    assert_eq!(claimed, (0..10).collect::<Vec<u32>>());
}

#[test]
fn claiming_from_an_empty_queue_gives_nothing() {
    let mut queue: JobQueue<u32> = JobQueue::new();
    assert!(queue.claim().is_none());
    queue.submit(5);
    assert_eq!(queue.claim(), Some(5));
    assert!(queue.claim().is_none());
    assert_eq!(queue.len(), 0);
}

#[test]
fn boxed_jobs_run_once_each() {
    let runs = Rc::new(Cell::new(0u32));
    let mut queue: JobQueue<Box<dyn FnOnce()>> = JobQueue::new();
    for _ in 0..6 {
        let runs = Rc::clone(&runs);
        queue.submit(Box::new(move || runs.set(runs.get() + 1)));
    }
    let mut executed = 0;
    while let Some(job) = queue.claim() {
        job();
        executed += 1;
    }
    assert_eq!(executed, 6);
    assert_eq!(runs.get(), 6);
}

#[test]
fn queue_with_capacity_starts_empty() {
    let mut queue: JobQueue<u8> = JobQueue::with_capacity(4);
    assert!(queue.is_empty());
    for job in 0..6 {
        queue.submit(job);
    }
    assert_eq!(queue.len(), 6);
    assert_eq!(queue.claim(), Some(0));
}
