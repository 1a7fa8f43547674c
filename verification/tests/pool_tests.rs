use jobpool::pool::{worker_step, ControlMessage, PoolError, ThreadPool, WorkerAction};

#[test]
fn construction_spawns_requested_workers() {
    for n in 1usize..6 {
        let mut pool: ThreadPool<u32> = ThreadPool::new(n).unwrap();
        assert_eq!(pool.worker_count(), n);
        assert_eq!(pool.pending(), 0);
        assert!(!pool.is_shutting_down());
        // Every worker starts idle, so each can independently dequeue.
        for w in 0..n {
            assert!(pool.worker_is_idle(w));
        }
        // Give each worker one job; each one dequeues its own.
        for w in 0..n {
            pool.execute(w as u32);
        }
        for w in 0..n {
            pool.assign(w);
            assert_eq!(pool.busy_job(w), Some(&(w as u32)));
        }
    }
}

#[test]
fn zero_sized_pool_is_rejected() {
    let r: Result<ThreadPool<u32>, PoolError> = ThreadPool::new(0);
    assert_eq!(r.unwrap_err(), PoolError::ZeroSize);
}

#[test]
fn all_jobs_execute_exactly_once() {
    // Twelve jobs on a pool of three workers: every job comes back from the
    // queue exactly once, in submission order, with none dropped.
    let mut pool: ThreadPool<u32> = ThreadPool::new(3).unwrap();
    let k = 12u32;
    for job in 0..k {
        pool.execute(job);
    }
    pool.shutdown();
    let jobs = pool.drain();
    assert_eq!(jobs.len(), k as usize);
    let mut count = 0u32;
    for (i, job) in jobs.iter().enumerate() {
        assert_eq!(*job, i as u32);
        count += 1;
    }
    assert_eq!(count, k);
}

#[test]
fn shutdown_sends_one_terminate_per_worker_and_joins_all() {
    let mut pool: ThreadPool<u32> = ThreadPool::new(4).unwrap();
    pool.execute(7);
    pool.close();
    assert!(pool.is_shutting_down());
    // The pending job stays ahead of the four terminate signals.
    assert_eq!(pool.pending(), 5);
    // Every worker's handle was taken, so every thread was joined.
    for w in 0..4 {
        assert_eq!(pool.take_handle(w), None);
    }
}

#[test]
fn workers_receive_terminate_and_exit() {
    let mut pool: ThreadPool<u32> = ThreadPool::new(2).unwrap();
    pool.shutdown();
    pool.assign(0);
    pool.assign(1);
    assert!(pool.worker_is_done(0));
    assert!(pool.worker_is_done(1));
    assert_eq!(pool.pending(), 0);
}

#[test]
fn two_jobs_run_on_two_workers_at_once() {
    // With two workers, two submitted jobs are held by two different workers
    // at the same time: neither has to wait for the other to finish.
    let mut pool: ThreadPool<u32> = ThreadPool::new(2).unwrap();
    pool.execute(10);
    pool.execute(20);
    pool.assign(0);
    pool.assign(1);
    assert_eq!(pool.busy_job(0), Some(&10));
    assert_eq!(pool.busy_job(1), Some(&20));
    assert_eq!(pool.finish(0), 10);
    assert_eq!(pool.finish(1), 20);
    assert!(pool.worker_is_idle(0));
    assert!(pool.worker_is_idle(1));
}

#[test]
fn end_to_end_two_jobs_fill_a_collection() {
    // A pool of four receives two jobs that each append one string to a
    // collection; after shutdown the collection holds both, in some order.
    let mut pool: ThreadPool<String> = ThreadPool::new(4).unwrap();
    pool.execute(String::from("hello-0"));
    pool.execute(String::from("hello-1"));
    pool.shutdown();
    let mut collected: Vec<String> = Vec::new();
    for job in pool.drain() {
        collected.push(job);
    }
    assert_eq!(collected.len(), 2);
    assert!(collected.iter().any(|s| s == "hello-0"));
    assert!(collected.iter().any(|s| s == "hello-1"));
    pool.join_all();
}

#[test]
fn shutdown_and_join_are_idempotent() {
    let mut pool: ThreadPool<u32> = ThreadPool::new(3).unwrap();
    pool.shutdown();
    let pending = pool.pending();
    pool.shutdown();
    assert_eq!(pool.pending(), pending);

    assert!(pool.take_handle(1).is_some());
    assert!(pool.take_handle(1).is_none());
    pool.join_all();
    pool.join_all();
    for w in 0..3 {
        assert!(pool.take_handle(w).is_none());
    }
    pool.close();
    pool.close();
    assert_eq!(pool.pending(), pending);
}

#[test]
fn worker_step_decides_run_or_exit() {
    assert_eq!(worker_step(ControlMessage::Execute(5u32)), WorkerAction::RunJob(5u32));
    assert_eq!(worker_step(ControlMessage::<u32>::Terminate), WorkerAction::Exit);
}
