use payload_bridge::runtime::{
    create_runtime, worker_threads, worker_threads_for, MIN_WORKER_THREADS,
};

#[test]
fn pool_has_at_least_two_workers() {
    assert_eq!(MIN_WORKER_THREADS, 2);
    assert_eq!(worker_threads_for(0), 2);
    assert_eq!(worker_threads_for(1), 2);
    assert_eq!(worker_threads_for(2), 2);
    assert_eq!(worker_threads_for(3), 3);
    assert_eq!(worker_threads_for(64), 64);
    assert_eq!(worker_threads_for(usize::MAX), usize::MAX);
}

#[test]
fn this_machine_gets_a_worker_for_each_processor() {
    let workers = worker_threads();
    assert!(workers >= 2);
    assert_eq!(workers, worker_threads_for(num_cpus::get()));
}

#[test]
fn runtime_is_built_with_that_many_workers() {
    let runtime = create_runtime().unwrap();
    assert_eq!(runtime.metrics().num_workers(), worker_threads());
    assert_eq!(runtime.block_on(async { 6 * 7 }), 42);
}
