use spin_gate::gate::Gate;
use spin_gate::gate::enable_raw_atomics;
use spin_gate::mutex::RawSpinLock;

#[test]
fn ring_of_five_workers_terminates_with_exact_acquisition_counts() {
    let mut gate = Gate::new();
    enable_raw_atomics(&mut gate);
    // Each lock's payload counts how often it has been acquired.
    let mut ring: Vec<RawSpinLock<u64>> = Vec::new();
    for _ in 0..5 {
        ring.push(RawSpinLock::new(0));
    }
    let iterations: u64 = 8;
    for _round in 0..iterations {
        for worker in 0..5usize {
            // Worker `w` needs the adjacent pair (w, w + 1 mod 5); the last
            // worker takes its pair in the reverse order, which breaks the
            // circular wait.
            let (first, second) = if worker == 4 { (0, 4) } else { (worker, worker + 1) };
            let first_guard = ring[first].lock(&gate);
            let held = *ring[first].get(&first_guard);
            ring[first].set(&first_guard, held + 1);
            let second_guard = ring[second].lock(&gate);
            let held = *ring[second].get(&second_guard);
            ring[second].set(&second_guard, held + 1);
            ring[second].unlock(second_guard);
            ring[first].unlock(first_guard);
        }
    }
    // Each lock is adjacent to exactly two of the five workers.
    for lock in ring.iter() {
        assert!(!lock.is_locked());
        let token = lock.no_lock();
        assert_eq!(*lock.get(&token), 2 * iterations);
    }
}

#[test]
fn shared_counter_under_raw_atomic_locking_loses_no_update() {
    let mut gate = Gate::new();
    enable_raw_atomics(&mut gate);
    let mut counter = RawSpinLock::new(0u64);
    for _worker in 0..5 {
        for _ in 0..1000 {
            let guard = counter.lock(&gate);
            let value = *counter.get(&guard);
            counter.set(&guard, value + 1);
            counter.unlock(guard);
        }
    }
    let token = counter.no_lock();
    assert_eq!(*counter.get(&token), 5000);
}
