use crates_io_ops_bot::scheduler::Scheduler;

#[test]
fn job_fires_once_per_interval_from_start() {
    let mut scheduler = Scheduler::new();
    let slot = scheduler.register("every two seconds".to_string(), 2);
    assert_eq!(slot, 0);
    let mut fired_at = Vec::new();
    for t in 1..=10u64 {
        if !scheduler.tick().is_empty() {
            fired_at.push(t);
        }
    }
    assert_eq!(fired_at, vec![4, 8]);
    // floor(10 * 0.5 / 2) == 2
    assert_eq!(scheduler.fired(0), 2);
    assert_eq!(scheduler.ticks(), 10);
}

#[test]
fn fire_counts_match_the_formula() {
    for interval in 1..=5u64 {
        let mut scheduler = Scheduler::new();
        scheduler.register("job".to_string(), interval);
        for t in 1..=61u64 {
            scheduler.tick();
            assert_eq!(scheduler.fired(0), t / (2 * interval));
        }
    }
}

#[test]
fn due_jobs_come_in_registration_order() {
    let mut scheduler = Scheduler::new();
    scheduler.register("slow".to_string(), 3);
    scheduler.register("fast".to_string(), 1);
    scheduler.register("middle".to_string(), 2);
    assert_eq!(scheduler.len(), 3);
    let mut rounds = Vec::new();
    for _ in 0..12 {
        rounds.push(scheduler.tick());
    }
    assert_eq!(rounds[0], Vec::<usize>::new());
    assert_eq!(rounds[1], vec![1]);
    assert_eq!(rounds[3], vec![1, 2]);
    assert_eq!(rounds[5], vec![0, 1]);
    assert_eq!(rounds[11], vec![0, 1, 2]);
}

#[test]
fn scheduler_without_jobs_fires_nothing() {
    let mut scheduler = Scheduler::new();
    for _ in 0..4 {
        assert!(scheduler.tick().is_empty());
    }
}
