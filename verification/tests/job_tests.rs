use ttbench::job::Job;
use ttbench::job::JobError;
use ttbench::job::JobStep;
use ttbench::status::iterations::Iterations;
use ttbench::status::Progress;
use ttbench::status::Status;

fn counter_status(quota: u64) -> Status<Iterations<u64>> {
    Status {
        target: Iterations::new(0u64, quota),
        progress: Progress::default(),
        logger: ttbench::status::Logger,
    }
}

#[test]
fn job_creation_fails_on_exhausted_target() {
    // quota 0: the target is already complete, so no job can be built
    let mut status = counter_status(0);
    let r = Job::new(0, 10, &mut status);
    assert!(matches!(r, Err(JobError::AlreadyComplete)));
    assert_eq!(status.progress.iterations_count, 0);
}

#[test]
fn job_creation_claims_the_first_item() {
    let mut status = counter_status(3);
    let (job, first) = Job::new(7, 10, &mut status).unwrap();
    assert_eq!(job.id, 7);
    assert_eq!(job.job_retries, 0);
    assert_eq!(first, 0);
    assert_eq!(status.progress.iterations_count, 1);
}

#[test]
fn ten_jobs_converge_on_a_thousand_items() {
    // 10 jobs against quota 1000: stepping them round-robin until each
    // ends, the completed-item counter reads exactly 1000
    let quota: u64 = 1000;
    let workers: usize = 10;
    let mut status = counter_status(quota);
    let mut jobs: Vec<Job> = Vec::new();
    for id in 0..workers {
        let (job, _item) = Job::new(id as u64, 3, &mut status).unwrap();
        jobs.push(job);
    }
    let mut running = vec![true; workers];
    let mut rounds: u64 = 0;
    while running.iter().any(|r| *r) {
        rounds += 1;
        assert!(rounds <= 2 * quota);
        for w in 0..workers {
            if !running[w] {
                continue;
            }
            match jobs[w].step::<_, ()>(&mut status, Ok(())) {
                JobStep::Dispatch(_item) => {}
                JobStep::Exhausted => running[w] = false,
                JobStep::Wait => panic!("an unreached target always has an item"),
                JobStep::Fatal(_) => panic!("no operation failed"),
            }
        }
    }
    assert_eq!(status.progress.iterations_count, quota);
    assert!(status.is_reached());
    assert!(status.wait_tick());
}

#[test]
fn mid_phase_failures_are_tolerated() {
    // a dispatch operation that always fails still lets the phase
    // converge: every failed item is followed by claiming the next
    let mut status = counter_status(3);
    let (mut job, _first) = Job::new(0, 10, &mut status).unwrap();
    let mut ended = false;
    let mut steps: u32 = 0;
    while !ended {
        steps += 1;
        assert!(steps <= 10);
        match job.step(&mut status, Err::<(), &str>("remote call failed")) {
            JobStep::Dispatch(_item) => {}
            JobStep::Exhausted => ended = true,
            JobStep::Wait => panic!("an unreached target always has an item"),
            JobStep::Fatal(_) => panic!("the retry ceiling was never exceeded"),
        }
    }
    assert!(status.is_reached());
    assert_eq!(status.progress.iterations_count, 3);
    assert_eq!(job.job_retries, 1);
}

#[test]
fn tolerated_tail_failure_counts_a_retry() {
    let mut status = counter_status(1);
    let (mut job, _first) = Job::new(0, 5, &mut status).unwrap();
    // the single item is claimed; its operation fails as the target is
    // reached, within the ceiling: the job ends successfully anyway
    let r = job.step(&mut status, Err::<(), &str>("remote call failed"));
    assert!(matches!(r, JobStep::Exhausted));
    assert_eq!(job.job_retries, 1);
}

#[test]
fn tail_failure_beyond_the_ceiling_is_fatal() {
    let mut status = counter_status(0);
    let mut job = Job { id: 0, job_retries: 3, max_retries: 2 };
    let r = job.step(&mut status, Err::<(), &str>("remote call failed"));
    match r {
        JobStep::Fatal(e) => assert_eq!(e, "remote call failed"),
        _ => panic!("the ceiling was exceeded, the job must end with the failure"),
    }
    assert_eq!(job.job_retries, 3);
}

#[test]
fn success_on_reached_target_ends_the_job() {
    let mut status = counter_status(0);
    let mut job = Job { id: 0, job_retries: 0, max_retries: 0 };
    let r = job.step::<_, ()>(&mut status, Ok(()));
    assert!(matches!(r, JobStep::Exhausted));
}
