use ql_core::JobRunner;
use ql_core::MAX_ATTEMPTS;
use ql_core::RetryState;

/// Drive a batch to completion, completing jobs in admission order whenever
/// no more can be admitted. `run_job` maps a job index to its final result;
/// the highest in-flight count ever observed is returned with the outcome.
fn drive<T, E>(
    mut runner: JobRunner<T, E>,
    mut run_job: impl FnMut(usize) -> Result<T, E>,
) -> (Result<Vec<T>, E>, usize) {
    let mut in_flight: Vec<usize> = Vec::new();
    let mut next_job: usize = 0;
    let mut peak: usize = 0;
    while !runner.is_done() {
        if runner.wants_admit() {
            runner.start_next();
            in_flight.push(next_job);
            next_job += 1;
            assert!(runner.running() <= runner.bound());
            peak = peak.max(runner.running());
        } else {
            let job = in_flight.remove(0);
            match run_job(job) {
                Ok(v) => runner.complete_ok(v),
                Err(e) => runner.complete_err(e),
            }
        }
    }
    (runner.finish(), peak)
}

#[test]
fn in_flight_never_exceeds_the_limit() {
    for limit in [1usize, 2, 3, 10, 64] {
        let runner: JobRunner<usize, String> = JobRunner::new(limit, 20);
        let (result, peak) = drive(runner, Ok);
        assert!(peak <= limit);
        assert_eq!(result, Ok((0..20).collect::<Vec<usize>>()));
    }
}

#[test]
fn empty_batch_succeeds_with_no_outputs() {
    let runner: JobRunner<usize, String> = JobRunner::new(4, 0);
    let (result, _) = drive(runner, Ok);
    assert_eq!(result, Ok(Vec::new()));
}

#[test]
fn first_failure_is_the_overall_error() {
    let runner: JobRunner<usize, String> = JobRunner::new(2, 8);
    let (result, _) = drive(runner, |job| {
        if job == 2 || job == 3 {
            Err(format!("job {job} failed"))
        } else {
            Ok(job)
        }
    });
    assert_eq!(result, Err("job 2 failed".to_owned()));
}

#[test]
fn no_admission_after_a_failure() {
    let mut runner: JobRunner<(), &str> = JobRunner::new(3, 10);
    runner.start_next();
    runner.start_next();
    runner.complete_err("boom");
    assert!(!runner.wants_admit());
    runner.complete_ok(());
    assert!(!runner.wants_admit());
    assert!(runner.is_done());
    assert_eq!(runner.finish(), Err("boom"));
}

#[test]
fn retry_succeeds_on_the_fifth_attempt() {
    let mut retry = RetryState::new();
    let mut attempts: usize = 0;
    while retry.should_attempt() {
        attempts += 1;
        retry.record(attempts == 5);
    }
    assert_eq!(attempts, 5);
    assert_eq!(retry.attempt_count(), 5);
    assert!(retry.last_succeeded());
}

#[test]
fn retry_gives_up_after_six_attempts() {
    let mut retry = RetryState::new();
    let mut attempts: usize = 0;
    let mut last: Result<(), String> = Err("never ran".to_owned());
    while retry.should_attempt() {
        attempts += 1;
        last = Err(format!("attempt {attempts} failed"));
        retry.record(false);
    }
    assert_eq!(attempts, MAX_ATTEMPTS);
    assert_eq!(attempts, 6);
    assert!(!retry.last_succeeded());
    assert_eq!(last, Err("attempt 6 failed".to_owned()));
}

#[test]
fn retry_stops_at_the_first_success() {
    let mut retry = RetryState::new();
    retry.record(true);
    assert!(!retry.should_attempt());
    assert_eq!(retry.attempt_count(), 1);
}

#[test]
fn hundred_jobs_with_two_transient_failures_take_102_attempts() {
    let runner: JobRunner<usize, String> = JobRunner::new(10, 100);
    let mut total_attempts: usize = 0;
    let mut failed_once = [false; 100];
    let (result, peak) = drive(runner, |job| {
        let mut retry = RetryState::new();
        let mut last: Result<usize, String> = Err("never ran".to_owned());
        while retry.should_attempt() {
            total_attempts += 1;
            let ok = !((job == 10 || job == 50) && !failed_once[job]);
            if !ok {
                failed_once[job] = true;
            }
            last = if ok { Ok(job) } else { Err(format!("job {job} failed")) };
            retry.record(ok);
        }
        last
    });
    assert_eq!(result, Ok((0..100).collect::<Vec<usize>>()));
    assert!(peak <= 10);
    assert_eq!(total_attempts, 102);
}
