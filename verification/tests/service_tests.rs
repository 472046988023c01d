use bpftrace_jobs::runner::{runner_step, RecordEffect, RunnerAction, RunnerEvent, RunnerState};
use bpftrace_jobs::service::{default_limit, default_timeout, JobService, RETENTION_WINDOW_SECS};

fn start_completed_job_with_lines(service: &mut JobService, n: usize, now: u64) -> String {
    let id = service.start_job(now);
    let mut state = RunnerState::new(10);
    for i in 0..n {
        let (effect, action) = runner_step(&mut state, RunnerEvent::PrimaryLine(format!("line{}", i)));
        assert!(matches!(action, RunnerAction::Continue));
        service.apply_to_job(id.as_str(), effect, now);
    }
    let (effect, action) = runner_step(&mut state, RunnerEvent::PrimaryEnd);
    assert!(matches!(action, RunnerAction::Continue));
    service.apply_to_job(id.as_str(), effect, now);
    let (effect, action) = runner_step(&mut state, RunnerEvent::DiagnosticEnd);
    assert!(matches!(action, RunnerAction::StopReading));
    service.apply_to_job(id.as_str(), effect, now);
    service.finalize_job(id.as_str(), now + 1);
    id
}

#[test]
fn fresh_identifiers_carry_the_prefix() {
    let mut service = JobService::new(100);
    let id = service.start_job(50);
    assert_eq!(id.len(), 13);
    assert!(id.starts_with("exec_"));
    let other = service.start_job(50);
    assert_ne!(id, other);
}

#[test]
fn started_job_reports_running_snapshot() {
    let mut service = JobService::new(100);
    let id = service.start_job(50);
    let r = service.get_result(id.as_str(), 0, 1000);
    assert_eq!(r.status, "running".to_string());
    assert_eq!(r.lines_total, 0);
    assert_eq!(r.lines_returned, 0);
    assert!(!r.has_more);
    assert!(r.error_message.is_none());
    assert!(r.duration.is_none());
}

#[test]
fn completed_job_returns_all_lines() {
    // A program that prints three lines and exits within its timeout.
    let mut service = JobService::new(100);
    let id = start_completed_job_with_lines(&mut service, 3, 20);
    let check = service.grace_check(id.clone());
    assert_eq!(check.status, "success".to_string());
    assert_eq!(check.execution_id, Some(id.clone()));
    assert_eq!(check.message, "Program started successfully".to_string());
    let r = service.get_result(id.as_str(), 0, 1000);
    assert_eq!(r.status, "completed".to_string());
    assert_eq!(r.lines_total, 3);
    assert_eq!(r.lines_returned, 3);
    assert_eq!(
        r.output,
        vec!["line0".to_string(), "line1".to_string(), "line2".to_string()]
    );
    assert!(!r.has_more);
    assert!(r.error_message.is_none());
    assert_eq!(r.duration, Some(1));
}

#[test]
fn pagination_returns_the_middle_window() {
    let mut service = JobService::new(100);
    let id = start_completed_job_with_lines(&mut service, 10, 20);
    let r = service.get_result(id.as_str(), 5, 3);
    assert_eq!(r.lines_total, 10);
    assert_eq!(r.lines_returned, 3);
    assert_eq!(
        r.output,
        vec!["line5".to_string(), "line6".to_string(), "line7".to_string()]
    );
    assert!(r.has_more);
}

#[test]
fn offset_past_the_end_gives_empty_window_and_no_more() {
    let mut service = JobService::new(100);
    let id = start_completed_job_with_lines(&mut service, 3, 20);
    let r = service.get_result(id.as_str(), 3, 1000);
    assert_eq!(r.lines_returned, 0);
    assert!(r.output.is_empty());
    assert!(!r.has_more);
    let far = service.get_result(id.as_str(), 1000, 1000);
    assert_eq!(far.lines_returned, 0);
    assert!(far.output.is_empty());
    assert!(!far.has_more);
}

#[test]
fn unknown_identifier_reports_not_found() {
    let service = JobService::new(100);
    let r = service.get_result("exec_deadbeef", 0, 1000);
    assert_eq!(r.status, "error".to_string());
    assert_eq!(r.lines_total, 0);
    assert_eq!(r.lines_returned, 0);
    assert!(r.output.is_empty());
    assert!(!r.has_more);
    assert_eq!(r.error_message, Some("Execution ID not found".to_string()));
    assert!(r.duration.is_none());
}

#[test]
fn timeout_kills_fails_and_marks_the_buffer() {
    let mut service = JobService::new(100);
    let id = service.start_job(100);
    let mut state = RunnerState::new(5);
    let (effect, action) = runner_step(&mut state, RunnerEvent::TimerTick(3));
    assert!(matches!(action, RunnerAction::Continue));
    assert!(matches!(effect, RecordEffect::NoChange));
    let (effect, action) = runner_step(&mut state, RunnerEvent::TimerTick(6));
    assert!(matches!(action, RunnerAction::KillProcess));
    service.apply_to_job(id.as_str(), effect, 106);
    // Finalizing after the reap must not overwrite the failure.
    service.finalize_job(id.as_str(), 107);
    let r = service.get_result(id.as_str(), 0, 1000);
    assert_eq!(r.status, "failed".to_string());
    assert_eq!(r.error_message, Some("Timeout".to_string()));
    assert_eq!(r.output, vec!["[Execution timed out]".to_string()]);
    assert_eq!(r.duration, Some(6));
}

#[test]
fn read_error_fails_the_job_with_the_error_text() {
    let mut service = JobService::new(100);
    let id = service.start_job(100);
    let mut state = RunnerState::new(5);
    let (effect, action) = runner_step(
        &mut state,
        RunnerEvent::PrimaryError("broken pipe".to_string()),
    );
    assert!(matches!(action, RunnerAction::StopReading));
    service.apply_to_job(id.as_str(), effect, 101);
    service.finalize_job(id.as_str(), 102);
    let r = service.get_result(id.as_str(), 0, 1000);
    assert_eq!(r.status, "failed".to_string());
    assert_eq!(r.error_message, Some("Read error: broken pipe".to_string()));
}

#[test]
fn diagnostic_lines_are_tagged_and_prompt_echo_suppressed() {
    let mut service = JobService::new(100);
    let id = service.start_job(100);
    let mut state = RunnerState::new(5);
    let (effect, _) = runner_step(
        &mut state,
        RunnerEvent::DiagnosticLine("[sudo] password for root:".to_string()),
    );
    assert!(matches!(effect, RecordEffect::NoChange));
    service.apply_to_job(id.as_str(), effect, 100);
    let (effect, _) = runner_step(
        &mut state,
        RunnerEvent::DiagnosticLine("cannot attach probe".to_string()),
    );
    service.apply_to_job(id.as_str(), effect, 100);
    let (effect, _) = runner_step(&mut state, RunnerEvent::DiagnosticError);
    assert!(matches!(effect, RecordEffect::NoChange));
    let r = service.get_result(id.as_str(), 0, 1000);
    assert_eq!(r.output, vec!["[Error] cannot attach probe".to_string()]);
    assert_eq!(r.status, "running".to_string());
}

#[test]
fn spawn_failure_surfaces_in_the_grace_check() {
    let mut service = JobService::new(100);
    let id = service.start_job(100);
    let found = service.fail_spawn(id.as_str(), "No such file or directory".to_string(), 100);
    assert!(found);
    let check = service.grace_check(id.clone());
    assert_eq!(check.status, "error".to_string());
    assert!(check.execution_id.is_none());
    assert_eq!(
        check.message,
        "Failed to spawn process: No such file or directory".to_string()
    );
}

#[test]
fn terminal_status_never_changes_again() {
    let mut service = JobService::new(100);
    let id = service.start_job(100);
    let found = service.fail_spawn(id.as_str(), "boom".to_string(), 101);
    assert!(found);
    // Later events, finalization and repeated failures change nothing.
    let mut state = RunnerState::new(5);
    let (effect, _) = runner_step(&mut state, RunnerEvent::PrimaryLine("late".to_string()));
    service.apply_to_job(id.as_str(), effect, 102);
    service.finalize_job(id.as_str(), 103);
    service.fail_spawn(id.as_str(), "again".to_string(), 104);
    let r = service.get_result(id.as_str(), 0, 1000);
    assert_eq!(r.status, "failed".to_string());
    assert_eq!(r.error_message, Some("Failed to spawn process: boom".to_string()));
    assert_eq!(r.lines_total, 0);
    assert_eq!(r.duration, Some(1));
}

#[test]
fn sweep_evicts_only_records_past_the_retention_window() {
    let mut service = JobService::new(100);
    let created_at: u64 = 1000;
    let old_id = service.start_job(created_at);
    let young_id = service.start_job(created_at + 3000);
    // One second past the window: the old record goes, the young one stays.
    service.sweep(created_at + RETENTION_WINDOW_SECS + 1);
    let gone = service.get_result(old_id.as_str(), 0, 1000);
    assert_eq!(gone.status, "error".to_string());
    assert_eq!(gone.error_message, Some("Execution ID not found".to_string()));
    let kept = service.get_result(young_id.as_str(), 0, 1000);
    assert_eq!(kept.status, "running".to_string());
    // At exactly the window's edge nothing is evicted.
    let mut other = JobService::new(100);
    let id = other.start_job(created_at);
    other.sweep(created_at + RETENTION_WINDOW_SECS);
    let still = other.get_result(id.as_str(), 0, 1000);
    assert_eq!(still.status, "running".to_string());
}

#[test]
fn eviction_orphans_a_still_running_runner_harmlessly() {
    let mut service = JobService::new(100);
    let id = service.start_job(1000);
    service.sweep(1000 + RETENTION_WINDOW_SECS + 1);
    let mut state = RunnerState::new(5);
    let (effect, _) = runner_step(&mut state, RunnerEvent::PrimaryLine("orphan".to_string()));
    let found = service.apply_to_job(id.as_str(), effect, 5000);
    assert!(!found);
    let found = service.finalize_job(id.as_str(), 5000);
    assert!(!found);
    let r = service.get_result(id.as_str(), 0, 1000);
    assert_eq!(r.status, "error".to_string());
}

#[test]
fn overflowing_output_is_truncated_with_a_marker() {
    let mut service = JobService::new(2);
    let id = service.start_job(10);
    let mut state = RunnerState::new(10);
    for i in 0..5 {
        let (effect, _) = runner_step(&mut state, RunnerEvent::PrimaryLine(format!("l{}", i)));
        service.apply_to_job(id.as_str(), effect, 10);
    }
    let r = service.get_result(id.as_str(), 0, 1000);
    assert_eq!(r.lines_total, 3);
    assert_eq!(
        r.output,
        vec![
            "l0".to_string(),
            "l1".to_string(),
            "[Output truncated at 2 lines]".to_string()
        ]
    );
}

#[test]
fn defaults_match_the_protocol() {
    assert_eq!(default_timeout(), 10);
    assert_eq!(default_limit(), 1000);
}

#[test]
fn timeouts_are_clamped_to_the_effective_range() {
    assert_eq!(bpftrace_jobs::service::clamp_timeout(0), 1);
    assert_eq!(bpftrace_jobs::service::clamp_timeout(1), 1);
    assert_eq!(bpftrace_jobs::service::clamp_timeout(10), 10);
    assert_eq!(bpftrace_jobs::service::clamp_timeout(60), 60);
    assert_eq!(bpftrace_jobs::service::clamp_timeout(61), 60);
    assert_eq!(bpftrace_jobs::service::clamp_timeout(u64::MAX), 60);
}
