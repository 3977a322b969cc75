use vidsave_core::downloader::{
    attempt_outcome, exit_message, launch_failure, permits_for, push_recent,
    single_attempt_event, stdout_line, stop_event, AttemptOutcome, DownloadEvent, ProcessExit,
    ItemRun, RetryLoop, RetryStep, RunPhase, MAX_ATTEMPTS, MAX_KEPT,
};
use vidsave_core::ytdlp::DL_MARKER;

#[test]
fn a_stop_is_a_pause_or_a_cancel() {
    assert!(matches!(stop_event(4, true), DownloadEvent::Paused(4)));
    assert!(matches!(stop_event(4, false), DownloadEvent::Cancelled(4)));
}

#[test]
fn concurrency_is_at_least_one() {
    assert_eq!(permits_for(0), 1);
    assert_eq!(permits_for(3), 3);
}

#[test]
fn failures_are_retried_until_the_last_attempt() {
    let mut run = RetryLoop::new(2);
    for attempt in 1..MAX_ATTEMPTS {
        match run.after_attempt(AttemptOutcome::Failed(format!("err {attempt}")), false) {
            RetryStep::RetryAfterDelay(DownloadEvent::Log(2, line)) => assert_eq!(
                line,
                format!("-- attempt {attempt}/5 failed (err {attempt}), retrying in 3s --")
            ),
            other => panic!("expected a retry, got {other:?}"),
        }
    }
    match run.after_attempt(AttemptOutcome::Failed("last".into()), false) {
        RetryStep::Report(DownloadEvent::Finished(2, Err(m))) => {
            assert_eq!(m, "failed after 5 attempts: last")
        }
        other => panic!("expected the final failure, got {other:?}"),
    }
}

#[test]
fn success_skip_and_stop_end_the_loop_at_once() {
    let mut run = RetryLoop::new(0);
    assert!(matches!(
        run.after_attempt(AttemptOutcome::Success, false),
        RetryStep::Report(DownloadEvent::Finished(0, Ok(())))
    ));
    assert!(matches!(
        run.after_attempt(AttemptOutcome::Skipped, false),
        RetryStep::Report(DownloadEvent::Skipped(0))
    ));
    assert!(matches!(
        run.after_attempt(AttemptOutcome::StoppedByUser, true),
        RetryStep::Report(DownloadEvent::Paused(0))
    ));
    assert!(matches!(run.stopped_while_waiting(false), DownloadEvent::Cancelled(0)));
    assert_eq!(run.attempt, 1);
}

#[test]
fn attempt_outcome_prefers_a_user_stop() {
    let tail = vec!["x".to_string()];
    assert_eq!(attempt_outcome(true, ProcessExit::Success, true, &tail), AttemptOutcome::StoppedByUser);
    assert_eq!(attempt_outcome(false, ProcessExit::Success, true, &tail), AttemptOutcome::Skipped);
    assert_eq!(attempt_outcome(false, ProcessExit::Success, false, &tail), AttemptOutcome::Success);
}

#[test]
fn failure_message_uses_the_last_three_stderr_lines() {
    let tail: Vec<String> = ["a", "b", "c", "d"].iter().map(|s| s.to_string()).collect();
    assert_eq!(
        attempt_outcome(false, ProcessExit::Failure("exit status: 1".into()), false, &tail),
        AttemptOutcome::Failed("b | c | d".into())
    );
    assert_eq!(exit_message("exit status: 2", &vec![]), "yt-dlp exited with status exit status: 2");
    assert_eq!(exit_message("x", &vec!["only".to_string()]), "only");
    assert_eq!(
        attempt_outcome(false, ProcessExit::WaitError("io".into()), false, &vec![]),
        AttemptOutcome::Failed("failed waiting on yt-dlp: io".into())
    );
    assert_eq!(launch_failure("not found"), AttemptOutcome::Failed("failed to launch yt-dlp: not found".into()));
}

#[test]
fn stderr_buffer_keeps_the_newest_lines() {
    let mut recent = Vec::new();
    for i in 0..(MAX_KEPT + 7) {
        push_recent(&mut recent, i.to_string());
    }
    assert_eq!(recent.len(), MAX_KEPT);
    assert_eq!(recent[0], "7");
    assert_eq!(recent[MAX_KEPT - 1], (MAX_KEPT + 6).to_string());
}

#[test]
fn stdout_lines_become_events() {
    let (ev, archived) = stdout_line(1, format!("{DL_MARKER}downloading\t10\t100\tNA\tNA\tNA"));
    assert!(matches!(ev, Some(DownloadEvent::Progress(1, ref p)) if p.percent_tenths == 100));
    assert!(!archived);
    let (ev, archived) = stdout_line(1, format!("{DL_MARKER}finished\t1\t1\t1\t0\t0"));
    assert!(ev.is_none() && !archived);
    let note = "[download] abc: has already been recorded in the archive".to_string();
    let (ev, archived) = stdout_line(1, note.clone());
    assert!(archived);
    assert!(matches!(ev, Some(DownloadEvent::Log(1, ref l)) if *l == note));
}

#[test]
fn single_attempt_queue_reports_once() {
    assert!(matches!(single_attempt_event(3, AttemptOutcome::StoppedByUser), DownloadEvent::Cancelled(3)));
    assert!(matches!(
        single_attempt_event(3, AttemptOutcome::Failed("x".into())),
        DownloadEvent::Finished(3, Err(ref m)) if m == "x"
    ));
}

#[test]
fn a_failing_item_reports_four_notes_then_one_failure() {
    let mut run = ItemRun::new(3);
    assert!(matches!(run.begin(true, false), DownloadEvent::Started(3)));
    let mut notes = 0;
    loop {
        assert_eq!(run.phase, RunPhase::Attempting);
        match run.attempt_ended(AttemptOutcome::Failed("HTTP 403".to_string()), false) {
            RetryStep::RetryAfterDelay(DownloadEvent::Log(3, note)) => {
                notes += 1;
                assert_eq!(note, format!("-- attempt {notes}/5 failed (HTTP 403), retrying in 3s --"));
                assert_eq!(run.phase, RunPhase::Waiting);
                assert!(run.wait_ended(false, false).is_none());
            }
            RetryStep::Report(DownloadEvent::Finished(3, Err(m))) => {
                assert_eq!(m, "failed after 5 attempts: HTTP 403");
                break;
            }
            other => panic!("unexpected step {other:?}"),
        }
    }
    assert_eq!(notes, 4);
    assert_eq!(run.phase, RunPhase::Over);
}

#[test]
fn an_item_stopped_before_its_slot_or_while_waiting_reports_only_the_stop() {
    let mut queued = ItemRun::new(0);
    assert!(matches!(queued.begin(false, true), DownloadEvent::Paused(0)));
    assert_eq!(queued.phase, RunPhase::Over);

    let mut run = ItemRun::new(1);
    run.begin(true, false);
    assert!(matches!(
        run.attempt_ended(AttemptOutcome::Failed("timeout".to_string()), false),
        RetryStep::RetryAfterDelay(_)
    ));
    assert!(matches!(run.wait_ended(true, false), Some(DownloadEvent::Cancelled(1))));
    assert_eq!(run.phase, RunPhase::Over);

    let mut ok = ItemRun::new(2);
    ok.begin(true, false);
    assert!(matches!(
        ok.attempt_ended(AttemptOutcome::StoppedByUser, true),
        RetryStep::Report(DownloadEvent::Paused(2))
    ));
}
