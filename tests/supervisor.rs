use ejlv_builder::{
    Command, FailReason, LineBuffer, Outcome, OutputEvent, SentinelWatcher, Session, SourceKind,
    State, DEFAULT_GRACE_PERIOD_MS, DEFAULT_READ_TIMEOUT_MS,
};

const MARKER: &[u8] = b"Benchmark Over";

fn running(kind: SourceKind, read_timeout: u64, grace: u64) -> Session {
    let mut s = Session::new(kind, MARKER.to_vec(), read_timeout, grace);
    let step = s.start(0);
    assert!(step.outcome.is_none());
    assert_eq!(step.command, Command::Idle);
    s
}

fn line(s: &mut Session, text: &[u8], now: u64) -> Option<Outcome> {
    let step = s.on_output(OutputEvent::Line(text.to_vec()), now);
    assert_eq!(step.command, Command::Idle);
    step.outcome
}

/// Feeds raw reads through a line buffer into the session, as the runner does.
fn stream(s: &mut Session, buf: &mut LineBuffer, read: &[u8], now: u64) -> Vec<Outcome> {
    let mut outs = Vec::new();
    for l in buf.push(read) {
        if let Some(o) = line(s, &l, now) {
            outs.push(o);
        }
    }
    outs
}

#[test]
fn fragments_split_marker_complete_session() {
    let mut s = running(SourceKind::Serial, 2000, 100);
    let mut buf = LineBuffer::new();
    let mut outs = Vec::new();
    for (t, f) in ["Starting\n", "x=1\n", "Benchm", "ark Over\n"].iter().enumerate() {
        outs.extend(stream(&mut s, &mut buf, f.as_bytes(), t as u64));
    }
    assert_eq!(outs.len(), 1);
    match &outs[0] {
        Outcome::Completed(text) => assert_eq!(text.as_slice(), b"Starting\nx=1\nBenchmark Over\n"),
        other => panic!("unexpected outcome {:?}", other),
    }
    assert_eq!(s.state(), State::Completed);
}

#[test]
fn watcher_reports_once_on_completing_fragment() {
    let frags: [&[u8]; 4] = [b"Starting\n", b"x=1\n", b"Benchm", b"ark Over\n"];
    let mut w = SentinelWatcher::new(MARKER.to_vec());
    let reports: Vec<Option<usize>> = frags.iter().map(|f| w.feed(f)).collect();
    assert_eq!(reports, vec![None, None, None, Some(13)]);
    assert!(w.is_found());
    assert_eq!(w.seen_bytes().as_slice(), b"Starting\nx=1\nBenchmark Over\n");
}

#[test]
fn watcher_reports_once_for_every_chunking() {
    let whole: &[u8] = b"abc Benchmark Over tail Benchmark Over";
    for cut1 in 0..=whole.len() {
        for cut2 in cut1..=whole.len() {
            let frags = [&whole[..cut1], &whole[cut1..cut2], &whole[cut2..]];
            let mut w = SentinelWatcher::new(MARKER.to_vec());
            let reports: Vec<Option<usize>> = frags.iter().map(|f| w.feed(f)).collect();
            let hits: Vec<usize> = (0..3).filter(|i| reports[*i].is_some()).collect();
            assert_eq!(hits.len(), 1, "cuts {} {}", cut1, cut2);
            let k = hits[0];
            let upto: usize = frags[..=k].iter().map(|f| f.len()).sum();
            let before: usize = frags[..k].iter().map(|f| f.len()).sum();
            assert!(upto >= 18 && before < 18, "cuts {} {}", cut1, cut2);
            assert_eq!(reports[k], Some(4));
            assert_eq!(w.seen_bytes().as_slice(), &whole[..upto]);
        }
    }
}

#[test]
fn watcher_is_case_sensitive() {
    let mut w = SentinelWatcher::new(MARKER.to_vec());
    assert_eq!(w.feed(b"benchmark over\n"), None);
    assert_eq!(w.feed(b"BENCHMARK OVER\n"), None);
    assert!(!w.is_found());
    assert_eq!(w.feed(b"Benchmark Over"), Some(30));
}

#[test]
fn watcher_takes_nothing_after_found() {
    let mut w = SentinelWatcher::new(b"ok".to_vec());
    assert_eq!(w.feed(b"ok"), Some(0));
    assert_eq!(w.feed(b"ok again"), None);
    assert_eq!(w.seen_bytes().as_slice(), b"ok");
}

#[test]
fn empty_marker_reports_on_first_fragment() {
    let mut w = SentinelWatcher::new(Vec::new());
    assert_eq!(w.feed(b"x"), Some(0));
    assert_eq!(w.feed(b"y"), None);
}

#[test]
fn completed_text_excludes_later_lines() {
    let mut s = running(SourceKind::Process, 1000, 100);
    assert!(line(&mut s, b"a\n", 1).is_none());
    match line(&mut s, b"Benchmark Over\n", 2) {
        Some(Outcome::Completed(t)) => assert_eq!(t.as_slice(), b"a\nBenchmark Over\n"),
        other => panic!("unexpected outcome {:?}", other),
    }
    assert!(line(&mut s, b"after\n", 3).is_none());
    assert_eq!(s.captured().as_slice(), b"a\nBenchmark Over\n");
    let step = s.on_output(OutputEvent::SourceEnded(Some(0)), 4);
    assert!(step.outcome.is_none());
    assert_eq!(s.state(), State::Completed);
}

#[test]
fn silence_past_read_timeout_times_out() {
    let mut s = running(SourceKind::Serial, 2000, 100);
    assert!(line(&mut s, b"hello\n", 0).is_none());
    assert_eq!(s.deadline(), Some(2000));
    let step = s.on_tick(1999);
    assert!(step.outcome.is_none());
    assert_eq!(s.state(), State::Running);
    let step = s.on_tick(2100);
    match step.outcome {
        Some(Outcome::TimedOut(t)) => assert_eq!(t.as_slice(), b"hello\n"),
        other => panic!("unexpected outcome {:?}", other),
    }
    assert_eq!(step.command, Command::Idle);
    assert_eq!(s.state(), State::TimedOut);
    assert_eq!(s.deadline(), None);
}

#[test]
fn read_timeout_counts_from_last_line() {
    let mut s = running(SourceKind::Process, 2000, 100);
    assert!(line(&mut s, b"one\n", 1500).is_none());
    assert!(s.on_tick(2100).outcome.is_none());
    assert_eq!(s.deadline(), Some(3500));
    assert!(matches!(s.on_tick(3500).outcome, Some(Outcome::TimedOut(_))));
}

#[test]
fn process_exit_before_marker_fails_with_status() {
    let mut s = running(SourceKind::Process, 2000, 100);
    assert!(line(&mut s, b"partial\n", 5).is_none());
    let step = s.on_output(OutputEvent::SourceEnded(Some(1)), 6);
    match step.outcome {
        Some(Outcome::Failed(t, FailReason::UnexpectedEnd(Some(1)))) => {
            assert_eq!(t.as_slice(), b"partial\n")
        },
        other => panic!("unexpected outcome {:?}", other),
    }
    assert_eq!(s.state(), State::Failed);
}

#[test]
fn clean_exit_before_marker_still_fails() {
    let mut s = running(SourceKind::Process, 2000, 100);
    let step = s.on_output(OutputEvent::SourceEnded(Some(0)), 1);
    assert!(matches!(
        step.outcome,
        Some(Outcome::Failed(_, FailReason::UnexpectedEnd(Some(0))))
    ));
}

#[test]
fn serial_close_before_marker_fails() {
    let mut s = running(SourceKind::Serial, 2000, 100);
    let step = s.on_output(OutputEvent::SourceEnded(None), 1);
    assert!(matches!(step.outcome, Some(Outcome::Failed(_, FailReason::UnexpectedEnd(None)))));
}

#[test]
fn spawn_failure_is_fatal() {
    let mut s = running(SourceKind::Process, 2000, 100);
    let step = s.on_output(OutputEvent::SpawnFailed("no such file".to_string()), 0);
    match step.outcome {
        Some(Outcome::Failed(t, FailReason::SpawnFailure(r))) => {
            assert!(t.is_empty());
            assert_eq!(r, "no such file");
        },
        other => panic!("unexpected outcome {:?}", other),
    }
    assert_eq!(s.state(), State::Failed);
}

#[test]
fn serial_open_failure_is_connection_failure() {
    let mut s = running(SourceKind::Serial, 2000, 100);
    let step = s.on_output(OutputEvent::SpawnFailed("busy".to_string()), 0);
    assert!(matches!(step.outcome, Some(Outcome::Failed(_, FailReason::ConnectionFailure(_)))));
}

#[test]
fn double_cancel_tears_down_once() {
    let mut s = running(SourceKind::Process, 2000, 500);
    assert!(line(&mut s, b"x\n", 10).is_none());
    let first = s.cancel(20);
    assert_eq!(first.command, Command::GracefulStop);
    match first.outcome {
        Some(Outcome::Failed(t, FailReason::Cancelled)) => assert_eq!(t.as_slice(), b"x\n"),
        other => panic!("unexpected outcome {:?}", other),
    }
    assert_eq!(s.state(), State::Cancelling);
    let second = s.cancel(20);
    assert_eq!(second.command, Command::Idle);
    assert!(second.outcome.is_none());
    assert_eq!(s.state(), State::Cancelling);
    assert_eq!(s.deadline(), Some(520));
}

#[test]
fn cancel_on_terminated_is_noop() {
    let mut s = running(SourceKind::Process, 2000, 500);
    s.cancel(0);
    s.on_output(OutputEvent::SourceEnded(None), 1);
    assert_eq!(s.state(), State::Terminated);
    let step = s.cancel(2);
    assert_eq!(step.command, Command::Idle);
    assert!(step.outcome.is_none());
    assert_eq!(s.state(), State::Terminated);
}

#[test]
fn unresponsive_process_is_killed_after_grace() {
    let mut s = running(SourceKind::Process, DEFAULT_READ_TIMEOUT_MS, DEFAULT_GRACE_PERIOD_MS);
    assert_eq!(s.cancel(1000).command, Command::GracefulStop);
    let early = s.on_tick(1000 + DEFAULT_GRACE_PERIOD_MS - 1);
    assert_eq!(early.command, Command::Idle);
    assert_eq!(s.state(), State::Cancelling);
    let late = s.on_tick(1000 + DEFAULT_GRACE_PERIOD_MS);
    assert_eq!(late.command, Command::ForceKill);
    assert!(late.outcome.is_none());
    assert_eq!(s.state(), State::Terminated);
    assert_eq!(s.on_tick(u64::MAX).command, Command::Idle);
}

#[test]
fn process_stopping_in_grace_needs_no_kill() {
    let mut s = running(SourceKind::Process, 2000, 500);
    s.cancel(0);
    let step = s.on_output(OutputEvent::SourceEnded(Some(143)), 100);
    assert_eq!(step.command, Command::Idle);
    assert_eq!(s.state(), State::Terminated);
    assert_eq!(s.on_tick(10_000).command, Command::Idle);
}

#[test]
fn serial_cancel_closes_without_kill() {
    let mut s = running(SourceKind::Serial, 2000, 500);
    let step = s.cancel(5);
    assert_eq!(step.command, Command::CloseHandle);
    assert!(matches!(step.outcome, Some(Outcome::Failed(_, FailReason::Cancelled))));
    assert_eq!(s.state(), State::Terminated);
    for t in [6, 505, 10_000, u64::MAX] {
        assert_eq!(s.on_tick(t).command, Command::Idle);
    }
    assert_eq!(s.cancel(7).command, Command::Idle);
}

#[test]
fn cancel_after_outcome_tears_down_without_second_outcome() {
    let mut s = running(SourceKind::Process, 2000, 500);
    assert!(line(&mut s, b"Benchmark Over\n", 1).is_some());
    let step = s.cancel(2);
    assert_eq!(step.command, Command::GracefulStop);
    assert!(step.outcome.is_none());
    assert_eq!(s.state(), State::Cancelling);
}

#[test]
fn cancel_before_start_terminates() {
    let mut s = Session::new(SourceKind::Process, MARKER.to_vec(), 2000, 500);
    assert_eq!(s.state(), State::Created);
    assert_eq!(s.deadline(), None);
    let step = s.cancel(0);
    assert_eq!(step.command, Command::Idle);
    assert!(matches!(step.outcome, Some(Outcome::Failed(_, FailReason::Cancelled))));
    assert_eq!(s.state(), State::Terminated);
    assert_eq!(s.start(1).command, Command::Idle);
    assert_eq!(s.state(), State::Terminated);
}

#[test]
fn events_before_start_are_ignored() {
    let mut s = Session::new(SourceKind::Serial, MARKER.to_vec(), 2000, 500);
    assert!(line(&mut s, b"Benchmark Over\n", 0).is_none());
    assert!(s.on_tick(1_000_000).outcome.is_none());
    assert_eq!(s.state(), State::Created);
    assert!(s.captured().is_empty());
}

#[test]
fn deadline_saturates() {
    let mut s = Session::new(SourceKind::Process, MARKER.to_vec(), u64::MAX, 10);
    s.start(5);
    assert_eq!(s.deadline(), Some(u64::MAX));
    assert!(s.on_tick(u64::MAX).outcome.is_none());
}

#[test]
fn line_buffer_splits_on_newlines() {
    let mut b = LineBuffer::new();
    let lines = b.push(b"ab\ncd\n\nef");
    assert_eq!(lines, vec![b"ab\n".to_vec(), b"cd\n".to_vec(), b"\n".to_vec()]);
    let lines = b.push(b"g");
    assert!(lines.is_empty());
    let lines = b.push(b"h\nij");
    assert_eq!(lines, vec![b"efgh\n".to_vec()]);
    assert_eq!(b.finish(), Some(b"ij".to_vec()));
    assert_eq!(b.finish(), None);
}

#[test]
fn line_buffer_empty_read() {
    let mut b = LineBuffer::new();
    assert!(b.push(b"").is_empty());
    assert_eq!(b.finish(), None);
}
