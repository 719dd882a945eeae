use screencast::pipeline::{Action, Event, Phase, Pipeline, SessionError};

/// What a scripted source does on each acquisition.
#[derive(Clone, Copy, PartialEq)]
enum SourceScript {
    AlwaysReady,
    NotReadyEveryOther,
    FailsAfter(usize),
}

struct Record {
    starts: usize,
    feeds: Vec<usize>,
    finishes: usize,
    final_state: Pipeline,
}

/// Drives a pipeline with a fake clock, a scripted source and a fake encoder
/// whose writes fail from `fail_write_at` on and which exits with `exit_code`.
fn drive(
    width: usize,
    height: usize,
    fps: u32,
    secs: u64,
    script: SourceScript,
    fail_write_at: Option<usize>,
    exit_code: Option<i32>,
) -> Record {
    let mut p = Pipeline::new(width, height, fps, secs).unwrap();
    let mut clock: u64 = 0;
    let mut acquisitions: usize = 0;
    let mut record = Record { starts: 0, feeds: Vec::new(), finishes: 0, final_state: p };
    let mut action = p.begin();
    for _ in 0..100_000 {
        let event = match action {
            Action::Start => {
                record.starts += 1;
                Event::Started
            }
            Action::Poll => Event::Tick { elapsed_micros: clock },
            Action::Acquire => {
                acquisitions += 1;
                match script {
                    SourceScript::AlwaysReady => Event::Frame(vec![7u8; width * height * 4]),
                    SourceScript::NotReadyEveryOther if acquisitions % 2 == 0 => Event::NotReady,
                    SourceScript::NotReadyEveryOther => Event::Frame(vec![7u8; width * height * 4]),
                    SourceScript::FailsAfter(n) if acquisitions > n => Event::SourceFailed,
                    SourceScript::FailsAfter(_) => Event::Frame(vec![7u8; width * height * 4]),
                }
            }
            Action::Feed(bytes) => {
                record.feeds.push(bytes.len());
                match fail_write_at {
                    Some(n) if record.feeds.len() >= n => Event::FeedFailed,
                    _ => Event::Fed,
                }
            }
            Action::Sleep { micros } => {
                clock += micros;
                Event::Tick { elapsed_micros: clock }
            }
            Action::Finish => {
                record.finishes += 1;
                Event::Exited { code: exit_code }
            }
            Action::Stop => break,
            Action::Ignored => panic!("event out of order"),
        };
        action = p.step(event);
    }
    record.final_state = p;
    record
}

#[test]
fn end_to_end_small_geometry() {
    let r = drive(2, 2, 10, 1, SourceScript::AlwaysReady, None, Some(0));
    assert_eq!(r.starts, 1);
    assert!(r.feeds.len() >= 9 && r.feeds.len() <= 11);
    assert!(r.feeds.iter().all(|&n| n == 12));
    assert_eq!(r.finishes, 1);
    assert_eq!(r.final_state.phase, Phase::Terminated);
    assert_eq!(r.final_state.failure, None);
    assert_eq!(r.final_state.exit_code, Some(0));
    assert_eq!(r.final_state.frames_fed as usize, r.feeds.len());
}

#[test]
fn pacer_stops_near_rate_times_duration() {
    let r = drive(1, 1, 30, 2, SourceScript::AlwaysReady, None, Some(0));
    assert!(r.feeds.len() >= 58 && r.feeds.len() <= 62);
    assert_eq!(r.finishes, 1);
    assert_eq!(r.final_state.phase, Phase::Terminated);
}

#[test]
fn not_ready_is_retried() {
    let r = drive(1, 1, 10, 1, SourceScript::NotReadyEveryOther, None, Some(0));
    assert!(r.feeds.len() >= 9 && r.feeds.len() <= 11);
    assert_eq!(r.final_state.failure, None);
}

#[test]
fn finish_once_on_source_error() {
    let r = drive(2, 2, 10, 5, SourceScript::FailsAfter(3), None, Some(0));
    assert_eq!(r.feeds.len(), 3);
    assert_eq!(r.finishes, 1);
    assert_eq!(r.final_state.phase, Phase::Terminated);
    assert_eq!(r.final_state.failure, Some(SessionError::Source));
}

#[test]
fn finish_once_on_pipe_write_error() {
    let r = drive(2, 2, 10, 5, SourceScript::AlwaysReady, Some(4), Some(0));
    assert_eq!(r.feeds.len(), 4);
    assert_eq!(r.finishes, 1);
    assert_eq!(r.final_state.failure, Some(SessionError::PipeWrite));
    assert_eq!(r.final_state.frames_fed, 3);
}

#[test]
fn nonzero_exit_is_a_failure() {
    let r = drive(2, 2, 10, 1, SourceScript::AlwaysReady, None, Some(1));
    assert_eq!(r.finishes, 1);
    assert_eq!(r.final_state.failure, Some(SessionError::Subprocess));
    assert_eq!(r.final_state.exit_code, Some(1));
}

#[test]
fn spawn_failure_needs_no_finish() {
    let mut p = Pipeline::new(4, 4, 30, 10).unwrap();
    assert_eq!(p.begin(), Action::Start);
    assert_eq!(p.step(Event::SpawnFailed), Action::Stop);
    assert_eq!(p.phase, Phase::Terminated);
    assert_eq!(p.failure, Some(SessionError::Setup));
    assert!(!p.finish_requested);
}

#[test]
fn geometry_change_is_a_source_error() {
    let mut p = Pipeline::new(2, 2, 10, 1).unwrap();
    assert_eq!(p.step(Event::Started), Action::Poll);
    assert_eq!(p.step(Event::Tick { elapsed_micros: 0 }), Action::Acquire);
    assert_eq!(p.step(Event::Frame(vec![0u8; 12])), Action::Finish);
    assert_eq!(p.phase, Phase::Draining);
    assert_eq!(p.failure, Some(SessionError::Source));
}

#[test]
fn frame_is_converted_before_feeding() {
    let mut p = Pipeline::new(1, 1, 10, 1).unwrap();
    p.step(Event::Started);
    p.step(Event::Tick { elapsed_micros: 0 });
    assert_eq!(p.step(Event::Frame(vec![1, 2, 3, 4])), Action::Feed(vec![3, 2, 1]));
    assert_eq!(p.step(Event::Fed), Action::Sleep { micros: 100_000 });
}

#[test]
fn deadline_is_checked_against_elapsed_time() {
    let mut p = Pipeline::new(1, 1, 10, 2).unwrap();
    p.step(Event::Started);
    assert_eq!(p.step(Event::Tick { elapsed_micros: 1_999_999 }), Action::Acquire);
    let mut q = Pipeline::new(1, 1, 10, 2).unwrap();
    q.step(Event::Started);
    assert_eq!(q.step(Event::Tick { elapsed_micros: 2_000_000 }), Action::Finish);
}

#[test]
fn events_out_of_phase_are_ignored() {
    let mut p = Pipeline::new(1, 1, 10, 1).unwrap();
    let before = p;
    assert_eq!(p.step(Event::Fed), Action::Ignored);
    assert_eq!(p, before);
}

#[test]
fn invalid_settings_are_setup_errors() {
    assert_eq!(Pipeline::new(0, 1, 30, 1), Err(SessionError::Setup));
    assert_eq!(Pipeline::new(1, 0, 30, 1), Err(SessionError::Setup));
    assert_eq!(Pipeline::new(1, 1, 0, 1), Err(SessionError::Setup));
}

#[test]
fn frame_interval_follows_rate() {
    assert_eq!(Pipeline::new(1, 1, 30, 1).unwrap().frame_interval_micros, 33_333);
    assert_eq!(Pipeline::new(1, 1, 10, 1).unwrap().frame_interval_micros, 100_000);
}
