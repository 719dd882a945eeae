use vstd::prelude::*;
use crate::convert::{convert, rgb_of};

verus! {

/// Microseconds in one second.
pub const MICROS_PER_SEC: u64 = 1_000_000;

/// How long to wait before asking again when the source had no frame ready.
pub const RETRY_DELAY_MICROS: u64 = 1_000;

/// Where a recording stands; it only ever moves forward.
#[derive(Debug, Clone, Copy, PartialEq, Eq, Structural)]
pub enum Phase {
    Idle,
    Capturing,
    Draining,
    Terminated,
}

/// Why a session failed.
#[derive(Debug, Clone, Copy, PartialEq, Eq, Structural)]
pub enum SessionError {
    /// The geometry or rate is unusable, or the encoder could not be spawned.
    Setup,
    /// The capture source failed, or handed over a frame of another size.
    Source,
    /// Writing to the encoder's input failed.
    PipeWrite,
    /// The encoder exited with another status than zero.
    Subprocess,
}

/// What the driver of the pipeline reports back after carrying out an action.
#[derive(Debug, PartialEq, Eq)]
pub enum Event {
    /// The encoder process is running and its input is open.
    Started,
    /// The encoder process could not be spawned.
    SpawnFailed,
    /// Time since the session started, read before each acquisition.
    Tick { elapsed_micros: u64 },
    /// The source handed over a frame.
    Frame(Vec<u8>),
    /// The source had no frame ready yet.
    NotReady,
    /// The source failed in another way.
    SourceFailed,
    /// The last frame was written to the encoder in full.
    Fed,
    /// Writing the last frame to the encoder failed.
    FeedFailed,
    /// The encoder exited, with its status code if it has one.
    Exited { code: Option<i32> },
}

/// What the driver of the pipeline is to do next.
#[derive(Debug, PartialEq, Eq)]
pub enum Action {
    /// Spawn the encoder, then report `Started` or `SpawnFailed`.
    Start,
    /// Read the time since the session started and report `Tick`.
    Poll,
    /// Ask the source for a frame; report `Frame`, `NotReady` or `SourceFailed`.
    Acquire,
    /// Write these bytes to the encoder's input; report `Fed` or `FeedFailed`.
    Feed(Vec<u8>),
    /// Sleep this long, then report `Tick`.
    Sleep { micros: u64 },
    /// Close the encoder's input, wait for it to exit and report `Exited`.
    Finish,
    /// The session is over.
    Stop,
    /// The event does not belong to the current phase; nothing changed.
    Ignored,
}

/// The decisions of one recording: paced capture of a fixed geometry, frames
/// fed to the encoder in capture order, and one orderly shutdown of it.
#[derive(Debug, Clone, Copy, PartialEq, Eq, Structural)]
pub struct Pipeline {
    pub phase: Phase,
    pub width: usize,
    pub height: usize,
    pub duration_secs: u64,
    pub frame_interval_micros: u64,
    pub frames_fed: u64,
    pub finish_requested: bool,
    pub failure: Option<SessionError>,
    pub exit_code: Option<i32>,
}

/// What an action amounts to, with frame bytes as a sequence.
pub enum Step {
    Start,
    Poll,
    Acquire,
    Feed(Seq<u8>),
    Sleep(u64),
    Finish,
    Stop,
    Ignored,
}

impl View for Action {
    type V = Step;

    open spec fn view(&self) -> Step {
        match self {
            Action::Start => Step::Start,
            Action::Poll => Step::Poll,
            Action::Acquire => Step::Acquire,
            Action::Feed(b) => Step::Feed(b@),
            Action::Sleep { micros } => Step::Sleep(*micros),
            Action::Finish => Step::Finish,
            Action::Stop => Step::Stop,
            Action::Ignored => Step::Ignored,
        }
    }
}

/// The bytes of a frame of the pipeline's geometry have this length.
pub open spec fn frame_len(p: Pipeline) -> int {
    p.width * p.height * 4
}

/// The capture deadline has not passed at this time since the start.
pub open spec fn before_deadline(p: Pipeline, elapsed_micros: u64) -> bool {
    elapsed_micros / MICROS_PER_SEC < p.duration_secs
}

impl Pipeline {
    /// The encoder input is closed once the pipeline starts draining and was
    /// never closed before; a session that failed to spawn has nothing to close.
    pub open spec fn wf(self) -> bool {
        &&& (self.phase == Phase::Idle || self.phase == Phase::Capturing) ==> !self.finish_requested
        &&& self.phase == Phase::Draining ==> self.finish_requested && self.failure != Some(SessionError::Setup)
        &&& self.phase == Phase::Terminated ==> (self.finish_requested <==> self.failure != Some(SessionError::Setup))
        &&& self.phase == Phase::Idle ==> self.failure is None
        &&& self.phase == Phase::Capturing ==> self.failure is None
    }

    /// The pipeline after it starts draining, with this terminating error.
    pub open spec fn draining(self, failure: Option<SessionError>) -> Pipeline {
        Pipeline { phase: Phase::Draining, finish_requested: true, failure, ..self }
    }

    /// The pipeline after `e`.
    pub open spec fn next(self, e: Event) -> Pipeline {
        match (self.phase, e) {
            (Phase::Idle, Event::Started) => Pipeline { phase: Phase::Capturing, ..self },
            (Phase::Idle, Event::SpawnFailed) => Pipeline {
                phase: Phase::Terminated,
                failure: Some(SessionError::Setup),
                ..self
            },
            (Phase::Capturing, Event::Tick { elapsed_micros }) =>
                if before_deadline(self, elapsed_micros) { self } else { self.draining(None) },
            (Phase::Capturing, Event::Frame(f)) =>
                if f@.len() == frame_len(self) { self } else { self.draining(Some(SessionError::Source)) },
            (Phase::Capturing, Event::SourceFailed) => self.draining(Some(SessionError::Source)),
            (Phase::Capturing, Event::Fed) => Pipeline {
                frames_fed: if self.frames_fed < u64::MAX { (self.frames_fed + 1) as u64 } else { self.frames_fed },
                ..self
            },
            (Phase::Capturing, Event::FeedFailed) => self.draining(Some(SessionError::PipeWrite)),
            (Phase::Draining, Event::Exited { code }) => Pipeline {
                phase: Phase::Terminated,
                exit_code: code,
                failure: if self.failure is None && code != Some(0i32) {
                    Some(SessionError::Subprocess)
                } else {
                    self.failure
                },
                ..self
            },
            _ => self,
        }
    }

    /// What the pipeline asks for after `e`.
    pub open spec fn answer(self, e: Event) -> Step {
        match (self.phase, e) {
            (Phase::Idle, Event::Started) => Step::Poll,
            (Phase::Idle, Event::SpawnFailed) => Step::Stop,
            (Phase::Capturing, Event::Tick { elapsed_micros }) =>
                if before_deadline(self, elapsed_micros) { Step::Acquire } else { Step::Finish },
            (Phase::Capturing, Event::Frame(f)) =>
                if f@.len() == frame_len(self) {
                    Step::Feed(rgb_of(f@, (self.width * self.height) as nat))
                } else {
                    Step::Finish
                },
            (Phase::Capturing, Event::NotReady) => Step::Sleep(RETRY_DELAY_MICROS),
            (Phase::Capturing, Event::SourceFailed) => Step::Finish,
            (Phase::Capturing, Event::Fed) => Step::Sleep(self.frame_interval_micros),
            (Phase::Capturing, Event::FeedFailed) => Step::Finish,
            (Phase::Draining, Event::Exited { .. }) => Step::Stop,
            _ => Step::Ignored,
        }
    }

    /// A pipeline for one recording of a `width` by `height` display at `fps`
    /// frames a second for `duration_secs` seconds. Fails with a setup error on
    /// an empty geometry or a rate of zero.
    pub fn new(width: usize, height: usize, fps: u32, duration_secs: u64) -> (r: Result<Pipeline, SessionError>)
        ensures
            (width > 0 && height > 0 && fps > 0) <==> r is Ok,
            r is Err ==> r == Err::<Pipeline, SessionError>(SessionError::Setup),
            r matches Ok(p) ==> p.wf() && p == (Pipeline {
                phase: Phase::Idle,
                width,
                height,
                duration_secs,
                frame_interval_micros: (MICROS_PER_SEC / fps as u64) as u64,
                frames_fed: 0,
                finish_requested: false,
                failure: None,
                exit_code: None,
            }),
    {
        if width == 0 || height == 0 || fps == 0 {
            return Err(SessionError::Setup);
        }
        Ok(Pipeline {
            phase: Phase::Idle,
            width,
            height,
            duration_secs,
            frame_interval_micros: MICROS_PER_SEC / fps as u64,
            frames_fed: 0,
            finish_requested: false,
            failure: None,
            exit_code: None,
        })
    }

    /// The first action of a recording: spawn the encoder.
    pub fn begin(&self) -> (a: Action)
        ensures
            self.phase == Phase::Idle ==> a == Action::Start,
            self.phase != Phase::Idle ==> a == Action::Ignored,
    {
        if self.phase == Phase::Idle { Action::Start } else { Action::Ignored }
    }

    /// Takes in what the driver reports and says what it is to do next.
    pub fn step(&mut self, e: Event) -> (a: Action)
        requires
            old(self).wf(),
        ensures
            *final(self) == old(self).next(e),
            a@ == old(self).answer(e),
            final(self).wf(),
    {
        match (self.phase, e) {
            (Phase::Idle, Event::Started) => {
                self.phase = Phase::Capturing;
                Action::Poll
            },
            (Phase::Idle, Event::SpawnFailed) => {
                self.phase = Phase::Terminated;
                self.failure = Some(SessionError::Setup);
                Action::Stop
            },
            (Phase::Capturing, Event::Tick { elapsed_micros }) => {
                if elapsed_micros / MICROS_PER_SEC < self.duration_secs {
                    Action::Acquire
                } else {
                    self.drain(None)
                }
            },
            (Phase::Capturing, Event::Frame(f)) => {
                match convert(f.as_slice(), self.width, self.height) {
                    Ok(rgb) => Action::Feed(rgb),
                    Err(_) => self.drain(Some(SessionError::Source)),
                }
            },
            (Phase::Capturing, Event::NotReady) => Action::Sleep { micros: RETRY_DELAY_MICROS },
            (Phase::Capturing, Event::SourceFailed) => self.drain(Some(SessionError::Source)),
            (Phase::Capturing, Event::Fed) => {
                if self.frames_fed < u64::MAX {
                    self.frames_fed = self.frames_fed + 1;
                }
                Action::Sleep { micros: self.frame_interval_micros }
            },
            (Phase::Capturing, Event::FeedFailed) => self.drain(Some(SessionError::PipeWrite)),
            (Phase::Draining, Event::Exited { code }) => {
                self.phase = Phase::Terminated;
                self.exit_code = code;
                if self.failure.is_none() && code != Some(0i32) {
                    self.failure = Some(SessionError::Subprocess);
                }
                Action::Stop
            },
            _ => Action::Ignored,
        }
    }

    fn drain(&mut self, failure: Option<SessionError>) -> (a: Action)
        ensures
            *final(self) == old(self).draining(failure),
            a == Action::Finish,
    {
        self.phase = Phase::Draining;
        self.finish_requested = true;
        self.failure = failure;
        Action::Finish
    }
}

/// The pipeline after each of `events` in turn.
pub open spec fn run(p: Pipeline, events: Seq<Event>) -> Pipeline
    decreases events.len(),
{
    if events.len() == 0 {
        p
    } else {
        run(p.next(events[0]), events.drop_first())
    }
}

/// How many times the pipeline asks for the encoder to be finished while it
/// takes in `events`.
pub open spec fn finishes(p: Pipeline, events: Seq<Event>) -> nat
    decreases events.len(),
{
    if events.len() == 0 {
        0
    } else {
        (if p.answer(events[0]) is Finish { 1nat } else { 0nat }) + finishes(p.next(events[0]), events.drop_first())
    }
}

proof fn lemma_next_keeps_wf(p: Pipeline, e: Event)
    requires
        p.wf(),
    ensures
        p.next(e).wf(),
        p.answer(e) is Finish <==> (!p.finish_requested && p.next(e).finish_requested),
{
}

proof fn lemma_finish_count(p: Pipeline, events: Seq<Event>)
    requires
        p.wf(),
    ensures
        run(p, events).wf(),
        finishes(p, events) + (if p.finish_requested { 1nat } else { 0nat })
            == (if run(p, events).finish_requested { 1nat } else { 0nat }),
    decreases events.len(),
{
    if events.len() > 0 {
        lemma_next_keeps_wf(p, events[0]);
        lemma_finish_count(p.next(events[0]), events.drop_first());
    }
}

/// A recording asks for the encoder to be finished at most once, whatever
/// events come in; once it is draining or has terminated after the encoder
/// started, whether the deadline passed, the source failed or a write
/// failed, it has asked exactly once.
pub proof fn lemma_finish_once(p: Pipeline, events: Seq<Event>)
    requires
        p.wf(),
        p.phase == Phase::Idle,
    ensures
        finishes(p, events) <= 1,
        run(p, events).phase == Phase::Draining ==> finishes(p, events) == 1,
        run(p, events).phase == Phase::Terminated && run(p, events).failure != Some(SessionError::Setup)
            ==> finishes(p, events) == 1,
{
    lemma_finish_count(p, events);
}

/// Capture stops at the deadline: a clock reading at or past the session's
/// duration starts the drain instead of another acquisition.
pub proof fn lemma_no_capture_past_deadline(p: Pipeline, elapsed_micros: u64)
    requires
        p.wf(),
        p.phase == Phase::Capturing,
        elapsed_micros >= p.duration_secs * MICROS_PER_SEC,
    ensures
        p.answer(Event::Tick { elapsed_micros }) is Finish,
        p.next(Event::Tick { elapsed_micros }).phase == Phase::Draining,
{
    assert(elapsed_micros / MICROS_PER_SEC >= p.duration_secs) by (nonlinear_arith)
        requires
            elapsed_micros >= p.duration_secs * MICROS_PER_SEC,
            MICROS_PER_SEC == 1_000_000u64,
    ;
}

/// The pipeline after pacing against a source that has frame `f` ready at
/// once and an encoder that takes it at once, starting with the clock at
/// `clock`: the clock moves on by the pacing sleeps alone. `deadline` is the
/// clock reading in microseconds at which the session's duration is up.
pub open spec fn instant_run(p: Pipeline, f: Vec<u8>, clock: nat, deadline: nat) -> Pipeline
    decreases if clock < deadline { deadline - clock } else { 0 },
{
    if clock > u64::MAX || p.frame_interval_micros == 0 {
        p
    } else if clock < deadline {
        instant_run(
            p.next(Event::Tick { elapsed_micros: clock as u64 }).next(Event::Frame(f)).next(Event::Fed),
            f,
            (clock + p.frame_interval_micros) as nat,
            deadline,
        )
    } else {
        p.next(Event::Tick { elapsed_micros: clock as u64 })
    }
}

proof fn lemma_deadline_in_micros(p: Pipeline, clock: u64)
    ensures
        before_deadline(p, clock) <==> clock < p.duration_secs * MICROS_PER_SEC,
{
    assert(clock / MICROS_PER_SEC < p.duration_secs <==> clock < p.duration_secs * MICROS_PER_SEC) by (nonlinear_arith)
        requires
            MICROS_PER_SEC == 1_000_000u64,
    ;
}

proof fn lemma_instant_run_from(p: Pipeline, f: Vec<u8>, clock: nat, deadline: nat)
    requires
        deadline == p.duration_secs * MICROS_PER_SEC,
        p.wf(),
        p.phase == Phase::Capturing,
        f@.len() == frame_len(p),
        p.frame_interval_micros > 0,
        clock == p.frames_fed * p.frame_interval_micros,
        clock < p.duration_secs * MICROS_PER_SEC + p.frame_interval_micros,
        p.duration_secs * MICROS_PER_SEC + p.frame_interval_micros <= u64::MAX,
    ensures
        instant_run(p, f, clock, deadline).phase == Phase::Draining,
        instant_run(p, f, clock, deadline).failure is None,
        instant_run(p, f, clock, deadline).frames_fed * p.frame_interval_micros >= p.duration_secs * MICROS_PER_SEC,
        instant_run(p, f, clock, deadline).frames_fed * p.frame_interval_micros
            < p.duration_secs * MICROS_PER_SEC + p.frame_interval_micros,
    decreases if clock < deadline { deadline - clock } else { 0 },
{
    lemma_deadline_in_micros(p, clock as u64);
    if clock < p.duration_secs * MICROS_PER_SEC {
        let q = p.next(Event::Tick { elapsed_micros: clock as u64 }).next(Event::Frame(f)).next(Event::Fed);
        assert(p.frames_fed < u64::MAX) by (nonlinear_arith)
            requires
                p.frames_fed * p.frame_interval_micros == clock,
                clock < p.duration_secs * MICROS_PER_SEC,
                p.duration_secs * MICROS_PER_SEC + p.frame_interval_micros <= u64::MAX,
                p.frame_interval_micros > 0,
        ;
        assert(q.frames_fed == p.frames_fed + 1);
        assert(q.duration_secs == p.duration_secs && q.frame_interval_micros == p.frame_interval_micros);
        assert(q.frames_fed * p.frame_interval_micros == clock + p.frame_interval_micros) by (nonlinear_arith)
            requires
                q.frames_fed == p.frames_fed + 1,
                clock == p.frames_fed * p.frame_interval_micros,
        ;
        lemma_instant_run_from(q, f, (clock + p.frame_interval_micros) as nat, deadline);
    }
}

/// Pacing stops by itself: against a source that always has a frame ready at
/// once and an encoder that takes it at once, a session that starts capturing
/// at time zero drains without any outside signal, having fed frames every
/// frame interval up to the duration and not one interval past it.
pub proof fn lemma_pacing_stops(p: Pipeline, f: Vec<u8>)
    requires
        p.wf(),
        p.phase == Phase::Capturing,
        p.frames_fed == 0,
        f@.len() == frame_len(p),
        p.frame_interval_micros > 0,
        p.duration_secs * MICROS_PER_SEC + p.frame_interval_micros <= u64::MAX,
    ensures
        instant_run(p, f, 0, (p.duration_secs * MICROS_PER_SEC) as nat).phase == Phase::Draining,
        instant_run(p, f, 0, (p.duration_secs * MICROS_PER_SEC) as nat).failure is None,
        instant_run(p, f, 0, (p.duration_secs * MICROS_PER_SEC) as nat).frames_fed * p.frame_interval_micros >= p.duration_secs * MICROS_PER_SEC,
        instant_run(p, f, 0, (p.duration_secs * MICROS_PER_SEC) as nat).frames_fed * p.frame_interval_micros
            < p.duration_secs * MICROS_PER_SEC + p.frame_interval_micros,
{
    lemma_instant_run_from(p, f, 0, (p.duration_secs * MICROS_PER_SEC) as nat);
}

} // verus!
