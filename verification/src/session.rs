//! The recording-session coordinator: the state machine that arbitrates
//! hotkey presses and releases, the level poller that feeds the indicator,
//! and the stop worker that hands a finished recording on to transcription
//! and paste without disturbing a session that has started since.

use vstd::prelude::*;
use crate::capture::CaptureError;
use crate::text::{opt_text, prefixed, str_eq};
use crate::transcription::TranscriptionError;

verus! {

/// A press is refused while less than this much time has passed since the
/// last stop.
pub const DEBOUNCE_MS: u64 = 300;

/// How long the level poller waits for the indicator to report ready.
pub const READY_TIMEOUT_MS: u64 = 3000;

/// The pause between two looks at the indicator's ready signal.
pub const READY_POLL_MS: u64 = 20;

/// The cadence at which levels are forwarded to observers.
pub const LEVEL_POLL_MS: u64 = 50;

/// The identity under which this application itself appears when it is
/// frontmost.
pub fn own_bundle_id() -> (r: &'static str)
    ensures
        r@ == own_bundle_text(),
{
    "com.tommyross.scrivano"
}

/// The text of `own_bundle_id`.
pub open spec fn own_bundle_text() -> Seq<char> {
    "com.tommyross.scrivano"@
}

/// The three states of the coordinator.
#[derive(Clone, Copy, Debug, PartialEq, Eq, Structural)]
pub enum SessionState {
    Idle,
    Recording,
    Stopping,
}

/// What the coordinator answers to a press.
#[derive(Clone, Copy, Debug, PartialEq, Eq, Structural)]
pub enum PressDecision {
    /// A new session starts.
    Start,
    /// The press came too soon after the last stop and is ignored.
    Debounced,
    /// A session is recording or stopping; the press is ignored.
    Busy,
}

/// What the coordinator answers to a release.
#[derive(Debug, PartialEq, Eq)]
pub enum ReleaseDecision {
    /// The session stops; the paste target remembered at press time is
    /// handed to the stop worker.
    Stop { original_app: Option<String> },
    /// No session was recording.
    Ignore,
}

/// The mathematical content of a coordinator.
pub struct SessionModel {
    pub state: SessionState,
    /// When the last session was stopped, if one ever was.
    pub last_stop: Option<u64>,
    /// The application that was frontmost when the current or most recent
    /// session started.
    pub original_app: Option<Seq<char>>,
}

/// The application to return to: the frontmost one, unless that is this
/// application itself.
pub open spec fn foreign_app(frontmost: Option<Seq<char>>) -> Option<Seq<char>> {
    match frontmost {
        Some(id) => if id == own_bundle_text() {
            None
        } else {
            Some(id)
        },
        None => None,
    }
}

/// Whether the debounce interval has run out at `now_ms`. A clock reading
/// earlier than the last stop counts as no time elapsed.
pub open spec fn debounce_over(last_stop: Option<u64>, now_ms: u64) -> bool {
    match last_stop {
        Some(t) => now_ms >= t && now_ms - t >= DEBOUNCE_MS,
        None => true,
    }
}

/// The answer to a press at `now_ms`.
pub open spec fn press_decision(m: SessionModel, now_ms: u64) -> PressDecision {
    if m.state != SessionState::Idle {
        PressDecision::Busy
    } else if !debounce_over(m.last_stop, now_ms) {
        PressDecision::Debounced
    } else {
        PressDecision::Start
    }
}

/// The coordinator after a press.
pub open spec fn after_press(
    m: SessionModel,
    now_ms: u64,
    frontmost: Option<Seq<char>>,
) -> SessionModel {
    if press_decision(m, now_ms) == PressDecision::Start {
        SessionModel {
            state: SessionState::Recording,
            last_stop: m.last_stop,
            original_app: foreign_app(frontmost),
        }
    } else {
        m
    }
}

/// The coordinator after a release.
pub open spec fn after_release(m: SessionModel, now_ms: u64) -> SessionModel {
    if m.state == SessionState::Recording {
        SessionModel {
            state: SessionState::Stopping,
            last_stop: Some(now_ms),
            original_app: m.original_app,
        }
    } else {
        m
    }
}

/// The coordinator after the stop round trip of its session has ended.
pub open spec fn after_stop_completed(m: SessionModel) -> SessionModel {
    if m.state == SessionState::Stopping {
        SessionModel { state: SessionState::Idle, last_stop: m.last_stop, original_app: m.original_app }
    } else {
        m
    }
}

/// The coordinator after the engine failed to start the session just
/// accepted.
pub open spec fn after_start_failed(m: SessionModel) -> SessionModel {
    if m.state == SessionState::Recording {
        SessionModel { state: SessionState::Idle, last_stop: m.last_stop, original_app: None }
    } else {
        m
    }
}

/// The shared flag a stop worker consults before each side effect.
pub open spec fn recording_flag(m: SessionModel) -> bool {
    m.state == SessionState::Recording
}

/// Forgets the frontmost application when it is this application itself.
pub fn remember_app(frontmost: Option<String>) -> (r: Option<String>)
    ensures
        opt_text(r) == foreign_app(opt_text(frontmost)),
{
    match frontmost {
        Some(id) => {
            if str_eq(id.as_str(), own_bundle_id()) {
                None
            } else {
                Some(id)
            }
        },
        None => None,
    }
}

/// The outer state machine of the recorder.
#[derive(Debug)]
pub struct SessionCoordinator {
    state: SessionState,
    last_stop_ms: Option<u64>,
    original_app: Option<String>,
}

impl View for SessionCoordinator {
    type V = SessionModel;

    closed spec fn view(&self) -> SessionModel {
        SessionModel {
            state: self.state,
            last_stop: self.last_stop_ms,
            original_app: opt_text(self.original_app),
        }
    }
}

impl SessionCoordinator {
    /// A coordinator that is idle and has never stopped a session.
    pub fn new() -> (c: Self)
        ensures
            c@ == (SessionModel {
                state: SessionState::Idle,
                last_stop: None,
                original_app: None,
            }),
    {
        SessionCoordinator { state: SessionState::Idle, last_stop_ms: None, original_app: None }
    }

    /// The current state.
    pub fn state(&self) -> (s: SessionState)
        ensures
            s == self@.state,
    {
        self.state
    }

    /// Whether a session is recording right now. A stop worker reads this
    /// before each side effect to learn whether it has been superseded.
    pub fn is_recording(&self) -> (b: bool)
        ensures
            b == recording_flag(self@),
    {
        match self.state {
            SessionState::Recording => true,
            _ => false,
        }
    }

    /// When the last session was stopped.
    pub fn last_stop_ms(&self) -> (t: Option<u64>)
        ensures
            t == self@.last_stop,
    {
        self.last_stop_ms
    }

    /// Handles a press of the hotkey at `now_ms`, with `frontmost_app` the
    /// application that had the focus.
    pub fn press(&mut self, now_ms: u64, frontmost_app: Option<String>) -> (d: PressDecision)
        ensures
            d == press_decision(old(self)@, now_ms),
            final(self)@ == after_press(old(self)@, now_ms, opt_text(frontmost_app)),
    {
        match self.state {
            SessionState::Idle => {},
            _ => {
                return PressDecision::Busy;
            },
        }
        let rested = match self.last_stop_ms {
            Some(t) => now_ms >= t && now_ms - t >= DEBOUNCE_MS,
            None => true,
        };
        if !rested {
            return PressDecision::Debounced;
        }
        self.state = SessionState::Recording;
        self.original_app = remember_app(frontmost_app);
        PressDecision::Start
    }

    /// Takes back a press whose session the engine could not start.
    pub fn start_failed(&mut self)
        ensures
            final(self)@ == after_start_failed(old(self)@),
    {
        match self.state {
            SessionState::Recording => {
                self.state = SessionState::Idle;
                self.original_app = None;
            },
            _ => {},
        }
    }

    /// Handles a release of the hotkey at `now_ms`.
    pub fn release(&mut self, now_ms: u64) -> (d: ReleaseDecision)
        ensures
            final(self)@ == after_release(old(self)@, now_ms),
            old(self)@.state == SessionState::Recording ==> (d matches ReleaseDecision::Stop {
                original_app,
            } && opt_text(original_app) == old(self)@.original_app),
            old(self)@.state != SessionState::Recording ==> d is Ignore,
    {
        match self.state {
            SessionState::Recording => {
                self.state = SessionState::Stopping;
                self.last_stop_ms = Some(now_ms);
                let snapshot = match &self.original_app {
                    Some(id) => Some(id.clone()),
                    None => None,
                };
                ReleaseDecision::Stop { original_app: snapshot }
            },
            _ => ReleaseDecision::Ignore,
        }
    }

    /// Records that the stop round trip of the stopping session has ended.
    pub fn stop_completed(&mut self)
        ensures
            final(self)@ == after_stop_completed(old(self)@),
    {
        match self.state {
            SessionState::Stopping => {
                self.state = SessionState::Idle;
            },
            _ => {},
        }
    }
}

/// Of two presses less than the debounce interval apart, with a stop in
/// between, the second is ignored: it is answered `Debounced` and leaves the
/// coordinator as it found it, whatever the first press met and whenever,
/// between the two, the release came.
pub proof fn lemma_second_press_is_debounced(
    m: SessionModel,
    first_ms: u64,
    release_ms: u64,
    second_ms: u64,
    first_app: Option<Seq<char>>,
    second_app: Option<Seq<char>>,
)
    requires
        first_ms <= release_ms <= second_ms,
        second_ms - first_ms < DEBOUNCE_MS,
    ensures
        ({
            let pressed = after_press(m, first_ms, first_app);
            let released = after_release(pressed, release_ms);
            let idle = after_stop_completed(released);
            pressed.state == SessionState::Recording ==> {
                &&& idle.state == SessionState::Idle
                &&& press_decision(idle, second_ms) == PressDecision::Debounced
                &&& after_press(idle, second_ms, second_app) == idle
            }
        }),
{
}

/// A session is only ever started from the idle state, so at most one is
/// recording at a time; and a press that starts none changes nothing.
pub proof fn lemma_press_starts_only_from_idle(
    m: SessionModel,
    now_ms: u64,
    frontmost: Option<Seq<char>>,
)
    ensures
        press_decision(m, now_ms) == PressDecision::Start ==> m.state == SessionState::Idle
            && after_press(m, now_ms, frontmost).state == SessionState::Recording,
        press_decision(m, now_ms) != PressDecision::Start ==> after_press(m, now_ms, frontmost)
            == m,
{
}

/// Where the level poller of a session stands.
#[derive(Clone, Copy, Debug, PartialEq, Eq, Structural)]
pub enum PollerPhase {
    /// Waiting for the indicator to report ready.
    AwaitingReady,
    /// Forwarding levels.
    Forwarding,
    /// The session was stopped.
    Finished,
}

/// What the level poller does next.
#[derive(Clone, Copy, Debug, PartialEq, Eq, Structural)]
pub enum PollerAction {
    /// Sleep this many milliseconds, then look again.
    Wait(u64),
    /// Stop listening for the ready signal; the handshake is over.
    EndHandshake,
    /// Forward the current level vector, then sleep this many milliseconds.
    Forward(u64),
    /// Leave the loop.
    Exit,
}

/// The handshake goes on while the indicator has not reported ready, the
/// timeout has not run out and the session has not been stopped.
pub open spec fn handshake_pending(ready: bool, elapsed_ms: u64, stopped: bool) -> bool {
    !ready && elapsed_ms < READY_TIMEOUT_MS && !stopped
}

/// The phase and action of the level poller that follow from what it sees:
/// whether the indicator is ready, the time since the session started, and
/// the session's own stop flag.
pub open spec fn poller_next(phase: PollerPhase, ready: bool, elapsed_ms: u64, stopped: bool) -> (
    PollerPhase,
    PollerAction,
) {
    match phase {
        PollerPhase::AwaitingReady => if handshake_pending(ready, elapsed_ms, stopped) {
            (PollerPhase::AwaitingReady, PollerAction::Wait(READY_POLL_MS))
        } else {
            (PollerPhase::Forwarding, PollerAction::EndHandshake)
        },
        PollerPhase::Forwarding => if stopped {
            (PollerPhase::Finished, PollerAction::Exit)
        } else {
            (PollerPhase::Forwarding, PollerAction::Forward(LEVEL_POLL_MS))
        },
        PollerPhase::Finished => (PollerPhase::Finished, PollerAction::Exit),
    }
}

/// Advances the level poller of a session by one look at its surroundings.
pub fn poller_step(phase: PollerPhase, ready: bool, elapsed_ms: u64, stopped: bool) -> (r: (
    PollerPhase,
    PollerAction,
))
    ensures
        r == poller_next(phase, ready, elapsed_ms, stopped),
{
    match phase {
        PollerPhase::AwaitingReady => {
            if !ready && elapsed_ms < READY_TIMEOUT_MS && !stopped {
                (PollerPhase::AwaitingReady, PollerAction::Wait(READY_POLL_MS))
            } else {
                (PollerPhase::Forwarding, PollerAction::EndHandshake)
            }
        },
        PollerPhase::Forwarding => {
            if stopped {
                (PollerPhase::Finished, PollerAction::Exit)
            } else {
                (PollerPhase::Forwarding, PollerAction::Forward(LEVEL_POLL_MS))
            }
        },
        PollerPhase::Finished => (PollerPhase::Finished, PollerAction::Exit),
    }
}

/// Levels are forwarded only once the handshake is over and only while the
/// session's stop flag is down; the handshake ends as soon as the indicator
/// is ready, the timeout has run out, or the session is stopped.
pub proof fn lemma_poller_forwards_after_handshake(
    phase: PollerPhase,
    ready: bool,
    elapsed_ms: u64,
    stopped: bool,
)
    ensures
        poller_next(phase, ready, elapsed_ms, stopped).1 is Forward ==> phase
            == PollerPhase::Forwarding && !stopped,
        phase == PollerPhase::AwaitingReady && (ready || elapsed_ms >= READY_TIMEOUT_MS || stopped)
            ==> poller_next(phase, ready, elapsed_ms, stopped) == (
            PollerPhase::Forwarding,
            PollerAction::EndHandshake,
        ),
        phase == PollerPhase::Forwarding && stopped ==> poller_next(
            phase,
            ready,
            elapsed_ms,
            stopped,
        ) == (PollerPhase::Finished, PollerAction::Exit),
{
}

/// What went wrong while a finished recording was handed on.
#[derive(Debug, PartialEq, Eq)]
pub enum HandOffError {
    /// The stop round trip failed.
    StopFailed(CaptureError),
    /// No API key is configured for the selected provider.
    MissingApiKey,
    /// The transcription came to nothing.
    TranscriptionFailed(TranscriptionError),
    /// The text could not be pasted, with the reason.
    PasteFailed(String),
}

impl HandOffError {
    /// The readable message of this error.
    pub open spec fn message_text(self) -> Seq<char> {
        match self {
            HandOffError::StopFailed(e) => "Failed to stop recording: "@ + e.message_text(),
            HandOffError::MissingApiKey =>
                "No API key configured. Please add an API key in Settings."@,
            HandOffError::TranscriptionFailed(e) => "Transcription failed: "@ + e.message_text(),
            HandOffError::PasteFailed(d) => "Failed to paste: "@ + d@,
        }
    }

    /// Renders the message shown to the user for this error.
    pub fn message(&self) -> (r: String)
        ensures
            r@ == self.message_text(),
    {
        match self {
            HandOffError::StopFailed(e) => {
                let inner = e.message();
                prefixed("Failed to stop recording: ", inner.as_str())
            },
            HandOffError::MissingApiKey =>
                "No API key configured. Please add an API key in Settings.".to_owned(),
            HandOffError::TranscriptionFailed(e) => {
                let inner = e.message();
                prefixed("Transcription failed: ", inner.as_str())
            },
            HandOffError::PasteFailed(d) => prefixed("Failed to paste: ", d.as_str()),
        }
    }
}

/// Where a stop worker stands.
#[derive(Debug, PartialEq, Eq)]
pub enum WorkerPhase {
    /// Waiting for the stop round trip to end.
    AwaitingStop,
    /// The audio file exists; the API key is being looked up.
    AwaitingKey { audio_path: String },
    /// The audio file is with the transcription service.
    Transcribing { audio_path: String },
    /// The text was sent to be pasted.
    Pasting,
    /// Nothing is left to do.
    Done,
}

/// What a stop worker observes.
#[derive(Debug, PartialEq, Eq)]
pub enum WorkerEvent {
    /// The stop round trip ended with the path of the audio file, or failed.
    Stopped(Result<String, CaptureError>),
    /// The key lookup for the selected provider ended.
    KeyLookedUp(Option<String>),
    /// The transcription service answered with the text, or failed.
    Transcribed(Result<String, TranscriptionError>),
    /// The paste ended.
    Pasted(Result<(), String>),
}

/// One thing a stop worker asks its surroundings to do.
#[derive(Debug, PartialEq, Eq)]
pub enum Effect {
    /// Switch the indicator to its processing state.
    ShowProcessing,
    /// Look up the API key of the selected provider.
    LookUpKey,
    /// Tell observers that transcription has begun.
    AnnounceTranscribing,
    /// Send the audio file to the transcription service.
    Transcribe { audio_path: String, api_key: String },
    /// Keep the text as the last result.
    StoreResult(String),
    /// Tell observers the text.
    PublishResult(String),
    /// Raise an error notification.
    ReportError(HandOffError),
    /// Remove the indicator surface.
    TeardownIndicator,
    /// Paste the text, into `target` after bringing it to the front, or in
    /// place where no target is known.
    Paste { target: Option<String>, text: String },
    /// Delete the audio file.
    RemoveAudio(String),
}

/// The effects a superseded worker must not cause: those that change or
/// remove the indicator, and the paste.
pub open spec fn touches_ui(e: Effect) -> bool {
    e is ShowProcessing || e is TeardownIndicator || e is Paste
}

/// `seq` when `cond` holds, else nothing.
pub open spec fn only_if<A>(cond: bool, seq: Seq<A>) -> Seq<A> {
    if cond {
        seq
    } else {
        Seq::empty()
    }
}

/// The phase that follows `event` in `phase`, and the effects to carry out,
/// in order. `recording_active` is the coordinator's flag as read just before
/// the step: when it is up, a newer session owns the indicator and the
/// focus.
pub open spec fn worker_next(
    phase: WorkerPhase,
    target: Option<String>,
    event: WorkerEvent,
    recording_active: bool,
) -> (WorkerPhase, Seq<Effect>) {
    match (phase, event) {
        (WorkerPhase::AwaitingStop, WorkerEvent::Stopped(Err(e))) => (
            WorkerPhase::Done,
            seq![Effect::ReportError(HandOffError::StopFailed(e))] + only_if(
                !recording_active,
                seq![Effect::TeardownIndicator],
            ),
        ),
        (WorkerPhase::AwaitingStop, WorkerEvent::Stopped(Ok(audio_path))) => (
            WorkerPhase::AwaitingKey { audio_path },
            only_if(!recording_active, seq![Effect::ShowProcessing]) + seq![Effect::LookUpKey],
        ),
        (WorkerPhase::AwaitingKey { audio_path }, WorkerEvent::KeyLookedUp(None)) => (
            WorkerPhase::Done,
            seq![Effect::ReportError(HandOffError::MissingApiKey)] + only_if(
                !recording_active,
                seq![Effect::TeardownIndicator],
            ) + seq![Effect::RemoveAudio(audio_path)],
        ),
        (WorkerPhase::AwaitingKey { audio_path }, WorkerEvent::KeyLookedUp(Some(api_key))) => (
            WorkerPhase::Transcribing { audio_path },
            seq![Effect::AnnounceTranscribing, Effect::Transcribe { audio_path, api_key }],
        ),
        (WorkerPhase::Transcribing { audio_path }, WorkerEvent::Transcribed(Ok(text))) => (
            if recording_active {
                WorkerPhase::Done
            } else {
                WorkerPhase::Pasting
            },
            seq![Effect::StoreResult(text), Effect::PublishResult(text)] + only_if(
                !recording_active,
                seq![Effect::TeardownIndicator, Effect::Paste { target, text }],
            ) + seq![Effect::RemoveAudio(audio_path)],
        ),
        (WorkerPhase::Transcribing { audio_path }, WorkerEvent::Transcribed(Err(detail))) => (
            WorkerPhase::Done,
            seq![Effect::ReportError(HandOffError::TranscriptionFailed(detail))] + only_if(
                !recording_active,
                seq![Effect::TeardownIndicator],
            ) + seq![Effect::RemoveAudio(audio_path)],
        ),
        (WorkerPhase::Pasting, WorkerEvent::Pasted(Err(detail))) => (
            WorkerPhase::Done,
            seq![Effect::ReportError(HandOffError::PasteFailed(detail))],
        ),
        (WorkerPhase::Pasting, WorkerEvent::Pasted(Ok(()))) => (WorkerPhase::Done, Seq::empty()),
        (phase, _) => (phase, Seq::empty()),
    }
}

/// The worker that takes a stopped session from the stop round trip to the
/// paste, one event at a time.
#[derive(Debug)]
pub struct StopWorker {
    phase: WorkerPhase,
    target: Option<String>,
}

impl StopWorker {
    /// Where the worker stands.
    pub closed spec fn phase(&self) -> WorkerPhase {
        self.phase
    }

    /// The application the text is to be pasted into.
    pub closed spec fn target(&self) -> Option<String> {
        self.target
    }

    /// A worker for a session that was just released, with the paste target
    /// the coordinator remembered for it.
    pub fn new(target: Option<String>) -> (w: Self)
        ensures
            w.phase() == WorkerPhase::AwaitingStop,
            w.target() == target,
    {
        StopWorker { phase: WorkerPhase::AwaitingStop, target }
    }

    /// Whether nothing is left to do.
    pub fn is_done(&self) -> (b: bool)
        ensures
            b == (self.phase() is Done),
    {
        match &self.phase {
            WorkerPhase::Done => true,
            _ => false,
        }
    }

    /// Advances the worker by one event and says what to do about it.
    /// `recording_active` is the coordinator's flag, read just before the
    /// call.
    pub fn step(self, event: WorkerEvent, recording_active: bool) -> (r: (StopWorker, Vec<Effect>))
        ensures
            (r.0.phase(), r.1@) == worker_next(self.phase(), self.target(), event, recording_active),
            r.0.target() == self.target(),
    {
        let StopWorker { phase, target } = self;
        let mut effects: Vec<Effect> = Vec::new();
        let next = match (phase, event) {
            (WorkerPhase::AwaitingStop, WorkerEvent::Stopped(Err(e))) => {
                effects.push(Effect::ReportError(HandOffError::StopFailed(e)));
                if !recording_active {
                    effects.push(Effect::TeardownIndicator);
                }
                proof {
                    assert(effects@ =~= seq![Effect::ReportError(HandOffError::StopFailed(e))]
                        + only_if(!recording_active, seq![Effect::TeardownIndicator]));
                }
                WorkerPhase::Done
            },
            (WorkerPhase::AwaitingStop, WorkerEvent::Stopped(Ok(audio_path))) => {
                if !recording_active {
                    effects.push(Effect::ShowProcessing);
                }
                effects.push(Effect::LookUpKey);
                proof {
                    assert(effects@ =~= only_if(!recording_active, seq![Effect::ShowProcessing])
                        + seq![Effect::LookUpKey]);
                }
                WorkerPhase::AwaitingKey { audio_path }
            },
            (WorkerPhase::AwaitingKey { audio_path }, WorkerEvent::KeyLookedUp(None)) => {
                effects.push(Effect::ReportError(HandOffError::MissingApiKey));
                if !recording_active {
                    effects.push(Effect::TeardownIndicator);
                }
                effects.push(Effect::RemoveAudio(audio_path));
                proof {
                    assert(effects@ =~= seq![Effect::ReportError(HandOffError::MissingApiKey)]
                        + only_if(!recording_active, seq![Effect::TeardownIndicator])
                        + seq![Effect::RemoveAudio(audio_path)]);
                }
                WorkerPhase::Done
            },
            (WorkerPhase::AwaitingKey { audio_path }, WorkerEvent::KeyLookedUp(Some(api_key))) => {
                effects.push(Effect::AnnounceTranscribing);
                effects.push(Effect::Transcribe { audio_path: audio_path.clone(), api_key });
                proof {
                    assert(effects@ =~= seq![
                        Effect::AnnounceTranscribing,
                        Effect::Transcribe { audio_path, api_key },
                    ]);
                }
                WorkerPhase::Transcribing { audio_path }
            },
            (WorkerPhase::Transcribing { audio_path }, WorkerEvent::Transcribed(Ok(text))) => {
                effects.push(Effect::StoreResult(text.clone()));
                effects.push(Effect::PublishResult(text.clone()));
                if !recording_active {
                    effects.push(Effect::TeardownIndicator);
                    let into = match &target {
                        Some(id) => Some(id.clone()),
                        None => None,
                    };
                    effects.push(Effect::Paste { target: into, text });
                }
                effects.push(Effect::RemoveAudio(audio_path));
                proof {
                    assert(effects@ =~= seq![Effect::StoreResult(text), Effect::PublishResult(text)]
                        + only_if(
                        !recording_active,
                        seq![Effect::TeardownIndicator, Effect::Paste { target, text }],
                    ) + seq![Effect::RemoveAudio(audio_path)]);
                }
                if recording_active {
                    WorkerPhase::Done
                } else {
                    WorkerPhase::Pasting
                }
            },
            (WorkerPhase::Transcribing { audio_path }, WorkerEvent::Transcribed(Err(detail))) => {
                effects.push(Effect::ReportError(HandOffError::TranscriptionFailed(detail)));
                if !recording_active {
                    effects.push(Effect::TeardownIndicator);
                }
                effects.push(Effect::RemoveAudio(audio_path));
                proof {
                    assert(effects@ =~= seq![
                        Effect::ReportError(HandOffError::TranscriptionFailed(detail)),
                    ] + only_if(!recording_active, seq![Effect::TeardownIndicator])
                        + seq![Effect::RemoveAudio(audio_path)]);
                }
                WorkerPhase::Done
            },
            (WorkerPhase::Pasting, WorkerEvent::Pasted(Err(detail))) => {
                effects.push(Effect::ReportError(HandOffError::PasteFailed(detail)));
                WorkerPhase::Done
            },
            (WorkerPhase::Pasting, WorkerEvent::Pasted(Ok(()))) => WorkerPhase::Done,
            (phase, _) => phase,
        };
        (StopWorker { phase: next, target }, effects)
    }
}

/// A worker whose session has been superseded stays silent: while a newer
/// session is recording, no step of any worker, in any phase and on any
/// event, changes or removes the indicator or pastes. What it may still do is
/// store and publish its result, report an error and delete its audio file.
pub proof fn lemma_superseded_worker_spares_ui(
    m: SessionModel,
    phase: WorkerPhase,
    target: Option<String>,
    event: WorkerEvent,
)
    requires
        m.state == SessionState::Recording,
    ensures
        forall|i: int|
            0 <= i < worker_next(phase, target, event, recording_flag(m)).1.len() ==> !touches_ui(
                #[trigger] worker_next(phase, target, event, recording_flag(m)).1[i],
            ),
{
}

/// A press that starts a session raises the flag that silences every worker
/// still at work for an earlier one.
pub proof fn lemma_new_session_supersedes_workers(
    m: SessionModel,
    now_ms: u64,
    frontmost: Option<Seq<char>>,
    phase: WorkerPhase,
    target: Option<String>,
    event: WorkerEvent,
)
    requires
        press_decision(m, now_ms) == PressDecision::Start,
    ensures
        recording_flag(after_press(m, now_ms, frontmost)),
        forall|i: int|
            0 <= i < worker_next(phase, target, event, true).1.len() ==> !touches_ui(
                #[trigger] worker_next(phase, target, event, true).1[i],
            ),
{
    lemma_superseded_worker_spares_ui(after_press(m, now_ms, frontmost), phase, target, event);
}

/// A worker never leaves its audio file behind: when no key is found for
/// it, and when its transcription ends, in success or in failure, the last
/// thing the worker asks for is the removal of the file.
pub proof fn lemma_audio_is_removed_when_done(
    audio_path: String,
    target: Option<String>,
    event: WorkerEvent,
    recording_active: bool,
)
    ensures
        ({
            let from_key = worker_next(
                WorkerPhase::AwaitingKey { audio_path },
                target,
                event,
                recording_active,
            );
            let from_service = worker_next(
                WorkerPhase::Transcribing { audio_path },
                target,
                event,
                recording_active,
            );
            &&& (event is KeyLookedUp && event->KeyLookedUp_0 is None) ==> from_key.1.last()
                == Effect::RemoveAudio(audio_path)
            &&& event is Transcribed ==> from_service.1.last() == Effect::RemoveAudio(audio_path)
        }),
{
}

/// What the application remembers between sessions.
#[derive(Clone, Debug, PartialEq, Eq)]
pub struct AppState {
    /// The last text that was transcribed.
    pub last_transcription: String,
    /// Whether a session is recording.
    pub is_recording: bool,
}

impl Default for AppState {
    fn default() -> (s: Self)
        ensures
            s.last_transcription@ == Seq::<char>::empty(),
            !s.is_recording,
    {
        AppState { last_transcription: String::new(), is_recording: false }
    }
}

} // verus!
