//! The capture-control side of a recording: which device to open, which
//! sample layouts can be streamed, the errors a capture can end in, and the
//! protocol the control thread follows from device resolution to the reply it
//! owes to a stop request.

use vstd::prelude::*;
use crate::text::{prefixed, str_eq};

verus! {

/// A recording with fewer mono samples than this is treated as an accidental
/// tap and is never encoded.
pub const MIN_SAMPLES: usize = 1000;

/// How long the control thread lets in-flight buffers drain after a stop
/// request, before it tears the stream down.
pub const STOP_GRACE_MS: u64 = 100;

/// How a device delivers its samples.
#[derive(Clone, Copy, Debug, PartialEq, Eq, Structural)]
pub enum SampleEncoding {
    /// 32-bit floating point, already in [-1, 1].
    F32,
    /// Signed 16-bit integers.
    I16,
    /// Unsigned 16-bit integers, centred on 32768.
    U16,
    /// Any other encoding.
    Other,
}

/// The sample layout negotiated with a device.
#[derive(Clone, Copy, Debug, PartialEq, Eq, Structural)]
pub struct StreamLayout {
    pub encoding: SampleEncoding,
    pub sample_rate: u32,
    pub channels: u16,
}

/// The step of writing the audio file that failed.
#[derive(Clone, Copy, Debug, PartialEq, Eq, Structural)]
pub enum EncodeStage {
    Create,
    Write,
    Finalize,
}

/// The leg of the stop round trip on which the channel was found closed.
#[derive(Clone, Copy, Debug, PartialEq, Eq, Structural)]
pub enum StopLeg {
    /// The stop command could not be delivered.
    Request,
    /// The reply channel closed without a reply.
    Reply,
}

/// Everything a capture can fail with. The texts carried by some variants are
/// the platform's own description of the failure.
#[derive(Clone, Debug, PartialEq, Eq)]
pub enum CaptureError {
    DeviceUnavailable,
    ConfigNegotiationFailed(String),
    UnsupportedSampleFormat,
    StreamBuildFailed(String),
    StreamStartFailed(String),
    RecordingTooShort,
    EncodeFailed(EncodeStage, String),
    ChannelClosed(StopLeg),
}

impl CaptureError {
    /// The readable message of this error.
    pub open spec fn message_text(self) -> Seq<char> {
        match self {
            CaptureError::DeviceUnavailable => "No input device available"@,
            CaptureError::ConfigNegotiationFailed(d) => "Failed to get input config: "@ + d@,
            CaptureError::UnsupportedSampleFormat => "Unsupported sample format"@,
            CaptureError::StreamBuildFailed(d) => "Failed to build stream: "@ + d@,
            CaptureError::StreamStartFailed(d) => "Failed to start stream: "@ + d@,
            CaptureError::RecordingTooShort => "Recording too short - hold the key longer"@,
            CaptureError::EncodeFailed(EncodeStage::Create, d) => "Failed to create WAV file: "@
                + d@,
            CaptureError::EncodeFailed(EncodeStage::Write, d) => "Failed to write sample: "@ + d@,
            CaptureError::EncodeFailed(EncodeStage::Finalize, d) => "Failed to finalize WAV: "@
                + d@,
            CaptureError::ChannelClosed(StopLeg::Request) => "Failed to send stop command"@,
            CaptureError::ChannelClosed(StopLeg::Reply) => "Failed to receive result"@,
        }
    }

    /// Renders the message shown to the user for this error.
    pub fn message(&self) -> (r: String)
        ensures
            r@ == self.message_text(),
    {
        match self {
            CaptureError::DeviceUnavailable => "No input device available".to_owned(),
            CaptureError::ConfigNegotiationFailed(d) => prefixed(
                "Failed to get input config: ",
                d.as_str(),
            ),
            CaptureError::UnsupportedSampleFormat => "Unsupported sample format".to_owned(),
            CaptureError::StreamBuildFailed(d) => prefixed("Failed to build stream: ", d.as_str()),
            CaptureError::StreamStartFailed(d) => prefixed("Failed to start stream: ", d.as_str()),
            CaptureError::RecordingTooShort => "Recording too short - hold the key longer"
                .to_owned(),
            CaptureError::EncodeFailed(EncodeStage::Create, d) => prefixed(
                "Failed to create WAV file: ",
                d.as_str(),
            ),
            CaptureError::EncodeFailed(EncodeStage::Write, d) => prefixed(
                "Failed to write sample: ",
                d.as_str(),
            ),
            CaptureError::EncodeFailed(EncodeStage::Finalize, d) => prefixed(
                "Failed to finalize WAV: ",
                d.as_str(),
            ),
            CaptureError::ChannelClosed(StopLeg::Request) => "Failed to send stop command"
                .to_owned(),
            CaptureError::ChannelClosed(StopLeg::Reply) => "Failed to receive result".to_owned(),
        }
    }
}

/// Whether a recording stream can be opened for this encoding.
pub open spec fn recordable(encoding: SampleEncoding) -> bool {
    encoding != SampleEncoding::Other
}

/// Whether a level preview can be opened for this encoding.
pub open spec fn previewable(encoding: SampleEncoding) -> bool {
    encoding == SampleEncoding::F32 || encoding == SampleEncoding::I16
}

/// Decides whether a recording stream can be opened for `encoding`.
pub fn recording_supports(encoding: SampleEncoding) -> (r: bool)
    ensures
        r == recordable(encoding),
{
    match encoding {
        SampleEncoding::F32 | SampleEncoding::I16 | SampleEncoding::U16 => true,
        SampleEncoding::Other => false,
    }
}

/// Decides whether a level preview can be opened for `encoding`.
pub fn preview_supports(encoding: SampleEncoding) -> (r: bool)
    ensures
        r == previewable(encoding),
{
    match encoding {
        SampleEncoding::F32 | SampleEncoding::I16 => true,
        SampleEncoding::U16 | SampleEncoding::Other => false,
    }
}

/// The device a capture should open.
#[derive(Clone, Copy, Debug, PartialEq, Eq, Structural)]
pub enum DeviceChoice {
    /// The enumerated input device at this position.
    Listed(usize),
    /// The system's default input device.
    SystemDefault,
    /// No device can be opened.
    Unavailable,
}

/// `i` is the first position at which `names` holds exactly `wanted`.
pub open spec fn first_match(names: Seq<String>, wanted: Seq<char>, i: int) -> bool {
    &&& 0 <= i < names.len()
    &&& names[i]@ == wanted
    &&& forall|j: int| 0 <= j < i ==> (#[trigger] names[j])@ != wanted
}

/// No entry of `names` is exactly `wanted`.
pub open spec fn no_match(names: Seq<String>, wanted: Seq<char>) -> bool {
    forall|j: int| 0 <= j < names.len() ==> (#[trigger] names[j])@ != wanted
}

/// What `select_input_device` answers.
pub open spec fn device_choice_ok(
    names: Seq<String>,
    wanted: Option<Seq<char>>,
    has_default: bool,
    choice: DeviceChoice,
) -> bool {
    match choice {
        DeviceChoice::Listed(i) => wanted is Some && first_match(names, wanted->0, i as int),
        DeviceChoice::SystemDefault => has_default && (wanted is Some ==> no_match(
            names,
            wanted->0,
        )),
        DeviceChoice::Unavailable => !has_default && (wanted is Some ==> no_match(
            names,
            wanted->0,
        )),
    }
}

/// Resolves the device to capture from: the first enumerated input device
/// whose name is exactly `wanted`; failing that the system default; failing
/// that none.
pub fn select_input_device(names: &Vec<String>, wanted: Option<&str>, has_default: bool) -> (choice:
    DeviceChoice)
    ensures
        device_choice_ok(
            names@,
            match wanted {
                Some(w) => Some(w@),
                None => None,
            },
            has_default,
            choice,
        ),
{
    if let Some(name) = wanted {
        let mut i: usize = 0;
        while i < names.len()
            invariant
                i <= names.len(),
                wanted == Some(name),
                forall|j: int| 0 <= j < i ==> (#[trigger] names@[j])@ != name@,
            decreases names.len() - i,
        {
            if str_eq(names[i].as_str(), name) {
                return DeviceChoice::Listed(i);
            }
            i = i + 1;
        }
    }
    if has_default {
        DeviceChoice::SystemDefault
    } else {
        DeviceChoice::Unavailable
    }
}

/// Where the control thread stands.
#[derive(Debug, PartialEq, Eq)]
pub enum ControlPhase {
    /// The device has not been resolved yet.
    Resolving,
    /// A device is at hand; its sample layout is being negotiated.
    Negotiating,
    /// The layout is settled; the stream is being built.
    Building(StreamLayout),
    /// The stream is built; it is being started.
    Starting(StreamLayout),
    /// The stream is live and samples are arriving.
    Streaming(StreamLayout),
    /// Set-up failed; the error waits for the stop request that will carry
    /// it back to the caller.
    Failed(CaptureError),
    /// The stop request has been served.
    Closed,
}

/// What the control thread observes.
#[derive(Debug, PartialEq, Eq)]
pub enum ControlEvent {
    /// Device resolution ended with this choice.
    Resolved(DeviceChoice),
    /// The device named its default layout, or refused to.
    Negotiated(Result<StreamLayout, String>),
    /// The stream was built, or could not be.
    Built(Result<(), String>),
    /// The stream started, or could not be.
    Started(Result<(), String>),
    /// The stop command arrived.
    StopRequested,
}

/// What the control thread does next.
#[derive(Debug, PartialEq, Eq)]
pub enum ControlAction {
    /// Ask the device for its default input layout.
    Negotiate,
    /// Build an input stream for this layout.
    Build(StreamLayout),
    /// Start the stream that was built.
    Start,
    /// Block until the stop command arrives.
    AwaitStop,
    /// Let buffers drain for `grace_ms`, tear the stream down, then encode
    /// the sample log at `sample_rate` and reply with the outcome.
    Finalize { grace_ms: u64, sample_rate: u32 },
    /// Reply to the stop command with this error.
    Reply(CaptureError),
    /// The event does not belong to this phase; nothing is done.
    Nothing,
}

/// The protocol of the control thread: the phase and action that follow
/// `event` in `phase`.
pub open spec fn control_next(phase: ControlPhase, event: ControlEvent) -> (
    ControlPhase,
    ControlAction,
) {
    match (phase, event) {
        (ControlPhase::Resolving, ControlEvent::Resolved(choice)) => if choice
            == DeviceChoice::Unavailable {
            (ControlPhase::Failed(CaptureError::DeviceUnavailable), ControlAction::AwaitStop)
        } else {
            (ControlPhase::Negotiating, ControlAction::Negotiate)
        },
        (ControlPhase::Negotiating, ControlEvent::Negotiated(Ok(layout))) => if recordable(
            layout.encoding,
        ) {
            (ControlPhase::Building(layout), ControlAction::Build(layout))
        } else {
            (ControlPhase::Failed(CaptureError::UnsupportedSampleFormat), ControlAction::AwaitStop)
        },
        (ControlPhase::Negotiating, ControlEvent::Negotiated(Err(detail))) => (
            ControlPhase::Failed(CaptureError::ConfigNegotiationFailed(detail)),
            ControlAction::AwaitStop,
        ),
        (ControlPhase::Building(layout), ControlEvent::Built(Ok(()))) => (
            ControlPhase::Starting(layout),
            ControlAction::Start,
        ),
        (ControlPhase::Building(_), ControlEvent::Built(Err(detail))) => (
            ControlPhase::Failed(CaptureError::StreamBuildFailed(detail)),
            ControlAction::AwaitStop,
        ),
        (ControlPhase::Starting(layout), ControlEvent::Started(Ok(()))) => (
            ControlPhase::Streaming(layout),
            ControlAction::AwaitStop,
        ),
        (ControlPhase::Starting(_), ControlEvent::Started(Err(detail))) => (
            ControlPhase::Failed(CaptureError::StreamStartFailed(detail)),
            ControlAction::AwaitStop,
        ),
        (ControlPhase::Streaming(layout), ControlEvent::StopRequested) => (
            ControlPhase::Closed,
            ControlAction::Finalize { grace_ms: STOP_GRACE_MS, sample_rate: layout.sample_rate },
        ),
        (ControlPhase::Failed(error), ControlEvent::StopRequested) => (
            ControlPhase::Closed,
            ControlAction::Reply(error),
        ),
        (phase, _) => (phase, ControlAction::Nothing),
    }
}

/// Advances the control thread by one event.
pub fn control_step(phase: ControlPhase, event: ControlEvent) -> (r: (ControlPhase, ControlAction))
    ensures
        r == control_next(phase, event),
{
    match (phase, event) {
        (ControlPhase::Resolving, ControlEvent::Resolved(choice)) => {
            match choice {
                DeviceChoice::Unavailable => (
                    ControlPhase::Failed(CaptureError::DeviceUnavailable),
                    ControlAction::AwaitStop,
                ),
                _ => (ControlPhase::Negotiating, ControlAction::Negotiate),
            }
        },
        (ControlPhase::Negotiating, ControlEvent::Negotiated(Ok(layout))) => {
            if recording_supports(layout.encoding) {
                (ControlPhase::Building(layout), ControlAction::Build(layout))
            } else {
                (
                    ControlPhase::Failed(CaptureError::UnsupportedSampleFormat),
                    ControlAction::AwaitStop,
                )
            }
        },
        (ControlPhase::Negotiating, ControlEvent::Negotiated(Err(detail))) => (
            ControlPhase::Failed(CaptureError::ConfigNegotiationFailed(detail)),
            ControlAction::AwaitStop,
        ),
        (ControlPhase::Building(layout), ControlEvent::Built(Ok(()))) => (
            ControlPhase::Starting(layout),
            ControlAction::Start,
        ),
        (ControlPhase::Building(_), ControlEvent::Built(Err(detail))) => (
            ControlPhase::Failed(CaptureError::StreamBuildFailed(detail)),
            ControlAction::AwaitStop,
        ),
        (ControlPhase::Starting(layout), ControlEvent::Started(Ok(()))) => (
            ControlPhase::Streaming(layout),
            ControlAction::AwaitStop,
        ),
        (ControlPhase::Starting(_), ControlEvent::Started(Err(detail))) => (
            ControlPhase::Failed(CaptureError::StreamStartFailed(detail)),
            ControlAction::AwaitStop,
        ),
        (ControlPhase::Streaming(layout), ControlEvent::StopRequested) => (
            ControlPhase::Closed,
            ControlAction::Finalize { grace_ms: STOP_GRACE_MS, sample_rate: layout.sample_rate },
        ),
        (ControlPhase::Failed(error), ControlEvent::StopRequested) => (
            ControlPhase::Closed,
            ControlAction::Reply(error),
        ),
        (phase, _) => (phase, ControlAction::Nothing),
    }
}

/// A stream is only ever built for a layout that can be recorded, and only
/// straight after that layout was negotiated.
pub proof fn lemma_build_needs_recordable_layout(phase: ControlPhase, event: ControlEvent)
    ensures
        control_next(phase, event).1 matches ControlAction::Build(layout) ==> {
            &&& recordable(layout.encoding)
            &&& phase is Negotiating
            &&& event == ControlEvent::Negotiated(Ok::<StreamLayout, String>(layout))
        },
{
}

/// A failure met before any stop request is kept, through every later event,
/// until the stop request arrives; the reply to that request is the failure.
pub proof fn lemma_set_up_failure_waits_for_stop(error: CaptureError, event: ControlEvent)
    ensures
        event is StopRequested ==> control_next(ControlPhase::Failed(error), event) == (
            ControlPhase::Closed,
            ControlAction::Reply(error),
        ),
        !(event is StopRequested) ==> control_next(ControlPhase::Failed(error), event) == (
            ControlPhase::Failed(error),
            ControlAction::Nothing,
        ),
{
}

/// Once the stop request has been served, nothing is replied or encoded
/// again.
pub proof fn lemma_closed_is_final(event: ControlEvent)
    ensures
        control_next(ControlPhase::Closed, event) == (ControlPhase::Closed, ControlAction::Nothing),
{
}

/// The accidental-tap guard: a log of fewer than `MIN_SAMPLES` mono samples
/// is refused before anything is encoded.
pub fn check_length(sample_count: usize) -> (r: Result<(), CaptureError>)
    ensures
        sample_count < MIN_SAMPLES ==> r == Err::<(), CaptureError>(
            CaptureError::RecordingTooShort,
        ),
        sample_count >= MIN_SAMPLES ==> r is Ok,
{
    if sample_count < MIN_SAMPLES {
        Err(CaptureError::RecordingTooShort)
    } else {
        Ok(())
    }
}

} // verus!
