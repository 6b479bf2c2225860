use scrivano::capture::{
    check_length, control_step, preview_supports, recording_supports, select_input_device, CaptureError, ControlAction, ControlEvent, ControlPhase, DeviceChoice,
    EncodeStage, SampleEncoding, StopLeg, StreamLayout, MIN_SAMPLES, STOP_GRACE_MS,
};

fn names(list: &[&str]) -> Vec<String> {
    list.iter().map(|s| s.to_string()).collect()
}

fn layout(encoding: SampleEncoding) -> StreamLayout {
    StreamLayout { encoding, sample_rate: 48_000, channels: 2 }
}

#[test]
fn constants() {
    assert_eq!(MIN_SAMPLES, 1000);
    assert_eq!(STOP_GRACE_MS, 100);
}

#[test]
fn fewer_than_1000_samples_is_too_short() {
    assert_eq!(check_length(0), Err(CaptureError::RecordingTooShort));
    assert_eq!(check_length(1), Err(CaptureError::RecordingTooShort));
    assert_eq!(check_length(999), Err(CaptureError::RecordingTooShort));
    assert_eq!(check_length(1000), Ok(()));
    assert_eq!(check_length(1001), Ok(()));
    assert_eq!(check_length(usize::MAX), Ok(()));
}

#[test]
fn device_is_the_first_exact_match() {
    let listed = names(&["Built-in Microphone", "USB Mic", "USB Mic", "usb mic"]);
    assert_eq!(select_input_device(&listed, Some("USB Mic"), true), DeviceChoice::Listed(1));
    assert_eq!(select_input_device(&listed, Some("usb mic"), false), DeviceChoice::Listed(3));
    assert_eq!(
        select_input_device(&listed, Some("Built-in Microphone"), false),
        DeviceChoice::Listed(0)
    );
}

#[test]
fn device_falls_back_to_default_then_to_none() {
    let listed = names(&["Built-in Microphone", "USB Mic"]);
    assert_eq!(select_input_device(&listed, Some("USB"), true), DeviceChoice::SystemDefault);
    assert_eq!(select_input_device(&listed, Some("USB Mic "), true), DeviceChoice::SystemDefault);
    assert_eq!(select_input_device(&listed, None, true), DeviceChoice::SystemDefault);
    assert_eq!(select_input_device(&listed, Some("Other"), false), DeviceChoice::Unavailable);
    assert_eq!(select_input_device(&listed, None, false), DeviceChoice::Unavailable);
    assert_eq!(select_input_device(&names(&[]), Some("x"), false), DeviceChoice::Unavailable);
    assert_eq!(select_input_device(&names(&[]), Some(""), true), DeviceChoice::SystemDefault);
}

#[test]
fn supported_encodings() {
    assert!(recording_supports(SampleEncoding::F32));
    assert!(recording_supports(SampleEncoding::I16));
    assert!(recording_supports(SampleEncoding::U16));
    assert!(!recording_supports(SampleEncoding::Other));
    assert!(preview_supports(SampleEncoding::F32));
    assert!(preview_supports(SampleEncoding::I16));
    assert!(!preview_supports(SampleEncoding::U16));
    assert!(!preview_supports(SampleEncoding::Other));
}

#[test]
fn control_thread_reaches_streaming_and_finalizes_on_stop() {
    let l = layout(SampleEncoding::I16);
    let (phase, action) =
        control_step(ControlPhase::Resolving, ControlEvent::Resolved(DeviceChoice::Listed(0)));
    assert_eq!((&phase, &action), (&ControlPhase::Negotiating, &ControlAction::Negotiate));
    let (phase, action) = control_step(phase, ControlEvent::Negotiated(Ok(l)));
    assert_eq!((&phase, &action), (&ControlPhase::Building(l), &ControlAction::Build(l)));
    let (phase, action) = control_step(phase, ControlEvent::Built(Ok(())));
    assert_eq!((&phase, &action), (&ControlPhase::Starting(l), &ControlAction::Start));
    let (phase, action) = control_step(phase, ControlEvent::Started(Ok(())));
    assert_eq!((&phase, &action), (&ControlPhase::Streaming(l), &ControlAction::AwaitStop));
    let (phase, action) = control_step(phase, ControlEvent::StopRequested);
    assert_eq!(phase, ControlPhase::Closed);
    assert_eq!(action, ControlAction::Finalize { grace_ms: 100, sample_rate: 48_000 });
    let (phase, action) = control_step(phase, ControlEvent::StopRequested);
    assert_eq!((phase, action), (ControlPhase::Closed, ControlAction::Nothing));
}

#[test]
fn set_up_failures_are_delivered_on_stop() {
    let l = layout(SampleEncoding::F32);
    let cases: Vec<(ControlPhase, ControlEvent, CaptureError)> = vec![
        (
            ControlPhase::Resolving,
            ControlEvent::Resolved(DeviceChoice::Unavailable),
            CaptureError::DeviceUnavailable,
        ),
        (
            ControlPhase::Negotiating,
            ControlEvent::Negotiated(Err("busy".to_string())),
            CaptureError::ConfigNegotiationFailed("busy".to_string()),
        ),
        (
            ControlPhase::Negotiating,
            ControlEvent::Negotiated(Ok(layout(SampleEncoding::Other))),
            CaptureError::UnsupportedSampleFormat,
        ),
        (
            ControlPhase::Building(l),
            ControlEvent::Built(Err("no".to_string())),
            CaptureError::StreamBuildFailed("no".to_string()),
        ),
        (
            ControlPhase::Starting(l),
            ControlEvent::Started(Err("dead".to_string())),
            CaptureError::StreamStartFailed("dead".to_string()),
        ),
    ];
    for (phase, event, error) in cases {
        let (phase, action) = control_step(phase, event);
        assert_eq!(phase, ControlPhase::Failed(error.clone()));
        assert_eq!(action, ControlAction::AwaitStop);
        let (phase, action) = control_step(phase, ControlEvent::Built(Ok(())));
        assert_eq!(phase, ControlPhase::Failed(error.clone()));
        assert_eq!(action, ControlAction::Nothing);
        let (phase, action) = control_step(phase, ControlEvent::StopRequested);
        assert_eq!(phase, ControlPhase::Closed);
        assert_eq!(action, ControlAction::Reply(error));
    }
}

#[test]
fn control_thread_ignores_events_out_of_turn() {
    let l = layout(SampleEncoding::U16);
    let (phase, action) = control_step(ControlPhase::Resolving, ControlEvent::StopRequested);
    assert_eq!((phase, action), (ControlPhase::Resolving, ControlAction::Nothing));
    let (phase, action) = control_step(ControlPhase::Negotiating, ControlEvent::Started(Ok(())));
    assert_eq!((phase, action), (ControlPhase::Negotiating, ControlAction::Nothing));
    let (phase, action) = control_step(ControlPhase::Streaming(l), ControlEvent::Built(Ok(())));
    assert_eq!((phase, action), (ControlPhase::Streaming(l), ControlAction::Nothing));
}

#[test]
fn capture_error_messages() {
    let d = || "why".to_string();
    assert_eq!(CaptureError::DeviceUnavailable.message(), "No input device available");
    assert_eq!(
        CaptureError::ConfigNegotiationFailed(d()).message(),
        "Failed to get input config: why"
    );
    assert_eq!(CaptureError::UnsupportedSampleFormat.message(), "Unsupported sample format");
    assert_eq!(CaptureError::StreamBuildFailed(d()).message(), "Failed to build stream: why");
    assert_eq!(CaptureError::StreamStartFailed(d()).message(), "Failed to start stream: why");
    assert_eq!(
        CaptureError::RecordingTooShort.message(),
        "Recording too short - hold the key longer"
    );
    assert_eq!(
        CaptureError::EncodeFailed(EncodeStage::Create, d()).message(),
        "Failed to create WAV file: why"
    );
    assert_eq!(
        CaptureError::EncodeFailed(EncodeStage::Write, d()).message(),
        "Failed to write sample: why"
    );
    assert_eq!(
        CaptureError::EncodeFailed(EncodeStage::Finalize, d()).message(),
        "Failed to finalize WAV: why"
    );
    assert_eq!(
        CaptureError::ChannelClosed(StopLeg::Request).message(),
        "Failed to send stop command"
    );
    assert_eq!(CaptureError::ChannelClosed(StopLeg::Reply).message(), "Failed to receive result");
}
