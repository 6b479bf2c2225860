use scrivano::capture::{CaptureError, StopLeg};
use scrivano::preview::AudioPreviewHandle;
use scrivano::recording::{resolve_stop, RecordingCommand, RecordingHandle};
use std::sync::atomic::{AtomicBool, Ordering};
use std::sync::mpsc;
use std::sync::Arc;

#[test]
fn undelivered_stop_is_channel_closed() {
    assert_eq!(resolve_stop(false, None), Err(CaptureError::ChannelClosed(StopLeg::Request)));
    assert_eq!(
        resolve_stop(false, Some(Ok("a.wav".to_string()))),
        Err(CaptureError::ChannelClosed(StopLeg::Request))
    );
}

#[test]
fn missing_reply_is_channel_closed() {
    assert_eq!(resolve_stop(true, None), Err(CaptureError::ChannelClosed(StopLeg::Reply)));
}

#[test]
fn reply_is_passed_on_as_it_came() {
    assert_eq!(resolve_stop(true, Some(Ok("a.wav".to_string()))), Ok("a.wav".to_string()));
    assert_eq!(
        resolve_stop(true, Some(Err(CaptureError::RecordingTooShort))),
        Err(CaptureError::RecordingTooShort)
    );
}

#[test]
fn stop_fails_when_the_control_thread_is_gone() {
    let (sender, receiver) = mpsc::channel::<RecordingCommand>();
    let handle = RecordingHandle::new(sender);
    drop(receiver);
    assert_eq!(handle.stop(), Err(CaptureError::ChannelClosed(StopLeg::Request)));
}

#[test]
fn command_carries_the_reply_to_its_own_caller() {
    let (first_sender, first_receiver) = mpsc::channel();
    let (second_sender, second_receiver) = mpsc::channel();
    RecordingCommand::Stop(second_sender).reply(Err(CaptureError::DeviceUnavailable));
    RecordingCommand::Stop(first_sender).reply(Ok("one.wav".to_string()));
    assert_eq!(first_receiver.recv(), Ok(Ok("one.wav".to_string())));
    assert_eq!(second_receiver.recv(), Ok(Err(CaptureError::DeviceUnavailable)));
    assert!(first_receiver.recv().is_err());
}

#[test]
fn reply_to_a_caller_that_left_is_dropped() {
    let (sender, receiver) = mpsc::channel();
    drop(receiver);
    RecordingCommand::Stop(sender).reply(Ok("unheard.wav".to_string()));
}

#[test]
fn preview_handle_raises_its_flag() {
    let flag = Arc::new(AtomicBool::new(false));
    let handle = AudioPreviewHandle::new(Arc::clone(&flag));
    assert!(!handle.is_stopped());
    handle.stop();
    assert!(handle.is_stopped());
    assert!(flag.load(Ordering::Relaxed));
    handle.stop();
    assert!(flag.load(Ordering::Relaxed));
}
