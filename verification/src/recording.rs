//! The control handle of one recording: a single-use sender of the stop
//! command, and the round trip that brings back the finished file or the
//! error the capture ended in.

use vstd::prelude::*;
use crate::capture::{CaptureError, StopLeg};
use std::sync::mpsc::{Receiver, Sender};

verus! {

/// `std::sync::mpsc::Sender`, the sending half of a channel. Nothing is known
/// of what is inside one.
#[verifier::external_type_specification]
#[verifier::external_body]
#[verifier::reject_recursive_types(T)]
pub struct ExSender<T>(Sender<T>);

/// `std::sync::mpsc::Receiver`, the receiving half of a channel. Nothing is
/// known of what is inside one.
#[verifier::external_type_specification]
#[verifier::external_body]
#[verifier::reject_recursive_types(T)]
pub struct ExReceiver<T>(Receiver<T>);

/// The only message the control thread understands. It carries the sending
/// half of a one-shot channel made for this request alone, so a reply can
/// reach no other caller.
pub enum RecordingCommand {
    Stop(Sender<Result<String, CaptureError>>),
}

/// The handle of a live recording. Stopping consumes it, so a recording can
/// be stopped, and its samples encoded, at most once.
pub struct RecordingHandle {
    command_sender: Sender<RecordingCommand>,
}

/// What a stop request comes to: `delivered` says whether the command reached
/// the control thread, `reply` is what came back on the response channel
/// before it closed.
pub open spec fn stop_outcome(
    delivered: bool,
    reply: Option<Result<String, CaptureError>>,
) -> Result<String, CaptureError> {
    if !delivered {
        Err(CaptureError::ChannelClosed(StopLeg::Request))
    } else {
        match reply {
            Some(answer) => answer,
            None => Err(CaptureError::ChannelClosed(StopLeg::Reply)),
        }
    }
}

/// Settles a stop request: the control thread's answer where there is one,
/// `ChannelClosed` where the command could not be delivered or the response
/// channel closed without a reply.
pub fn resolve_stop(delivered: bool, reply: Option<Result<String, CaptureError>>) -> (r: Result<
    String,
    CaptureError,
>)
    ensures
        r == stop_outcome(delivered, reply),
{
    if !delivered {
        return Err(CaptureError::ChannelClosed(StopLeg::Request));
    }
    match reply {
        Some(answer) => answer,
        None => Err(CaptureError::ChannelClosed(StopLeg::Reply)),
    }
}

/// Calls `std::sync::mpsc::channel` to make a one-shot response channel.
#[verifier::external_body]
fn reply_channel() -> (r: (
    Sender<Result<String, CaptureError>>,
    Receiver<Result<String, CaptureError>>,
)) {
    std::sync::mpsc::channel()
}

/// Calls `Sender::send` and reports whether the message was accepted. It is
/// refused once the receiving half has been dropped.
#[verifier::external_body]
fn send<T>(sender: &Sender<T>, message: T) -> (delivered: bool) {
    sender.send(message).is_ok()
}

/// Calls `Receiver::recv`, which blocks until a reply arrives or every sender
/// is gone; `None` stands for the latter.
#[verifier::external_body]
fn await_reply(receiver: Receiver<Result<String, CaptureError>>) -> (reply: Option<
    Result<String, CaptureError>,
>) {
    receiver.recv().ok()
}

impl RecordingCommand {
    /// Answers the command, consuming it: each stop request is replied to at
    /// most once. Whether the caller is still listening is of no interest to
    /// the control thread.
    pub fn reply(self, answer: Result<String, CaptureError>) {
        match self {
            RecordingCommand::Stop(sender) => {
                let _ = send(&sender, answer);
            },
        }
    }
}

impl RecordingHandle {
    /// The channel on which this handle sends its stop command.
    pub closed spec fn sender(&self) -> Sender<RecordingCommand> {
        self.command_sender
    }

    /// The handle of the recording whose control thread listens on the other
    /// end of `command_sender`.
    pub fn new(command_sender: Sender<RecordingCommand>) -> (h: Self)
        ensures
            h.sender() == command_sender,
    {
        RecordingHandle { command_sender }
    }

    /// Asks the control thread to stop and waits for its answer: the path of
    /// the finished file, or the error the capture ended in. The handle is
    /// used up by the call. The wait has no bound of its own: it ends when
    /// the control thread replies or goes away.
    pub fn stop(self) -> (r: Result<String, CaptureError>)
        ensures
            exists|delivered: bool, reply: Option<Result<String, CaptureError>>|
                r == #[trigger] stop_outcome(delivered, reply),
    {
        let (reply_sender, reply_receiver) = reply_channel();
        let delivered = send(&self.command_sender, RecordingCommand::Stop(reply_sender));
        if !delivered {
            return resolve_stop(false, None);
        }
        let reply = await_reply(reply_receiver);
        resolve_stop(true, reply)
    }
}

} // verus!
