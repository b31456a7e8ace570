use vstd::prelude::*;
use std::sync::mpsc::{Receiver, Sender};
use crate::command::{ActuationCommand, ControlError};

verus! {

#[verifier::external_type_specification]
#[verifier::external_body]
#[verifier::reject_recursive_types(T)]
pub struct ExSender<T>(Sender<T>);

#[verifier::external_type_specification]
#[verifier::external_body]
#[verifier::reject_recursive_types(T)]
pub struct ExReceiver<T>(Receiver<T>);

/// Relies on `Clone` for std::sync::mpsc::Sender: another sender into the same
/// channel. Nothing is stated of it.
pub assume_specification<T>[ <Sender<T> as Clone>::clone ](s: &Sender<T>) -> Sender<T>;

/// Relies on std::sync::mpsc::channel: a fresh unbounded FIFO channel whose two
/// ends are returned. Nothing is stated of its contents.
#[verifier::external_body]
fn raw_channel() -> (r: (Sender<ActuationCommand>, Receiver<ActuationCommand>)) {
    std::sync::mpsc::channel()
}

/// Relies on std::sync::mpsc::Sender::send, which never blocks; when the
/// receiving end is gone it fails and hands the value back.
#[verifier::external_body]
fn raw_send(tx: &Sender<ActuationCommand>, cmd: ActuationCommand) -> (r: Result<
    (),
    ActuationCommand,
>)
    ensures
        r matches Err(c) ==> c == cmd,
{
    tx.send(cmd).map_err(|e| e.0)
}

/// Relies on std::sync::mpsc::Receiver::try_recv, which never blocks: the oldest
/// queued value, or nothing when the queue is empty or every sender is gone.
#[verifier::external_body]
fn raw_try_recv(rx: &Receiver<ActuationCommand>) -> (r: Option<ActuationCommand>) {
    rx.try_recv().ok()
}

/// The producing end of the command channel; any number of callers may hold a
/// clone of it.
#[derive(Clone)]
pub struct CommandSender {
    tx: Sender<ActuationCommand>,
}

/// The consuming end of the command channel, held by the actuation worker alone.
pub struct CommandReceiver {
    rx: Receiver<ActuationCommand>,
}

/// Opens an unbounded command channel and returns its two ends.
pub fn command_channel() -> (r: (CommandSender, CommandReceiver)) {
    let (tx, rx) = raw_channel();
    (CommandSender { tx }, CommandReceiver { rx })
}

impl CommandSender {
    /// Queues a command for the worker without blocking. The only failure is
    /// `ChannelClosed`, once the receiving end has been dropped.
    pub fn send(&self, cmd: ActuationCommand) -> (r: Result<(), ControlError>)
        ensures
            r matches Err(e) ==> e == ControlError::ChannelClosed,
    {
        match raw_send(&self.tx, cmd) {
            Ok(()) => Ok(()),
            Err(_) => Err(ControlError::ChannelClosed),
        }
    }
}

impl CommandReceiver {
    /// The oldest queued command, or `None` when none is waiting; never blocks.
    pub fn try_receive(&self) -> (r: Option<ActuationCommand>) {
        raw_try_recv(&self.rx)
    }
}

} // verus!
