use vstd::prelude::*;
use crate::command::{ActuationCommand, ControlError};
use crate::frame::{format_frame, frame_text};

verus! {

/// Symbol rate of the device link.
pub const BAUD_RATE: u32 = 115200;

/// Read timeout of the device link, in milliseconds.
pub const READ_TIMEOUT_MS: u64 = 10;

/// Ticks of the actuation worker per second.
pub const TICK_RATE_HZ: u64 = 20;

/// Time between two ticks of the actuation worker, in milliseconds.
pub const TICK_PERIOD_MS: u64 = 1000 / TICK_RATE_HZ;

/// The frame due on a tick for the latched command: one for a move, none for a
/// stop or while nothing has been received yet.
pub open spec fn frame_for(latched: Option<ActuationCommand>) -> Option<Seq<char>> {
    match latched {
        Some(ActuationCommand::MoveLocal { x, y, omega }) => Some(frame_text(x@, y@, omega@)),
        _ => None,
    }
}

/// The latched command once `batch` (oldest first) has been received: the newest
/// command of the batch, or the command held before if the batch is empty.
pub open spec fn latch_after(
    latched: Option<ActuationCommand>,
    batch: Seq<ActuationCommand>,
) -> Option<ActuationCommand> {
    if batch.len() == 0 {
        latched
    } else {
        Some(batch.last())
    }
}

/// The actuation worker: it owns the device link and the latched command, and
/// decides on each tick which frame, if any, is written to the link.
pub struct ActuationWorker<L> {
    link: L,
    latched: Option<ActuationCommand>,
}

impl<L> ActuationWorker<L> {
    /// The command currently held.
    pub closed spec fn latched_command(&self) -> Option<ActuationCommand> {
        self.latched
    }

    /// The device link the worker owns.
    pub closed spec fn device(&self) -> L {
        self.link
    }

    /// Starts a worker on the outcome of opening the device link. A link that
    /// could not be opened yields `DeviceOpenFailed`, and no worker exists to tick.
    pub fn start<E>(opened: Result<L, E>) -> (r: Result<Self, ControlError>)
        ensures
            opened is Ok <==> r is Ok,
            opened matches Ok(link) ==> (r matches Ok(w) && w.device() == link
                && w.latched_command() is None),
            r matches Err(e) ==> e == ControlError::DeviceOpenFailed,
    {
        match opened {
            Ok(link) => Ok(ActuationWorker { link, latched: None }),
            Err(_) => Err(ControlError::DeviceOpenFailed),
        }
    }

    /// Exclusive access to the device link, to write a frame.
    pub fn link_mut(&mut self) -> (r: &mut L)
        ensures
            *r == old(self).device(),
            final(self).device() == *final(r),
            final(self).latched_command() == old(self).latched_command(),
    {
        &mut self.link
    }

    /// Latches a newly received command, replacing the one held.
    pub fn receive(&mut self, cmd: ActuationCommand)
        ensures
            final(self).latched_command() == Some(cmd),
            final(self).device() == old(self).device(),
    {
        self.latched = Some(cmd);
    }

    /// The frame due for the latched command, if any.
    pub fn next_frame(&self) -> (r: Option<String>)
        ensures
            match r {
                Some(f) => frame_for(self.latched_command()) == Some(f@),
                None => frame_for(self.latched_command()) is None,
            },
    {
        match &self.latched {
            Some(ActuationCommand::MoveLocal { x, y, omega }) => {
                Some(format_frame(x.as_str(), y.as_str(), omega.as_str()))
            },
            _ => None,
        }
    }

    /// One tick: takes the commands received since the last tick (oldest first),
    /// keeps the newest of them, and returns the frame to write for this tick.
    pub fn tick(&mut self, batch: Vec<ActuationCommand>) -> (r: Option<String>)
        ensures
            final(self).latched_command() == latch_after(old(self).latched_command(), batch@),
            final(self).device() == old(self).device(),
            match r {
                Some(f) => frame_for(final(self).latched_command()) == Some(f@),
                None => frame_for(final(self).latched_command()) is None,
            },
    {
        let mut batch = batch;
        if batch.len() > 0 {
            let newest = batch.pop();
            match newest {
                Some(cmd) => self.receive(cmd),
                None => {},
            }
        }
        self.next_frame()
    }
}

/// Maps the outcome of writing a frame to the link: any failure is
/// `DeviceWriteFailed`.
pub fn write_result<E>(written: Result<(), E>) -> (r: Result<(), ControlError>)
    ensures
        written is Ok <==> r is Ok,
        r matches Err(e) ==> e == ControlError::DeviceWriteFailed,
{
    match written {
        Ok(()) => Ok(()),
        Err(_) => Err(ControlError::DeviceWriteFailed),
    }
}

/// Within one tick only the newest command of a burst counts: two ticks whose
/// bursts end in the same command emit the same frame, whatever was latched
/// before and whatever came earlier in the bursts.
pub proof fn lemma_burst_newest_wins(
    latched1: Option<ActuationCommand>,
    latched2: Option<ActuationCommand>,
    batch1: Seq<ActuationCommand>,
    batch2: Seq<ActuationCommand>,
)
    requires
        batch1.len() > 0,
        batch2.len() > 0,
        batch1.last() == batch2.last(),
    ensures
        frame_for(latch_after(latched1, batch1)) == frame_for(latch_after(latched2, batch2)),
        frame_for(latch_after(latched1, batch1)) == frame_for(Some(batch1.last())),
{
}

/// A tick whose burst ends in `Stop`, or a tick before any command was ever
/// received, emits no frame.
pub proof fn lemma_stop_emits_nothing(
    latched: Option<ActuationCommand>,
    batch: Seq<ActuationCommand>,
)
    requires
        (batch.len() > 0 && batch.last() is Stop) || (latched is None && batch.len() == 0),
    ensures
        frame_for(latch_after(latched, batch)) is None,
{
}

/// A tick with no new command repeats the frame of the tick before.
pub proof fn lemma_hold_without_commands(latched: Option<ActuationCommand>)
    ensures
        latch_after(latched, Seq::empty()) == latched,
        frame_for(latch_after(latched, Seq::empty())) == frame_for(latched),
{
}

} // verus!
