//! The loop that moves packets from the writer's queue to a channel's output stream.
use crate::queue;
use crate::types::CBL2CAPChannel;
use async_channel::{Receiver, RecvError};
use vstd::prelude::*;

verus! {

/// What the loop wants done next.
#[derive(Debug, PartialEq, Eq)]
pub enum WriteAction {
    /// Write the whole packet to the stream, in one call.
    Write(Vec<u8>),
    /// Leave the loop.
    End,
}

/// What came of it.
#[derive(Clone, Copy, Debug)]
pub enum WriteEvent {
    /// Nothing has been done yet.
    Started,
    /// The stream took the packet and returned `count`; a negative count means that it failed.
    Written { count: isize },
}

/// How far a loop has come.
#[derive(Clone, Copy, Debug, PartialEq, Eq, Structural)]
pub enum WriteStage {
    Start,
    Writing,
    Ended,
}

/// Whether the loop can be told of `event` at this stage.
pub open spec fn expects(stage: WriteStage, event: WriteEvent) -> bool {
    match stage {
        WriteStage::Start => event is Started,
        WriteStage::Writing => event is Written,
        WriteStage::Ended => false,
    }
}

/// Whether `event` ends the loop: the stream failed. How much of the packet it took is not asked.
pub open spec fn failed(event: WriteEvent) -> bool {
    event matches WriteEvent::Written { count } && count < 0
}

/// Where a loop stands: its stage, and what it has taken out of the queue.
pub struct WriteState {
    pub stage: WriteStage,
    pub taken: Seq<Seq<u8>>,
}

/// One step of the loop, which wants `action` done next. After a failure nothing more is taken
/// out of the queue. Otherwise the next packet is, and is to be written as it is, unless the queue
/// has none left and is closed.
pub open spec fn write_step(
    before: WriteState,
    event: WriteEvent,
    after: WriteState,
    action: WriteAction,
) -> bool {
    &&& expects(before.stage, event)
    &&& match action {
        WriteAction::Write(packet) => {
            &&& !failed(event)
            &&& after == (WriteState {
                stage: WriteStage::Writing,
                taken: before.taken.push(packet@),
            })
        },
        WriteAction::End => after == (WriteState { stage: WriteStage::Ended, taken: before.taken }),
    }
}

/// The loop that serves the output stream of a channel.
pub struct WriteLoop {
    channel: CBL2CAPChannel,
    receiver: Receiver<Vec<u8>>,
    stage: WriteStage,
}

impl View for WriteLoop {
    type V = WriteState;

    closed spec fn view(&self) -> WriteState {
        WriteState { stage: self.stage, taken: queue::taken(self.receiver) }
    }
}

impl WriteLoop {
    /// The channel whose output stream is written.
    pub closed spec fn channel(&self) -> CBL2CAPChannel {
        self.channel
    }

    /// The end of the queue out of which packets come.
    pub closed spec fn receiver(&self) -> Receiver<Vec<u8>> {
        self.receiver
    }

    /// Whether this is the loop on `channel` before its first step.
    pub open spec fn is_start_on(&self, channel: CBL2CAPChannel) -> bool {
        &&& self.channel() == channel
        &&& self@ == (WriteState { stage: WriteStage::Start, taken: Seq::empty() })
    }

    /// The history in the view is that of the receiving end.
    pub proof fn view_is_history(&self)
        ensures
            self@.taken == queue::taken(self.receiver()),
    {
    }

    /// The loop that writes to `channel` what comes out of the queue of `receiver`.
    pub(crate) fn new(channel: CBL2CAPChannel, receiver: Receiver<Vec<u8>>) -> (write_loop:
        WriteLoop)
        ensures
            write_loop.channel() == channel,
            write_loop.receiver() == receiver,
            write_loop@ == (WriteState {
                stage: WriteStage::Start,
                taken: queue::taken(receiver),
            }),
    {
        WriteLoop { channel, receiver, stage: WriteStage::Start }
    }

    /// Takes what came of the last action, and tells what to do next. Waits while the queue is
    /// empty, unless the stream failed. Without a failure the loop ends only once all that ever went
    /// into the queue has come out of it.
    pub fn step(&mut self, event: WriteEvent) -> (action: WriteAction)
        requires
            expects(old(self)@.stage, event),
        ensures
            write_step(old(self)@, event, final(self)@, action),
            final(self).channel() == old(self).channel(),
            queue::same_receiving_end(old(self).receiver(), final(self).receiver()),
            queue::in_order(old(self).receiver()) ==> queue::in_order(final(self).receiver()),
            action is End ==> (event matches WriteEvent::Written { count } && count < 0)
                || queue::drained(final(self).receiver()),
    {
        if let WriteEvent::Written { count } = event {
            if count < 0 {
                self.stage = WriteStage::Ended;
                return WriteAction::End;
            }
        }
        let action = Self::decide(queue::recv_blocking(&mut self.receiver));
        self.stage = match action {
            WriteAction::Write(_) => WriteStage::Writing,
            WriteAction::End => WriteStage::Ended,
        };
        action
    }

    /// What to do with what came out of the queue.
    pub fn decide(received: Result<Vec<u8>, RecvError>) -> (action: WriteAction)
        ensures
            action == match received {
                Ok(packet) => WriteAction::Write(packet),
                Err(_) => WriteAction::End,
            },
    {
        match received {
            Ok(packet) => WriteAction::Write(packet),
            Err(_) => WriteAction::End,
        }
    }
}

} // verus!
