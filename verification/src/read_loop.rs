//! The loop that moves what arrives on a channel's input stream into the reader's queue.
use crate::queue;
use crate::types::{CBL2CAPChannel, NSStreamStatus, STREAM_CLOSED, STREAM_NOT_OPEN, STREAM_OPEN};
use async_channel::Sender;
use vstd::prelude::*;

verus! {

/// The most bytes that are read from the stream at a time.
pub const READ_SIZE: usize = 1024;

/// How long the loop sleeps before it asks again, in milliseconds.
pub const POLL_MILLIS: u64 = 10;

/// What the loop wants done next.
#[derive(Clone, Copy, Debug, PartialEq, Eq, Structural)]
pub enum ReadAction {
    /// Ask the stream for its status.
    AskStatus,
    /// Ask the stream, which had this status, whether bytes have arrived.
    AskAvailable { status: NSStreamStatus },
    /// Sleep for so many milliseconds.
    Sleep { millis: u64 },
    /// Read at most `max` bytes from the stream into a buffer of that length.
    Read { max: usize },
    /// Leave the loop.
    End,
}

/// What came of doing it.
#[derive(Clone, Copy, Debug)]
pub enum ReadEvent<'a> {
    Status(NSStreamStatus),
    Available(bool),
    Slept,
    /// The stream returned `count` and has filled that many bytes at the front of `buf`; a
    /// negative count means that it failed.
    Read { count: isize, buf: &'a [u8] },
}

/// A `ReadEvent`, with the bytes that were read.
pub enum ReadEventView {
    Status(NSStreamStatus),
    Available(bool),
    Slept,
    /// The bytes that the stream returned, or none because it failed.
    Read(Option<Seq<u8>>),
}

impl<'a> View for ReadEvent<'a> {
    type V = ReadEventView;

    open spec fn view(&self) -> ReadEventView {
        match *self {
            ReadEvent::Status(status) => ReadEventView::Status(status),
            ReadEvent::Available(available) => ReadEventView::Available(available),
            ReadEvent::Slept => ReadEventView::Slept,
            ReadEvent::Read { count, buf } => ReadEventView::Read(
                if count < 0 {
                    None
                } else {
                    Some(buf@.take(count as int))
                },
            ),
        }
    }
}

impl<'a> ReadEvent<'a> {
    /// Whether a stream can have caused this event: it fills no more than the buffer.
    pub open spec fn possible(&self) -> bool {
        *self matches ReadEvent::Read { count, buf } ==> count <= buf@.len()
    }
}

/// Whether `event` is what comes of doing `action`. A read returns no more bytes than it was asked
/// for. Nothing comes of leaving the loop.
pub open spec fn answers(action: ReadAction, event: ReadEventView) -> bool {
    match action {
        ReadAction::AskStatus => event is Status,
        ReadAction::AskAvailable { .. } => event is Available,
        ReadAction::Sleep { .. } => event is Slept,
        ReadAction::Read { max } => {
            &&& event matches ReadEventView::Read(bytes)
            &&& bytes matches Some(b) ==> b.len() <= max
        },
        ReadAction::End => false,
    }
}

/// What the loop does after `action` has led to `event`, where `queued` tells whether the queue
/// took the packet that was read, if one was.
///
/// A stream that is not open or closed ends the loop. Bytes are read only from a stream that is
/// open and has some; otherwise the loop sleeps and asks again. A read that failed, and a queue
/// that takes no more packets, end the loop.
pub open spec fn next_action(action: ReadAction, event: ReadEventView, queued: bool) -> ReadAction {
    match event {
        ReadEventView::Status(status) => if status.0 == STREAM_NOT_OPEN || status.0
            == STREAM_CLOSED {
            ReadAction::End
        } else {
            ReadAction::AskAvailable { status }
        },
        ReadEventView::Available(available) => if available && action == (
        ReadAction::AskAvailable { status: NSStreamStatus(STREAM_OPEN) }) {
            ReadAction::Read { max: READ_SIZE }
        } else {
            ReadAction::Sleep { millis: POLL_MILLIS }
        },
        ReadEventView::Slept => ReadAction::AskStatus,
        ReadEventView::Read(bytes) => if bytes is Some && queued {
            ReadAction::AskStatus
        } else {
            ReadAction::End
        },
    }
}

/// Where a loop stands: what it wants done, and what it has put into the queue.
pub struct ReadState {
    pub action: ReadAction,
    pub sent: Seq<Seq<u8>>,
}

/// One step of the loop. A packet that was read goes into the queue as it is, whatever its length,
/// unless the queue refuses it; nothing else does.
pub open spec fn read_step(before: ReadState, event: ReadEventView, after: ReadState) -> bool {
    &&& answers(before.action, event)
    &&& match event {
        ReadEventView::Read(Some(bytes)) => {
            ||| {
                &&& after.sent == before.sent.push(bytes)
                &&& after.action == next_action(before.action, event, true)
            }
            ||| {
                &&& after.sent == before.sent
                &&& after.action == next_action(before.action, event, false)
            }
        },
        _ => {
            &&& after.sent == before.sent
            &&& after.action == next_action(before.action, event, false)
        },
    }
}

/// The loop that serves the input stream of a channel.
pub struct ReadLoop {
    channel: CBL2CAPChannel,
    sender: Sender<Vec<u8>>,
    action: ReadAction,
}

impl View for ReadLoop {
    type V = ReadState;

    closed spec fn view(&self) -> ReadState {
        ReadState { action: self.action, sent: queue::sent(self.sender) }
    }
}

impl ReadLoop {
    /// The channel whose input stream is read.
    pub closed spec fn channel(&self) -> CBL2CAPChannel {
        self.channel
    }

    /// The end of the queue into which packets go.
    pub closed spec fn sender(&self) -> Sender<Vec<u8>> {
        self.sender
    }

    /// Whether this is the loop on `channel` before its first step.
    pub open spec fn is_start_on(&self, channel: CBL2CAPChannel) -> bool {
        &&& self.channel() == channel
        &&& self@ == (ReadState { action: ReadAction::AskStatus, sent: Seq::empty() })
    }

    /// The history in the view is that of the sending end.
    pub proof fn view_is_history(&self)
        ensures
            self@.sent == queue::sent(self.sender()),
    {
    }

    /// The loop that reads from `channel` and puts what it reads into the queue of `sender`.
    pub(crate) fn new(channel: CBL2CAPChannel, sender: Sender<Vec<u8>>) -> (read_loop: ReadLoop)
        ensures
            read_loop.channel() == channel,
            read_loop.sender() == sender,
            read_loop@ == (ReadState { action: ReadAction::AskStatus, sent: queue::sent(sender) }),
    {
        ReadLoop { channel, sender, action: ReadAction::AskStatus }
    }

    /// What the loop wants done.
    pub fn action(&self) -> (action: ReadAction)
        ensures
            action == self@.action,
    {
        self.action
    }

    /// Takes what came of doing what the loop wanted done, puts the packet into the queue if one
    /// was read, and tells what to do next. Waits while the queue is full. A packet is refused only
    /// by a queue that takes no more packets.
    pub fn step(&mut self, event: ReadEvent) -> (action: ReadAction)
        requires
            answers(old(self)@.action, event@),
            event.possible(),
        ensures
            read_step(old(self)@, event@, final(self)@),
            action == final(self)@.action,
            final(self).channel() == old(self).channel(),
            queue::same_sending_end(old(self).sender(), final(self).sender()),
            queue::within_room(old(self).sender()) ==> queue::within_room(final(self).sender()),
            event@ matches ReadEventView::Read(Some(_)) && action is End ==> queue::shut(
                final(self).sender(),
            ),
    {
        let mut queued: bool = false;
        if let ReadEvent::Read { count, buf } = event {
            if count >= 0 {
                let packet = vstd::slice::slice_to_vec(
                    vstd::slice::slice_subrange(buf, 0, count as usize),
                );
                queued = queue::send_blocking(&mut self.sender, packet).is_ok();
            }
        }
        self.action = Self::decide(self.action, event, queued);
        self.action
    }

    /// What to do after `action` has led to `event`, where `queued` tells whether the queue took
    /// the packet that was read, if one was.
    pub fn decide(action: ReadAction, event: ReadEvent, queued: bool) -> (next: ReadAction)
        requires
            answers(action, event@),
        ensures
            next == next_action(action, event@, queued),
    {
        match event {
            ReadEvent::Status(status) => {
                if status.0 == STREAM_NOT_OPEN || status.0 == STREAM_CLOSED {
                    ReadAction::End
                } else {
                    ReadAction::AskAvailable { status }
                }
            },
            ReadEvent::Available(available) => {
                let open = match action {
                    ReadAction::AskAvailable { status } => status.0 == STREAM_OPEN,
                    _ => false,
                };
                if !available || !open {
                    ReadAction::Sleep { millis: POLL_MILLIS }
                } else {
                    ReadAction::Read { max: READ_SIZE }
                }
            },
            ReadEvent::Slept => ReadAction::AskStatus,
            ReadEvent::Read { count, .. } => {
                if count < 0 || !queued {
                    ReadAction::End
                } else {
                    ReadAction::AskStatus
                }
            },
        }
    }
}

} // verus!
