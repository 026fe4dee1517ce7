//! The two halves of an L2CAP channel.
//!
//! Each half owns one end of a packet queue. The loop that serves the half's stream owns the other
//! end and runs on a thread of its own.
use crate::error::{Error, ErrorKind};
use crate::queue;
use crate::queue::{TryRecvError, TrySendError};
use crate::read_loop::ReadLoop;
use crate::types::CBL2CAPChannel;
use crate::write_loop::WriteLoop;
use async_channel::{Receiver, RecvError, SendError, Sender};
use vstd::future::FutureAdditionalSpecFns;
use vstd::prelude::*;

verus! {

/// The number of packets that may wait between a channel half and its loop.
pub const QUEUE_ROOM: usize = 16;

/// One of the two streams of a channel.
#[derive(Clone, Copy, Debug, PartialEq, Eq, Structural)]
pub enum StreamSide {
    Input,
    Output,
}

/// Something to be done to a stream of a channel.
#[derive(Clone, Copy, Debug, PartialEq, Eq, Structural)]
pub enum StreamCommand {
    Open { channel: CBL2CAPChannel, side: StreamSide },
    Close { channel: CBL2CAPChannel, side: StreamSide },
}

/// What closing a channel takes: its input stream is closed, then its output stream.
pub open spec fn close_commands(channel: CBL2CAPChannel) -> Seq<StreamCommand> {
    seq![
        StreamCommand::Close { channel, side: StreamSide::Input },
        StreamCommand::Close { channel, side: StreamSide::Output },
    ]
}

/// Closes a channel; whoever owns a half closes the channel when the half is dropped.
#[derive(Debug)]
pub struct L2capCloser {
    channel: CBL2CAPChannel,
}

impl L2capCloser {
    /// The channel that is closed.
    pub closed spec fn channel(&self) -> CBL2CAPChannel {
        self.channel
    }

    /// What to do to close the channel, in this order.
    pub fn close(&self) -> (commands: Vec<StreamCommand>)
        ensures
            commands@ == close_commands(self.channel()),
    {
        let mut commands: Vec<StreamCommand> = Vec::new();
        commands.push(StreamCommand::Close { channel: self.channel, side: StreamSide::Input });
        commands.push(StreamCommand::Close { channel: self.channel, side: StreamSide::Output });
        commands
    }
}

/// What becomes of a received packet and of the buffer that it is to be read into: a packet that
/// fits is copied to the front of the buffer and the rest of the buffer stays; one that does not
/// fit leaves the buffer alone, and is gone.
pub open spec fn delivered(
    packet: Seq<u8>,
    before: Seq<u8>,
    after: Seq<u8>,
    result: Result<usize, Error>,
) -> bool {
    if packet.len() <= before.len() {
        &&& result == Ok::<usize, Error>(packet.len() as usize)
        &&& after == packet + before.skip(packet.len() as int)
    } else {
        &&& result matches Err(e)
        &&& e.says(ErrorKind::InvalidParameter, "Buffer is too small"@)
        &&& after == before
    }
}

/// What a blocking read makes of what came out of the queue.
pub open spec fn read_result(
    received: Result<Vec<u8>, RecvError>,
    before: Seq<u8>,
    after: Seq<u8>,
    result: Result<usize, Error>,
) -> bool {
    match received {
        Ok(packet) => delivered(packet@, before, after, result),
        Err(_) => {
            &&& result matches Err(e)
            &&& e.says(ErrorKind::ConnectionFailed, "channel is closed"@)
            &&& after == before
        },
    }
}

/// What a read without waiting makes of what came out of the queue.
pub open spec fn try_read_result(
    received: Result<Vec<u8>, TryRecvError>,
    before: Seq<u8>,
    after: Seq<u8>,
    result: Result<usize, Error>,
) -> bool {
    match received {
        Ok(packet) => delivered(packet@, before, after, result),
        Err(TryRecvError::Empty) => {
            &&& result matches Err(e)
            &&& e.says(ErrorKind::NotReady, "no received packet in queue"@)
            &&& after == before
        },
        Err(TryRecvError::Closed) => {
            &&& result matches Err(e)
            &&& e.says(ErrorKind::ConnectionFailed, "channel is closed"@)
            &&& after == before
        },
    }
}

/// What a blocking write makes of the queue's answer.
pub open spec fn write_result(sent: Result<(), SendError<Vec<u8>>>, result: Result<(), Error>) -> bool {
    match sent {
        Ok(()) => result == Ok::<(), Error>(()),
        Err(_) => {
            &&& result matches Err(e)
            &&& e.says(ErrorKind::ConnectionFailed, "channel is closed"@)
        },
    }
}

/// What a write without waiting makes of the queue's answer.
pub open spec fn try_write_result(
    sent: Result<(), TrySendError>,
    result: Result<(), Error>,
) -> bool {
    match sent {
        Ok(()) => result == Ok::<(), Error>(()),
        Err(TrySendError::Closed(_)) => {
            &&& result matches Err(e)
            &&& e.says(ErrorKind::ConnectionFailed, "channel is closed"@)
        },
        Err(TrySendError::Full(_)) => {
            &&& result matches Err(e)
            &&& e.says(ErrorKind::NotReady, "No buffer space for write"@)
        },
    }
}

/// Copies `packet` to the front of `buf`, or refuses a packet that is longer than `buf`.
fn deliver(packet: Vec<u8>, buf: &mut [u8]) -> (result: Result<usize, Error>)
    ensures
        delivered(packet@, old(buf)@, final(buf)@, result),
{
    if packet.len() > buf.len() {
        return Err(Error::new(ErrorKind::InvalidParameter, "Buffer is too small".to_string()));
    }
    let mut i: usize = 0;
    while i < packet.len()
        invariant
            i <= packet@.len() <= old(buf)@.len(),
            buf@.len() == old(buf)@.len(),
            buf@ == packet@.take(i as int) + old(buf)@.skip(i as int),
        decreases packet@.len() - i,
    {
        buf[i] = packet[i];
        i += 1;
    }
    assert(packet@.take(i as int) == packet@);
    Ok(i)
}

/// The reader side of an L2CAP channel.
pub struct L2capChannelReader {
    stream: Receiver<Vec<u8>>,
    closer: L2capCloser,
}

impl L2capChannelReader {
    /// The end of the queue from which packets are read.
    pub closed spec fn receiver(&self) -> Receiver<Vec<u8>> {
        self.stream
    }

    /// The channel that is read.
    pub closed spec fn channel(&self) -> CBL2CAPChannel {
        self.closer.channel()
    }

    /// Makes the reader of `channel`, tells how to open the stream that it reads, and makes the
    /// loop that is then to serve the stream.
    pub fn new(channel: CBL2CAPChannel) -> (made: (Self, StreamCommand, ReadLoop))
        ensures
            made.0.channel() == channel,
            queue::taken(made.0.receiver()) == Seq::<Seq<u8>>::empty(),
            !queue::found_ended(made.0.receiver()),
            queue::in_order(made.0.receiver()),
            made.1 == (StreamCommand::Open { channel, side: StreamSide::Input }),
            made.2.is_start_on(channel),
            queue::ends_of_queue(made.2.sender(), made.0.receiver(), QUEUE_ROOM as nat),
            queue::within_room(made.2.sender()),
    {
        let (sender, receiver) = queue::bounded(QUEUE_ROOM);
        let closer = L2capCloser { channel };
        let open = StreamCommand::Open { channel, side: StreamSide::Input };
        let read_loop = ReadLoop::new(channel, sender);
        (L2capChannelReader { stream: receiver, closer }, open, read_loop)
    }

    /// Starts to wait for the next packet: what comes of awaiting the future is for `read`. The
    /// packet that comes is the next one, and the only one that leaves the queue. An error means that all that
    /// ever went into the queue has come out of it.
    pub fn receive(&mut self) -> (future: async_channel::Recv<'_, Vec<u8>>)
        ensures
            queue::drawn_from(future) == old(self).receiver(),
            final(self).channel() == old(self).channel(),
            queue::same_receiving_end(old(self).receiver(), final(self).receiver()),
            queue::in_order(final(self).receiver()),
            queue::taken(old(self).receiver()).is_prefix_of(queue::taken(final(self).receiver())),
            queue::found_ended(old(self).receiver()) ==> {
                &&& queue::found_ended(final(self).receiver())
                &&& queue::taken(final(self).receiver()) == queue::taken(old(self).receiver())
            },
            future.awaited() ==> match future@ {
                Ok(packet) => queue::taken(final(self).receiver()) == queue::taken(
                    old(self).receiver(),
                ).push(packet@),
                Err(_) => {
                    &&& queue::taken(final(self).receiver()) == queue::taken(old(self).receiver())
                    &&& queue::found_ended(final(self).receiver())
                    &&& queue::drained(final(self).receiver())
                },
            },
    {
        queue::recv(&mut self.stream)
    }

    /// Reads into `buf` what came of waiting for a packet, and returns its length.
    pub fn read(&mut self, received: Result<Vec<u8>, RecvError>, buf: &mut [u8]) -> (result: Result<
        usize,
        Error,
    >)
        ensures
            read_result(received, old(buf)@, final(buf)@, result),
            *final(self) == *old(self),
    {
        match received {
            Ok(packet) => deliver(packet, buf),
            Err(_) => Err(
                Error::new(ErrorKind::ConnectionFailed, "channel is closed".to_string()),
            ),
        }
    }

    /// Reads the next packet into `buf` without waiting, and returns its length. A packet that
    /// does not fit has left the queue all the same. The channel is reported as closed only once
    /// all that ever went into the queue has come out of it, and from then on always.
    pub fn try_read(&mut self, buf: &mut [u8]) -> (result: Result<usize, Error>)
        ensures
            final(self).channel() == old(self).channel(),
            queue::same_receiving_end(old(self).receiver(), final(self).receiver()),
            queue::in_order(final(self).receiver()),
            queue::found_ended(old(self).receiver()) ==> queue::found_ended(
                final(self).receiver(),
            ),
            ({
                let before = queue::taken(old(self).receiver());
                let after = queue::taken(final(self).receiver());
                ||| {
                    &&& !queue::found_ended(final(self).receiver())
                    &&& after == before.push(after.last())
                    &&& delivered(after.last(), old(buf)@, final(buf)@, result)
                }
                ||| {
                    &&& after == before
                    &&& final(buf)@ == old(buf)@
                    &&& result matches Err(e)
                    &&& {
                        ||| {
                            &&& e.says(ErrorKind::NotReady, "no received packet in queue"@)
                            &&& !queue::found_ended(final(self).receiver())
                        }
                        ||| {
                            &&& e.says(ErrorKind::ConnectionFailed, "channel is closed"@)
                            &&& queue::found_ended(final(self).receiver())
                            &&& queue::drained(final(self).receiver())
                        }
                    }
                }
            }),
    {
        let received = queue::try_recv(&mut self.stream);
        assert(received is Ok ==> queue::taken(self.stream).last() == received->Ok_0@);
        Self::try_read_received(received, buf)
    }

    /// Reads into `buf` what taking from the queue without waiting gave.
    pub fn try_read_received(received: Result<Vec<u8>, TryRecvError>, buf: &mut [u8]) -> (result:
        Result<usize, Error>)
        ensures
            try_read_result(received, old(buf)@, final(buf)@, result),
    {
        match received {
            Ok(packet) => deliver(packet, buf),
            Err(TryRecvError::Empty) => Err(
                Error::new(ErrorKind::NotReady, "no received packet in queue".to_string()),
            ),
            Err(TryRecvError::Closed) => Err(
                Error::new(ErrorKind::ConnectionFailed, "channel is closed".to_string()),
            ),
        }
    }

    /// Closes the channel: returns what to do to its streams. This always succeeds.
    pub fn close(&mut self) -> (result: Result<Vec<StreamCommand>, Error>)
        ensures
            result matches Ok(commands) && commands@ == close_commands(old(self).channel()),
            *final(self) == *old(self),
    {
        Ok(self.closer.close())
    }
}

/// The writer side of an L2CAP channel.
pub struct L2capChannelWriter {
    stream: Sender<Vec<u8>>,
    closer: L2capCloser,
}

impl L2capChannelWriter {
    /// The end of the queue into which packets are written.
    pub closed spec fn sender(&self) -> Sender<Vec<u8>> {
        self.stream
    }

    /// The channel that is written.
    pub closed spec fn channel(&self) -> CBL2CAPChannel {
        self.closer.channel()
    }

    /// Makes the writer of `channel`, tells how to open the stream that it writes, and makes the
    /// loop that is then to serve the stream.
    pub fn new(channel: CBL2CAPChannel) -> (made: (Self, StreamCommand, WriteLoop))
        ensures
            made.0.channel() == channel,
            queue::sent(made.0.sender()) == Seq::<Seq<u8>>::empty(),
            !queue::found_closed(made.0.sender()),
            queue::within_room(made.0.sender()),
            made.1 == (StreamCommand::Open { channel, side: StreamSide::Output }),
            made.2.is_start_on(channel),
            queue::ends_of_queue(made.0.sender(), made.2.receiver(), QUEUE_ROOM as nat),
            queue::in_order(made.2.receiver()),
    {
        let (sender, receiver) = queue::bounded(QUEUE_ROOM);
        let closer = L2capCloser { channel };
        let open = StreamCommand::Open { channel, side: StreamSide::Output };
        let write_loop = WriteLoop::new(channel, receiver);
        (L2capChannelWriter { stream: sender, closer }, open, write_loop)
    }

    /// Starts to wait for room for `packet`: awaiting the future puts it into the writer's queue, and
    /// what comes of that is for `write`. By the time the future is gone the packet has gone into
    /// the queue once or not at all. An error means that the queue takes no more packets.
    pub fn send(&mut self, packet: &[u8]) -> (future: async_channel::Send<'_, Vec<u8>>)
        ensures
            queue::carried(future) == packet@,
            queue::carrier(future) == old(self).sender(),
            final(self).channel() == old(self).channel(),
            queue::same_sending_end(old(self).sender(), final(self).sender()),
            queue::within_room(final(self).sender()),
            ({
                let before = queue::sent(old(self).sender());
                let after = queue::sent(final(self).sender());
                after == before || after == before.push(packet@)
            }),
            queue::found_closed(old(self).sender()) ==> {
                &&& queue::found_closed(final(self).sender())
                &&& queue::sent(final(self).sender()) == queue::sent(old(self).sender())
            },
            future.awaited() ==> match future@ {
                Ok(()) => queue::sent(final(self).sender()) == queue::sent(
                    old(self).sender(),
                ).push(packet@),
                Err(_) => {
                    &&& queue::sent(final(self).sender()) == queue::sent(old(self).sender())
                    &&& queue::found_closed(final(self).sender())
                    &&& queue::shut(final(self).sender())
                },
            },
    {
        queue::send(&mut self.stream, vstd::slice::slice_to_vec(packet))
    }

    /// Tells the result of a write from what came of waiting for room for its packet.
    pub fn write(&mut self, sent: Result<(), SendError<Vec<u8>>>) -> (result: Result<(), Error>)
        ensures
            write_result(sent, result),
            *final(self) == *old(self),
    {
        match sent {
            Ok(()) => Ok(()),
            Err(_) => Err(
                Error::new(ErrorKind::ConnectionFailed, "channel is closed".to_string()),
            ),
        }
    }

    /// Puts `packet` into the queue without waiting, unless the queue is full or closed. It is not
    /// full before as many packets have gone in as it has room for. Once the channel is reported as
    /// closed, it always is, and no more packets go in.
    pub fn try_write(&mut self, packet: &[u8]) -> (result: Result<(), Error>)
        ensures
            final(self).channel() == old(self).channel(),
            queue::same_sending_end(old(self).sender(), final(self).sender()),
            queue::within_room(final(self).sender()),
            queue::found_closed(old(self).sender()) ==> queue::found_closed(final(self).sender()),
            match result {
                Ok(()) => {
                    &&& !queue::found_closed(final(self).sender())
                    &&& queue::sent(final(self).sender()) == queue::sent(
                        old(self).sender(),
                    ).push(packet@)
                },
                Err(e) => {
                    &&& queue::sent(final(self).sender()) == queue::sent(old(self).sender())
                    &&& {
                        ||| {
                            &&& e.says(ErrorKind::ConnectionFailed, "channel is closed"@)
                            &&& queue::found_closed(final(self).sender())
                            &&& queue::shut(final(self).sender())
                        }
                        ||| {
                            &&& e.says(ErrorKind::NotReady, "No buffer space for write"@)
                            &&& !queue::found_closed(final(self).sender())
                            &&& queue::can_be_full(old(self).sender())
                        }
                    }
                },
            },
    {
        let sent = queue::try_send(&mut self.stream, vstd::slice::slice_to_vec(packet));
        Self::try_write_sent(sent)
    }

    /// Tells the result of a write from what the queue answered without waiting.
    pub fn try_write_sent(sent: Result<(), TrySendError>) -> (result: Result<(), Error>)
        ensures
            try_write_result(sent, result),
    {
        match sent {
            Ok(()) => Ok(()),
            Err(TrySendError::Closed(_)) => Err(
                Error::new(ErrorKind::ConnectionFailed, "channel is closed".to_string()),
            ),
            Err(TrySendError::Full(_)) => Err(
                Error::new(ErrorKind::NotReady, "No buffer space for write".to_string()),
            ),
        }
    }

    /// Closes the channel: returns what to do to its streams. This always succeeds.
    pub fn close(&mut self) -> (result: Result<Vec<StreamCommand>, Error>)
        ensures
            result matches Ok(commands) && commands@ == close_commands(old(self).channel()),
            *final(self) == *old(self),
    {
        Ok(self.closer.close())
    }
}

} // verus!
