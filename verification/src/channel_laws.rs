//! What every call on a channel, its halves and its loops gives, told by its arguments and its
//! result alone.
use crate::error::{Error, ErrorKind};
use crate::l2cap_channel::{
    L2capChannelReader, L2capChannelWriter, L2capCloser, StreamCommand, StreamSide,
};
use crate::queue;
use crate::queue::{TryRecvError, TrySendError};
use crate::read_loop::{ReadAction, ReadEvent, ReadLoop};
use crate::types::{CBL2CAPChannel, NSStreamStatus};
use crate::write_loop::{WriteAction, WriteEvent, WriteLoop};
use async_channel::{RecvError, SendError};
use vstd::future::FutureAdditionalSpecFns;
use vstd::prelude::*;

verus! {

/// A packet that was read from the stream is queued whole and unchanged, and the loop then asks the
/// stream for its status at once, whatever the packet holds and however long it is. The one other
/// outcome is that the queue takes no more packets: then the loop ends and nothing is queued.
pub proof fn packet_read_is_queued_and_polling_goes_on(
    read_loop: &mut ReadLoop,
    count: isize,
    buf: &[u8],
    action: ReadAction,
)
    requires
        call_ensures(ReadLoop::step, (read_loop, ReadEvent::Read { count, buf }), action),
        0 <= count <= buf@.len(),
    ensures
        action == ReadAction::AskStatus || action == ReadAction::End,
        action == ReadAction::AskStatus ==> queue::sent(final(read_loop).sender()) == queue::sent(
            old(read_loop).sender(),
        ).push(buf@.subrange(0, count as int)),
        action == ReadAction::End ==> {
            &&& queue::sent(final(read_loop).sender()) == queue::sent(old(read_loop).sender())
            &&& queue::shut(final(read_loop).sender())
        },
{
    old(read_loop).view_is_history();
    final(read_loop).view_is_history();
    assert(buf@.take(count as int) == buf@.subrange(0, count as int));
}

/// A read that failed ends the loop and queues nothing.
pub proof fn failed_read_ends_the_read_loop(
    read_loop: &mut ReadLoop,
    count: isize,
    buf: &[u8],
    action: ReadAction,
)
    requires
        call_ensures(ReadLoop::step, (read_loop, ReadEvent::Read { count, buf }), action),
        count < 0,
    ensures
        action == ReadAction::End,
        queue::sent(final(read_loop).sender()) == queue::sent(old(read_loop).sender()),
{
    old(read_loop).view_is_history();
    final(read_loop).view_is_history();
}

/// Only what was read from the stream is ever queued.
pub proof fn only_reads_are_queued(read_loop: &mut ReadLoop, event: ReadEvent, action: ReadAction)
    requires
        call_ensures(ReadLoop::step, (read_loop, event), action),
        !(event is Read),
    ensures
        queue::sent(final(read_loop).sender()) == queue::sent(old(read_loop).sender()),
{
    old(read_loop).view_is_history();
    final(read_loop).view_is_history();
}

/// Every sleep follows the question whether bytes have arrived, and lasts ten milliseconds.
pub proof fn every_sleep_is_short(read_loop: &mut ReadLoop, event: ReadEvent, action: ReadAction)
    requires
        call_ensures(ReadLoop::step, (read_loop, event), action),
        action is Sleep,
    ensures
        action == (ReadAction::Sleep { millis: 10 }),
        event is Available,
{
}

/// The status of a stream ends the loop exactly if the stream is not open or closed; otherwise the
/// loop asks the stream, of which it keeps this status, whether bytes have arrived.
pub proof fn status_decides_whether_to_go_on(
    read_loop: &mut ReadLoop,
    status: NSStreamStatus,
    action: ReadAction,
)
    requires
        call_ensures(ReadLoop::step, (read_loop, ReadEvent::Status(status)), action),
    ensures
        action == ReadAction::End <==> status.0 == 0 || status.0 == 6,
        action != ReadAction::End ==> action == (ReadAction::AskAvailable { status }),
{
}

/// A stream is read, at most 1024 bytes at a time, exactly if it was open and has bytes; otherwise
/// the loop sleeps.
pub proof fn stream_is_read_exactly_if_open_with_bytes(
    read_loop: &mut ReadLoop,
    status: NSStreamStatus,
    available: bool,
    action: ReadAction,
)
    requires
        old(read_loop)@.action == (ReadAction::AskAvailable { status }),
        call_ensures(ReadLoop::step, (read_loop, ReadEvent::Available(available)), action),
    ensures
        action is Read <==> available && status.0 == 2,
        action is Read ==> action == (ReadAction::Read { max: 1024 }),
        !(action is Read) ==> action is Sleep,
{
}

/// After a sleep the stream is asked for its status.
pub proof fn sleep_leads_back_to_the_status(read_loop: &mut ReadLoop, action: ReadAction)
    requires
        call_ensures(ReadLoop::step, (read_loop, ReadEvent::Slept), action),
    ensures
        action == ReadAction::AskStatus,
{
}

/// A read loop can be told what came of the action that it wants done, whatever that is, and of
/// nothing else: each action that a step returns admits the events that answer it.
pub proof fn read_loop_takes_every_answer(
    read_loop: &mut ReadLoop,
    told: ReadEvent,
    action: ReadAction,
    next: &mut ReadLoop,
    status: NSStreamStatus,
    available: bool,
    count: isize,
    buf: &[u8],
)
    requires
        call_ensures(ReadLoop::step, (read_loop, told), action),
        *old(next) == *final(read_loop),
        count <= buf@.len(),
    ensures
        action == ReadAction::AskStatus ==> call_requires(
            ReadLoop::step,
            (next, ReadEvent::Status(status)),
        ),
        action is AskAvailable ==> call_requires(
            ReadLoop::step,
            (next, ReadEvent::Available(available)),
        ),
        action is Sleep ==> call_requires(ReadLoop::step, (next, ReadEvent::Slept)),
        action is Read && count <= 1024 ==> call_requires(
            ReadLoop::step,
            (next, ReadEvent::Read { count, buf }),
        ),
{
    assert(count >= 0 ==> buf@.take(count as int).len() == count);
}

/// A read loop stays on its channel and its queue, and remembers the action that it asked for.
pub proof fn read_loop_keeps_its_place(
    read_loop: &mut ReadLoop,
    event: ReadEvent,
    action: ReadAction,
    asked: ReadAction,
    after: &ReadLoop,
)
    requires
        call_ensures(ReadLoop::step, (read_loop, event), action),
        *after == *final(read_loop),
        call_ensures(ReadLoop::action, (after,), asked),
    ensures
        asked == action,
        after.channel() == old(read_loop).channel(),
        queue::same_sending_end(old(read_loop).sender(), after.sender()),
{
}

/// What a read loop decides after a read depends on nothing but whether the stream failed and
/// whether the queue took the packet.
pub proof fn decision_after_a_read(
    action: ReadAction,
    count: isize,
    buf: &[u8],
    queued: bool,
    next: ReadAction,
)
    requires
        call_ensures(ReadLoop::decide, (action, ReadEvent::Read { count, buf }, queued), next),
    ensures
        next == ReadAction::AskStatus <==> count >= 0 && queued,
        next == ReadAction::End <==> count < 0 || !queued,
{
}

/// What a read loop decides without a read does not depend on the queue, and comes of the stream's
/// answers alone.
pub proof fn decision_without_a_read(
    action: ReadAction,
    status: NSStreamStatus,
    available: bool,
    queued: bool,
    after_status: ReadAction,
    after_available: ReadAction,
    after_sleep: ReadAction,
)
    requires
        call_ensures(ReadLoop::decide, (action, ReadEvent::Status(status), queued), after_status),
        call_ensures(
            ReadLoop::decide,
            (ReadAction::AskAvailable { status }, ReadEvent::Available(available), queued),
            after_available,
        ),
        call_ensures(ReadLoop::decide, (action, ReadEvent::Slept, queued), after_sleep),
    ensures
        after_status == ReadAction::End <==> status.0 == 0 || status.0 == 6,
        after_status != ReadAction::End ==> after_status == (ReadAction::AskAvailable { status }),
        after_available == (ReadAction::Read { max: 1024 }) <==> available && status.0 == 2,
        after_available == (ReadAction::Sleep { millis: 10 }) <==> !(available && status.0 == 2),
        after_sleep == ReadAction::AskStatus,
{
}

/// A write loop ends only after a write that returned a negative count, or once all that ever went
/// into its queue has come out of it.
pub proof fn write_loop_ends_only_on_failure_or_drained(
    write_loop: &mut WriteLoop,
    event: WriteEvent,
    action: WriteAction,
)
    requires
        call_ensures(WriteLoop::step, (write_loop, event), action),
        action is End,
    ensures
        (event matches WriteEvent::Written { count } && count < 0) || queue::drained(
            final(write_loop).receiver(),
        ),
        queue::taken(final(write_loop).receiver()) == queue::taken(old(write_loop).receiver()),
{
    old(write_loop).view_is_history();
    final(write_loop).view_is_history();
}

/// While packets are left in the queue, a write loop goes on after every write that did not fail,
/// however many bytes of the packet the stream took.
pub proof fn write_loop_goes_on_after_every_success(
    write_loop: &mut WriteLoop,
    count: isize,
    action: WriteAction,
    writer: L2capChannelWriter,
    room: nat,
)
    requires
        call_ensures(WriteLoop::step, (write_loop, WriteEvent::Written { count }), action),
        count >= 0,
        queue::ends_of_queue(writer.sender(), final(write_loop).receiver(), room),
        queue::taken(old(write_loop).receiver()).len() < queue::sent(writer.sender()).len(),
        queue::in_order(old(write_loop).receiver()),
    ensures
        action matches WriteAction::Write(packet) && packet@ == queue::sent(
            writer.sender(),
        )[queue::taken(old(write_loop).receiver()).len() as int],
{
    old(write_loop).view_is_history();
    final(write_loop).view_is_history();
    let n = queue::taken(old(write_loop).receiver()).len() as int;
    if let WriteAction::Write(packet) = action {
        assert(queue::agree(
            queue::sent(writer.sender()),
            queue::taken(final(write_loop).receiver()),
        ));
        assert(queue::taken(final(write_loop).receiver())[n] == packet@);
    }
}

/// A packet that is to be written is the one that was just taken out of the queue, whole and
/// unchanged, and nothing is taken or written after a failure.
pub proof fn write_loop_writes_what_it_takes(
    write_loop: &mut WriteLoop,
    event: WriteEvent,
    action: WriteAction,
)
    requires
        call_ensures(WriteLoop::step, (write_loop, event), action),
    ensures
        action matches WriteAction::Write(packet) ==> queue::taken(final(write_loop).receiver())
            == queue::taken(old(write_loop).receiver()).push(packet@),
        event matches WriteEvent::Written { count } ==> count < 0 ==> action is End,
        final(write_loop).channel() == old(write_loop).channel(),
        queue::same_receiving_end(old(write_loop).receiver(), final(write_loop).receiver()),
{
    old(write_loop).view_is_history();
    final(write_loop).view_is_history();
}

/// After each packet that is to be written, a write loop can be told what came of it, whatever the
/// stream returned.
pub proof fn write_loop_takes_every_count(
    write_loop: &mut WriteLoop,
    event: WriteEvent,
    action: WriteAction,
    next: &mut WriteLoop,
    count: isize,
)
    requires
        call_ensures(WriteLoop::step, (write_loop, event), action),
        action is Write,
        *old(next) == *final(write_loop),
    ensures
        call_requires(WriteLoop::step, (next, WriteEvent::Written { count })),
{
}

/// What comes out of the queue is to be written as it is; the loop ends exactly if nothing comes.
pub proof fn decision_on_a_packet(received: Result<Vec<u8>, RecvError>, action: WriteAction)
    requires
        call_ensures(WriteLoop::decide, (received,), action),
    ensures
        action is End <==> received is Err,
        received matches Ok(packet) ==> action == WriteAction::Write(packet),
{
}

/// A waiting read that was given a packet succeeds exactly if the packet is no longer than the
/// buffer. It then returns the packet's length, puts the packet's bytes at the front of the buffer
/// and leaves the others; otherwise it leaves all of the buffer.
pub proof fn read_succeeds_exactly_if_the_packet_fits(
    reader: &mut L2capChannelReader,
    packet: Vec<u8>,
    buf: &mut [u8],
    result: Result<usize, Error>,
)
    requires
        call_ensures(
            L2capChannelReader::read,
            (reader, Ok::<Vec<u8>, RecvError>(packet), buf),
            result,
        ),
        old(buf)@.len() <= usize::MAX,
    ensures
        result is Ok <==> packet@.len() <= old(buf)@.len(),
        final(buf)@.len() == old(buf)@.len(),
        result matches Ok(n) ==> n == packet@.len(),
        forall|i: int|
            0 <= i < old(buf)@.len() ==> #[trigger] final(buf)@[i] == if result is Ok && i
                < packet@.len() {
                packet@[i]
            } else {
                old(buf)@[i]
            },
        result matches Err(e) ==> {
            &&& e matches Error::Message { kind, message }
            &&& kind == ErrorKind::InvalidParameter
            &&& message@ == "Buffer is too small"@
        },
        *final(reader) == *old(reader),
{
}

/// A waiting read on a queue that has ended fails as closed and leaves the buffer.
pub proof fn read_of_an_ended_queue(
    reader: &mut L2capChannelReader,
    cause: RecvError,
    buf: &mut [u8],
    result: Result<usize, Error>,
)
    requires
        call_ensures(
            L2capChannelReader::read,
            (reader, Err::<Vec<u8>, RecvError>(cause), buf),
            result,
        ),
    ensures
        result matches Err(e) && e matches Error::Message { kind, message } && kind
            == ErrorKind::ConnectionFailed && message@ == "channel is closed"@,
        final(buf)@ == old(buf)@,
        *final(reader) == *old(reader),
{
}

/// A read without waiting that took a packet out of the queue succeeds exactly if the packet is no
/// longer than the buffer, and then gives the packet; one that took none changes nothing and fails
/// as not ready or, only once all that ever went in has come out, as closed.
pub proof fn try_read_succeeds_exactly_if_the_packet_fits(
    reader: &mut L2capChannelReader,
    buf: &mut [u8],
    result: Result<usize, Error>,
)
    requires
        call_ensures(L2capChannelReader::try_read, (reader, buf), result),
        old(buf)@.len() <= usize::MAX,
    ensures
        ({
            let before = queue::taken(old(reader).receiver());
            let after = queue::taken(final(reader).receiver());
            let packet = after[before.len() as int];
            &&& final(buf)@.len() == old(buf)@.len()
            &&& after.len() <= before.len() + 1
            &&& before.is_prefix_of(after)
            &&& result is Ok <==> after.len() > before.len() && packet.len() <= old(buf)@.len()
            &&& result matches Ok(n) ==> n == packet.len()
            &&& forall|i: int|
                0 <= i < old(buf)@.len() ==> #[trigger] final(buf)@[i] == if result is Ok && i
                    < packet.len() {
                    packet[i]
                } else {
                    old(buf)@[i]
                }
            &&& result matches Err(e) ==> {
                &&& e matches Error::Message { kind, message }
                &&& {
                    ||| {
                        &&& kind == ErrorKind::InvalidParameter
                        &&& message@ == "Buffer is too small"@
                        &&& after.len() > before.len()
                    }
                    ||| {
                        &&& kind == ErrorKind::NotReady
                        &&& message@ == "no received packet in queue"@
                        &&& after.len() == before.len()
                        &&& !queue::found_ended(old(reader).receiver())
                    }
                    ||| {
                        &&& kind == ErrorKind::ConnectionFailed
                        &&& message@ == "channel is closed"@
                        &&& after.len() == before.len()
                        &&& queue::found_ended(final(reader).receiver())
                        &&& queue::drained(final(reader).receiver())
                    }
                }
            }
        }),
        final(reader).channel() == old(reader).channel(),
        queue::same_receiving_end(old(reader).receiver(), final(reader).receiver()),
        queue::in_order(final(reader).receiver()),
{
}

/// What taking from the queue without waiting gave decides the result of a read: a packet is
/// returned exactly if it is no longer than the buffer, an empty queue is not ready, and an ended
/// one is closed.
pub proof fn received_packet_decides_the_read(
    received: Result<Vec<u8>, TryRecvError>,
    buf: &mut [u8],
    result: Result<usize, Error>,
)
    requires
        call_ensures(L2capChannelReader::try_read_received, (received, buf), result),
        old(buf)@.len() <= usize::MAX,
    ensures
        final(buf)@.len() == old(buf)@.len(),
        result is Ok <==> (received matches Ok(packet) && packet@.len() <= old(buf)@.len()),
        result matches Ok(n) ==> n == received->Ok_0@.len(),
        forall|i: int|
            0 <= i < old(buf)@.len() ==> #[trigger] final(buf)@[i] == if result is Ok && i
                < received->Ok_0@.len() {
                received->Ok_0@[i]
            } else {
                old(buf)@[i]
            },
        result matches Err(e) ==> {
            &&& e matches Error::Message { kind, message }
            &&& kind == ErrorKind::InvalidParameter <==> received is Ok
            &&& kind == ErrorKind::NotReady <==> (received matches Err(TryRecvError::Empty))
            &&& kind == ErrorKind::ConnectionFailed <==> (received matches Err(TryRecvError::Closed))
            &&& received is Ok ==> message@ == "Buffer is too small"@
            &&& (received matches Err(TryRecvError::Empty)) ==> message@
                == "no received packet in queue"@
            &&& (received matches Err(TryRecvError::Closed)) ==> message@ == "channel is closed"@
        },
{
}

/// A receive that is awaited takes exactly the packet that it gives, the next one of the reader's
/// queue, and fails only once all that ever went in has come out.
pub proof fn awaited_receive_takes_its_packet(
    reader: &mut L2capChannelReader,
    future: async_channel::Recv<'_, Vec<u8>>,
)
    requires
        call_ensures(L2capChannelReader::receive, (reader,), future),
        future.awaited(),
    ensures
        queue::drawn_from(future) == old(reader).receiver(),
        future@ matches Ok(packet) ==> queue::taken(final(reader).receiver()) == queue::taken(
            old(reader).receiver(),
        ).push(packet@),
        future@ is Err ==> {
            &&& queue::taken(final(reader).receiver()) == queue::taken(old(reader).receiver())
            &&& queue::drained(final(reader).receiver())
        },
        final(reader).channel() == old(reader).channel(),
        queue::same_receiving_end(old(reader).receiver(), final(reader).receiver()),
        queue::in_order(final(reader).receiver()),
{
}

/// A write without waiting succeeds exactly if its packet, whole and unchanged, went into the
/// queue. It fails as not ready only if the queue can be full, and as closed only if the queue takes
/// no more packets.
pub proof fn try_write_succeeds_exactly_if_queued(
    writer: &mut L2capChannelWriter,
    packet: &[u8],
    result: Result<(), Error>,
)
    requires
        call_ensures(L2capChannelWriter::try_write, (writer, packet), result),
    ensures
        result is Ok <==> queue::sent(final(writer).sender()) == queue::sent(
            old(writer).sender(),
        ).push(packet@),
        result is Err <==> queue::sent(final(writer).sender()) == queue::sent(old(writer).sender()),
        result matches Err(e) ==> {
            &&& e matches Error::Message { kind, message }
            &&& {
                ||| {
                    &&& kind == ErrorKind::ConnectionFailed
                    &&& message@ == "channel is closed"@
                    &&& queue::found_closed(final(writer).sender())
                    &&& queue::shut(final(writer).sender())
                }
                ||| {
                    &&& kind == ErrorKind::NotReady
                    &&& message@ == "No buffer space for write"@
                    &&& !queue::found_closed(final(writer).sender())
                    &&& queue::can_be_full(old(writer).sender())
                }
            }
        },
        final(writer).channel() == old(writer).channel(),
        queue::same_sending_end(old(writer).sender(), final(writer).sender()),
        queue::within_room(final(writer).sender()),
{
    let before = queue::sent(old(writer).sender());
    assert(before.push(packet@).len() == before.len() + 1);
}

/// The first packets, as many as the queue has room for, are never refused for want of room.
pub proof fn first_writes_are_not_refused_as_full(
    writer: &mut L2capChannelWriter,
    packet: &[u8],
    result: Result<(), Error>,
    write_loop: WriteLoop,
)
    requires
        call_ensures(L2capChannelWriter::try_write, (writer, packet), result),
        queue::ends_of_queue(old(writer).sender(), write_loop.receiver(), 16),
        queue::sent(old(writer).sender()).len() < 16,
    ensures
        result matches Err(e) ==> {
            &&& e matches Error::Message { kind, message }
            &&& kind == ErrorKind::ConnectionFailed
        },
{
}

/// What the queue answered without waiting decides the result of a write.
pub proof fn queue_answer_decides_the_try_write(
    sent: Result<(), TrySendError>,
    result: Result<(), Error>,
)
    requires
        call_ensures(L2capChannelWriter::try_write_sent, (sent,), result),
    ensures
        result is Ok <==> sent is Ok,
        result matches Err(e) ==> {
            &&& e matches Error::Message { kind, message }
            &&& kind == ErrorKind::ConnectionFailed <==> (sent matches Err(TrySendError::Closed(_)))
            &&& kind == ErrorKind::NotReady <==> (sent matches Err(TrySendError::Full(_)))
            &&& (sent matches Err(TrySendError::Closed(_))) ==> message@ == "channel is closed"@
            &&& (sent matches Err(TrySendError::Full(_))) ==> message@ == "No buffer space for write"@
        },
{
}

/// What came of waiting for room decides the result of a write.
pub proof fn queue_answer_decides_the_write(
    writer: &mut L2capChannelWriter,
    sent: Result<(), SendError<Vec<u8>>>,
    result: Result<(), Error>,
)
    requires
        call_ensures(L2capChannelWriter::write, (writer, sent), result),
    ensures
        result is Ok <==> sent is Ok,
        result matches Err(e) ==> {
            &&& e matches Error::Message { kind, message }
            &&& kind == ErrorKind::ConnectionFailed
            &&& message@ == "channel is closed"@
        },
        *final(writer) == *old(writer),
{
}

/// A send carries its packet, whole and unchanged, to the writer's queue; if it is awaited, it
/// succeeds exactly if the packet went in.
pub proof fn awaited_send_puts_its_packet_in(
    writer: &mut L2capChannelWriter,
    packet: &[u8],
    future: async_channel::Send<'_, Vec<u8>>,
)
    requires
        call_ensures(L2capChannelWriter::send, (writer, packet), future),
    ensures
        queue::carried(future) == packet@,
        queue::carrier(future) == old(writer).sender(),
        future.awaited() ==> (future@ is Ok <==> queue::sent(final(writer).sender()) == queue::sent(
            old(writer).sender(),
        ).push(packet@)),
        future.awaited() ==> (future@ is Err <==> queue::sent(final(writer).sender())
            == queue::sent(old(writer).sender())),
        final(writer).channel() == old(writer).channel(),
        queue::same_sending_end(old(writer).sender(), final(writer).sender()),
{
    let before = queue::sent(old(writer).sender());
    assert(before.push(packet@).len() == before.len() + 1);
}

/// Closing either half, or a closer of the channel, closes the channel's input stream and then its
/// output stream, and does nothing else; this never fails.
pub proof fn closing_a_half_closes_its_channel(
    reader: &mut L2capChannelReader,
    reader_result: Result<Vec<StreamCommand>, Error>,
    writer: &mut L2capChannelWriter,
    writer_result: Result<Vec<StreamCommand>, Error>,
    closer: &L2capCloser,
    closer_commands: Vec<StreamCommand>,
)
    requires
        call_ensures(L2capChannelReader::close, (reader,), reader_result),
        call_ensures(L2capChannelWriter::close, (writer,), writer_result),
        call_ensures(L2capCloser::close, (closer,), closer_commands),
    ensures
        reader_result matches Ok(commands) && commands@.len() == 2 && commands@[0] == (
        StreamCommand::Close { channel: old(reader).channel(), side: StreamSide::Input })
            && commands@[1] == (StreamCommand::Close {
            channel: old(reader).channel(),
            side: StreamSide::Output,
        }),
        writer_result matches Ok(commands) && commands@.len() == 2 && commands@[0] == (
        StreamCommand::Close { channel: old(writer).channel(), side: StreamSide::Input })
            && commands@[1] == (StreamCommand::Close {
            channel: old(writer).channel(),
            side: StreamSide::Output,
        }),
        closer_commands@.len() == 2,
        closer_commands@[0] == (StreamCommand::Close {
            channel: closer.channel(),
            side: StreamSide::Input,
        }),
        closer_commands@[1] == (StreamCommand::Close {
            channel: closer.channel(),
            side: StreamSide::Output,
        }),
        *final(reader) == *old(reader),
        *final(writer) == *old(writer),
{
}

/// A new reader is of its channel, as is its loop; the two share a queue with room for sixteen
/// packets through which nothing has passed. The input stream of the channel is to be opened, and
/// the loop starts with its status.
pub proof fn new_reader_is_of_its_channel(
    channel: CBL2CAPChannel,
    made: (L2capChannelReader, StreamCommand, ReadLoop),
    first: &mut ReadLoop,
    status: NSStreamStatus,
)
    requires
        call_ensures(L2capChannelReader::new, (channel,), made),
        *old(first) == made.2,
    ensures
        made.0.channel() == channel,
        made.2.channel() == channel,
        made.1 == (StreamCommand::Open { channel, side: StreamSide::Input }),
        queue::ends_of_queue(made.2.sender(), made.0.receiver(), 16),
        queue::sent(made.2.sender()).len() == 0,
        queue::taken(made.0.receiver()).len() == 0,
        made.2@.action == ReadAction::AskStatus,
        call_requires(ReadLoop::step, (first, ReadEvent::Status(status))),
{
    made.2.view_is_history();
}

/// A new writer is of its channel, as is its loop; the two share a queue with room for sixteen
/// packets through which nothing has passed. The output stream of the channel is to be opened, and
/// the loop can start.
pub proof fn new_writer_is_of_its_channel(
    channel: CBL2CAPChannel,
    made: (L2capChannelWriter, StreamCommand, WriteLoop),
    first: &mut WriteLoop,
)
    requires
        call_ensures(L2capChannelWriter::new, (channel,), made),
        *old(first) == made.2,
    ensures
        made.0.channel() == channel,
        made.2.channel() == channel,
        made.1 == (StreamCommand::Open { channel, side: StreamSide::Output }),
        queue::ends_of_queue(made.0.sender(), made.2.receiver(), 16),
        queue::sent(made.0.sender()).len() == 0,
        queue::taken(made.2.receiver()).len() == 0,
        call_requires(WriteLoop::step, (first, WriteEvent::Started)),
{
    made.2.view_is_history();
}

/// From the status of a stream that is neither closed nor yet to be opened, and the answer whether
/// it has bytes: it is read exactly if that status was open and it has bytes, and otherwise the loop
/// sleeps for ten milliseconds.
pub proof fn status_and_bytes_lead_to_a_read(
    first: &mut ReadLoop,
    status: NSStreamStatus,
    asked: ReadAction,
    second: &mut ReadLoop,
    available: bool,
    action: ReadAction,
)
    requires
        call_ensures(ReadLoop::step, (first, ReadEvent::Status(status)), asked),
        status.0 != 0,
        status.0 != 6,
        *old(second) == *final(first),
        call_ensures(ReadLoop::step, (second, ReadEvent::Available(available)), action),
    ensures
        available && status.0 == 2 ==> action == (ReadAction::Read { max: 1024 }),
        !(available && status.0 == 2) ==> action == (ReadAction::Sleep { millis: 10 }),
{
}

/// A new half, when it is closed, closes the streams of the channel that it was made for, whatever
/// it has read or written before.
pub proof fn new_halves_close_their_channel(
    channel: CBL2CAPChannel,
    made_reader: (L2capChannelReader, StreamCommand, ReadLoop),
    reader: &mut L2capChannelReader,
    buf: &mut [u8],
    read: Result<usize, Error>,
    read_reader: &mut L2capChannelReader,
    reader_result: Result<Vec<StreamCommand>, Error>,
    made_writer: (L2capChannelWriter, StreamCommand, WriteLoop),
    writer: &mut L2capChannelWriter,
    packet: &[u8],
    wrote: Result<(), Error>,
    wrote_writer: &mut L2capChannelWriter,
    writer_result: Result<Vec<StreamCommand>, Error>,
)
    requires
        call_ensures(L2capChannelReader::new, (channel,), made_reader),
        *old(reader) == made_reader.0,
        call_ensures(L2capChannelReader::try_read, (reader, buf), read),
        *old(read_reader) == *final(reader),
        call_ensures(L2capChannelReader::close, (read_reader,), reader_result),
        call_ensures(L2capChannelWriter::new, (channel,), made_writer),
        *old(writer) == made_writer.0,
        call_ensures(L2capChannelWriter::try_write, (writer, packet), wrote),
        *old(wrote_writer) == *final(writer),
        call_ensures(L2capChannelWriter::close, (wrote_writer,), writer_result),
    ensures
        reader_result matches Ok(commands) && commands@ == seq![
            StreamCommand::Close { channel, side: StreamSide::Input },
            StreamCommand::Close { channel, side: StreamSide::Output },
        ],
        writer_result matches Ok(commands) && commands@ == seq![
            StreamCommand::Close { channel, side: StreamSide::Input },
            StreamCommand::Close { channel, side: StreamSide::Output },
        ],
{
}

/// What goes into a new writer's queue first is what its loop writes first.
pub proof fn first_packet_in_is_the_first_written(
    channel: CBL2CAPChannel,
    made: (L2capChannelWriter, StreamCommand, WriteLoop),
    writer: &mut L2capChannelWriter,
    packet: &[u8],
    write_loop: &mut WriteLoop,
    action: WriteAction,
)
    requires
        call_ensures(L2capChannelWriter::new, (channel,), made),
        *old(writer) == made.0,
        call_ensures(L2capChannelWriter::try_write, (writer, packet), Ok(())),
        *old(write_loop) == made.2,
        call_ensures(WriteLoop::step, (write_loop, WriteEvent::Started), action),
    ensures
        action matches WriteAction::Write(written) && written@ == packet@,
{
    old(write_loop).view_is_history();
    final(write_loop).view_is_history();
    let sent = queue::sent(final(writer).sender());
    let taken = queue::taken(final(write_loop).receiver());
    assert(queue::ends_of_queue(final(writer).sender(), final(write_loop).receiver(), 16));
    if let WriteAction::Write(written) = action {
        assert(queue::agree(sent, taken));
        assert(sent[0] == packet@);
        assert(taken[0] == written@);
    }
}

/// What a new reader's loop reads first from the stream is what the reader takes first.
pub proof fn first_bytes_read_are_the_first_packet(
    channel: CBL2CAPChannel,
    made: (L2capChannelReader, StreamCommand, ReadLoop),
    read_loop: &mut ReadLoop,
    count: isize,
    bytes: &[u8],
    reader: &mut L2capChannelReader,
    buf: &mut [u8],
    n: usize,
)
    requires
        call_ensures(L2capChannelReader::new, (channel,), made),
        queue::same_sending_end(made.2.sender(), old(read_loop).sender()),
        queue::sent(old(read_loop).sender()).len() == 0,
        0 <= count <= bytes@.len(),
        call_ensures(
            ReadLoop::step,
            (read_loop, ReadEvent::Read { count, buf: bytes }),
            ReadAction::AskStatus,
        ),
        *old(reader) == made.0,
        call_ensures(L2capChannelReader::try_read, (reader, buf), Ok(n)),
    ensures
        n == count,
        final(buf)@.subrange(0, n as int) == bytes@.subrange(0, count as int),
{
    packet_read_is_queued_and_polling_goes_on(read_loop, count, bytes, ReadAction::AskStatus);
    let sent = queue::sent(final(read_loop).sender());
    let taken = queue::taken(final(reader).receiver());
    assert(queue::ends_of_queue(made.2.sender(), final(reader).receiver(), 16));
    assert(queue::ends_of_queue(old(read_loop).sender(), final(reader).receiver(), 16));
    assert(queue::ends_of_queue(final(read_loop).sender(), final(reader).receiver(), 16));
    assert(queue::agree(sent, taken));
    assert(sent[0] == bytes@.subrange(0, count as int));
    assert(taken[0] == sent[0]);
    assert(final(buf)@.subrange(0, n as int) =~= taken[0]);
}

/// Every call on a half is admitted, whatever its arguments.
pub proof fn calls_on_the_halves_are_admitted(
    channel: CBL2CAPChannel,
    closer: &L2capCloser,
    reader: &mut L2capChannelReader,
    received: Result<Vec<u8>, RecvError>,
    tried: Result<Vec<u8>, TryRecvError>,
    buf: &mut [u8],
    writer: &mut L2capChannelWriter,
    packet: &[u8],
    sent: Result<(), SendError<Vec<u8>>>,
    answered: Result<(), TrySendError>,
    read_loop: &ReadLoop,
)
    ensures
        call_requires(L2capChannelReader::new, (channel,)),
        call_requires(L2capChannelReader::receive, (reader,)),
        call_requires(L2capChannelReader::read, (reader, received, buf)),
        call_requires(L2capChannelReader::try_read, (reader, buf)),
        call_requires(L2capChannelReader::try_read_received, (tried, buf)),
        call_requires(L2capChannelReader::close, (reader,)),
        call_requires(L2capChannelWriter::new, (channel,)),
        call_requires(L2capChannelWriter::send, (writer, packet)),
        call_requires(L2capChannelWriter::write, (writer, sent)),
        call_requires(L2capChannelWriter::try_write, (writer, packet)),
        call_requires(L2capChannelWriter::try_write_sent, (answered,)),
        call_requires(L2capChannelWriter::close, (writer,)),
        call_requires(L2capCloser::close, (closer,)),
        call_requires(ReadLoop::action, (read_loop,)),
        call_requires(WriteLoop::decide, (received,)),
{
}

/// Every decision on what came of an action is admitted.
pub proof fn decisions_are_admitted(
    status: NSStreamStatus,
    available: bool,
    millis: u64,
    count: isize,
    buf: &[u8],
    queued: bool,
)
    requires
        count <= buf@.len(),
        count <= 1024,
    ensures
        call_requires(ReadLoop::decide, (ReadAction::AskStatus, ReadEvent::Status(status), queued)),
        call_requires(
            ReadLoop::decide,
            (ReadAction::AskAvailable { status }, ReadEvent::Available(available), queued),
        ),
        call_requires(ReadLoop::decide, (ReadAction::Sleep { millis }, ReadEvent::Slept, queued)),
        call_requires(
            ReadLoop::decide,
            (ReadAction::Read { max: 1024 }, ReadEvent::Read { count, buf }, queued),
        ),
{
    assert(count >= 0 ==> buf@.take(count as int).len() == count);
}

} // verus!
