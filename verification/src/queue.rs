//! The bounded packet queues between a channel half and the loop that serves its stream.
//!
//! A queue is an `async_channel` channel of byte vectors with one sending and one receiving end,
//! neither of which is ever cloned. Its ends live on two threads, so what it holds at a given
//! moment is nobody's to state. What each end has done is: `sent` is the history of a sending end,
//! `taken` that of a receiving end.
use async_channel::{Receiver, RecvError, SendError, Sender};
use vstd::future::FutureAdditionalSpecFns;
use vstd::prelude::*;

verus! {

/// `async_channel::Sender`, the sending end of a queue.
#[verifier::external_type_specification]
#[verifier::external_body]
#[verifier::reject_recursive_types(T)]
pub struct ExSender<T>(async_channel::Sender<T>);

/// `async_channel::Receiver`, the receiving end of a queue.
#[verifier::external_type_specification]
#[verifier::external_body]
#[verifier::reject_recursive_types(T)]
pub struct ExReceiver<T>(async_channel::Receiver<T>);

/// `async_channel::Send`, a send that can be awaited.
#[verifier::external_type_specification]
#[verifier::external_body]
#[verifier::reject_recursive_types(T)]
pub struct ExSend<'a, T>(async_channel::Send<'a, T>);

/// `async_channel::Recv`, a receive that can be awaited.
#[verifier::external_type_specification]
#[verifier::external_body]
#[verifier::reject_recursive_types(T)]
pub struct ExRecv<'a, T>(async_channel::Recv<'a, T>);

/// `async_channel::SendError`: the queue is closed.
#[verifier::external_type_specification]
#[verifier::external_body]
#[verifier::reject_recursive_types(T)]
pub struct ExSendError<T>(async_channel::SendError<T>);

/// `async_channel::RecvError`: the queue is empty and closed.
#[verifier::external_type_specification]
#[verifier::external_body]
pub struct ExRecvError(async_channel::RecvError);

/// The packets that have gone into the queue through this end so far, oldest first.
pub uninterp spec fn sent(sender: Sender<Vec<u8>>) -> Seq<Seq<u8>>;

/// The packets that have come out of the queue through this end so far, oldest first.
pub uninterp spec fn taken(receiver: Receiver<Vec<u8>>) -> Seq<Seq<u8>>;

/// Whether the two are the ends, each at some moment of its life, of one queue that `bounded`
/// below made with room for `room` packets.
pub uninterp spec fn ends_of_queue(
    sender: Sender<Vec<u8>>,
    receiver: Receiver<Vec<u8>>,
    room: nat,
) -> bool;

/// The packet that a send puts into the queue when it is awaited.
pub uninterp spec fn carried(future: async_channel::Send<'_, Vec<u8>>) -> Seq<u8>;

/// The end, as it was when the send began, through which a send puts its packet into the queue.
pub uninterp spec fn carrier(future: async_channel::Send<'_, Vec<u8>>) -> Sender<Vec<u8>>;

/// The end, as it was when the receive began, from which a receive takes its packet.
pub uninterp spec fn drawn_from(future: async_channel::Recv<'_, Vec<u8>>) -> Receiver<Vec<u8>>;

/// Whether this end has been told that the queue is closed.
pub uninterp spec fn found_closed(sender: Sender<Vec<u8>>) -> bool;

/// Whether this end has been told that the queue is empty and closed.
pub uninterp spec fn found_ended(receiver: Receiver<Vec<u8>>) -> bool;

/// Whether two moments of a sending end are moments of the same end.
pub open spec fn same_sending_end(a: Sender<Vec<u8>>, b: Sender<Vec<u8>>) -> bool {
    forall|r: Receiver<Vec<u8>>, room: nat| #[trigger]
        ends_of_queue(a, r, room) == ends_of_queue(b, r, room)
}

/// Whether two moments of a receiving end are moments of the same end.
pub open spec fn same_receiving_end(a: Receiver<Vec<u8>>, b: Receiver<Vec<u8>>) -> bool {
    forall|s: Sender<Vec<u8>>, room: nat| #[trigger]
        ends_of_queue(s, a, room) == ends_of_queue(s, b, room)
}

/// Whether two histories agree as far as both of them go.
pub open spec fn agree(a: Seq<Seq<u8>>, b: Seq<Seq<u8>>) -> bool {
    forall|i: int| #![trigger a[i]] #![trigger b[i]] 0 <= i < a.len() && i < b.len() ==> a[i] == b[i]
}

/// Whether all that has come out of this end had gone into its queue: at some moment of the other
/// end its history is at least as long.
pub open spec fn went_in(receiver: Receiver<Vec<u8>>, room: nat) -> bool {
    exists|s: Sender<Vec<u8>>| #[trigger]
        ends_of_queue(s, receiver, room) && taken(receiver).len() <= sent(s).len()
}

/// Whether packets come out of this end as they went into the queue: in the same order, none left
/// out, none changed, none made up. At whatever moment the other end is looked at, the two
/// histories agree as far as both of them go.
pub open spec fn in_order(receiver: Receiver<Vec<u8>>) -> bool {
    forall|s: Sender<Vec<u8>>, room: nat| #[trigger]
        ends_of_queue(s, receiver, room) ==> agree(sent(s), taken(receiver)) && went_in(
            receiver,
            room,
        )
}

/// Whether all that ever goes into the queue has come out of this end: at no moment of the other
/// end is its history longer.
pub open spec fn drained(receiver: Receiver<Vec<u8>>) -> bool {
    forall|s: Sender<Vec<u8>>, room: nat| #[trigger]
        ends_of_queue(s, receiver, room) ==> sent(s).len() <= taken(receiver).len()
}

/// Whether all that ever goes into the queue has gone in through this end: at no moment of it is
/// its history longer.
pub open spec fn shut(sender: Sender<Vec<u8>>) -> bool {
    forall|s: Sender<Vec<u8>>, r: Receiver<Vec<u8>>, room: nat|
        #![trigger ends_of_queue(sender, r, room), ends_of_queue(s, r, room)]
        ends_of_queue(sender, r, room) && ends_of_queue(s, r, room) ==> sent(s).len() <= sent(
            sender,
        ).len()
}

/// Whether all but `room` of the packets that have gone in come out: at some moment of the other
/// end no more than that are left.
pub open spec fn fits(sender: Sender<Vec<u8>>, room: nat) -> bool {
    exists|r: Receiver<Vec<u8>>| #[trigger]
        ends_of_queue(sender, r, room) && sent(sender).len() <= taken(r).len() + room
}

/// Whether no more packets wait in the queue of this end than it has room for.
pub open spec fn within_room(sender: Sender<Vec<u8>>) -> bool {
    forall|r: Receiver<Vec<u8>>, room: nat| #[trigger]
        ends_of_queue(sender, r, room) ==> fits(sender, room)
}

/// Whether so many packets have gone in through this end that its queue can be full.
pub open spec fn can_be_full(sender: Sender<Vec<u8>>) -> bool {
    forall|r: Receiver<Vec<u8>>, room: nat| #[trigger]
        ends_of_queue(sender, r, room) ==> room <= sent(sender).len()
}

/// Why a packet could not be put into a queue at once; the packet comes back.
#[derive(Debug, PartialEq, Eq)]
pub enum TrySendError {
    /// The queue is full but not closed.
    Full(Vec<u8>),
    /// The queue is closed.
    Closed(Vec<u8>),
}

/// Why no packet could be taken out of a queue at once.
#[derive(Clone, Copy, Debug, PartialEq, Eq)]
pub enum TryRecvError {
    /// The queue is empty but not closed.
    Empty,
    /// The queue is empty and closed.
    Closed,
}

/// `async_channel::bounded`: makes one queue with room for `room` packets and hands out its two
/// ends. The queue is open and nothing has passed through its ends yet. It panics on a room of zero.
#[verifier::external_body]
pub(crate) fn bounded(room: usize) -> (ends: (Sender<Vec<u8>>, Receiver<Vec<u8>>))
    requires
        room > 0,
    ensures
        ends_of_queue(ends.0, ends.1, room as nat),
        sent(ends.0) == Seq::<Seq<u8>>::empty(),
        taken(ends.1) == Seq::<Seq<u8>>::empty(),
        !found_closed(ends.0),
        !found_ended(ends.1),
{
    async_channel::bounded(room)
}

/// `async_channel::Sender::try_send`: puts the packet into the queue, or hands it back because
/// the queue is closed or full. Which of the three happens depends on the other end. A closed queue
/// stays closed and takes no more packets. The queue is full only if it holds as many packets as it
/// has room for, and never holds more.
#[verifier::external_body]
pub(crate) fn try_send(sender: &mut Sender<Vec<u8>>, packet: Vec<u8>) -> (result: Result<
    (),
    TrySendError,
>)
    ensures
        same_sending_end(*old(sender), *final(sender)),
        within_room(*final(sender)),
        found_closed(*old(sender)) ==> result matches Err(TrySendError::Closed(_)),
        found_closed(*final(sender)) == (result matches Err(TrySendError::Closed(_))),
        match result {
            Ok(()) => sent(*final(sender)) == sent(*old(sender)).push(packet@),
            Err(TrySendError::Full(p)) => {
                &&& p@ == packet@
                &&& sent(*final(sender)) == sent(*old(sender))
                &&& can_be_full(*old(sender))
            },
            Err(TrySendError::Closed(p)) => {
                &&& p@ == packet@
                &&& sent(*final(sender)) == sent(*old(sender))
                &&& shut(*final(sender))
            },
        },
{
    match sender.try_send(packet) {
        Ok(()) => Ok(()),
        Err(async_channel::TrySendError::Full(p)) => Err(TrySendError::Full(p)),
        Err(async_channel::TrySendError::Closed(p)) => Err(TrySendError::Closed(p)),
    }
}

/// `async_channel::Sender::send_blocking`: waits for room and puts the packet into the queue, or
/// fails because the queue is closed, which depends on the other end. A closed queue stays closed
/// and takes no more packets, and no queue holds more packets than it has room for.
#[verifier::external_body]
pub(crate) fn send_blocking(sender: &mut Sender<Vec<u8>>, packet: Vec<u8>) -> (result: Result<
    (),
    SendError<Vec<u8>>,
>)
    ensures
        same_sending_end(*old(sender), *final(sender)),
        within_room(*final(sender)),
        found_closed(*old(sender)) ==> result is Err,
        found_closed(*final(sender)) == result is Err,
        match result {
            Ok(()) => sent(*final(sender)) == sent(*old(sender)).push(packet@),
            Err(_) => sent(*final(sender)) == sent(*old(sender)) && shut(*final(sender)),
        },
{
    sender.send_blocking(packet)
}

/// `async_channel::Receiver::try_recv`: takes the next packet out of the queue, or reports that
/// it is empty, or empty and closed. What comes depends on the other end. Packets come in the order
/// in which they went in. The queue is empty and closed only once all that went in has come out,
/// and then stays so.
#[verifier::external_body]
pub(crate) fn try_recv(receiver: &mut Receiver<Vec<u8>>) -> (result: Result<Vec<u8>, TryRecvError>)
    ensures
        same_receiving_end(*old(receiver), *final(receiver)),
        in_order(*final(receiver)),
        found_ended(*old(receiver)) ==> result matches Err(TryRecvError::Closed),
        found_ended(*final(receiver)) == (result matches Err(TryRecvError::Closed)),
        match result {
            Ok(p) => taken(*final(receiver)) == taken(*old(receiver)).push(p@),
            Err(TryRecvError::Empty) => taken(*final(receiver)) == taken(*old(receiver)),
            Err(TryRecvError::Closed) => {
                &&& taken(*final(receiver)) == taken(*old(receiver))
                &&& drained(*final(receiver))
            },
        },
{
    match receiver.try_recv() {
        Ok(p) => Ok(p),
        Err(async_channel::TryRecvError::Empty) => Err(TryRecvError::Empty),
        Err(async_channel::TryRecvError::Closed) => Err(TryRecvError::Closed),
    }
}

/// `async_channel::Receiver::recv_blocking`: waits for the next packet and takes it out of the
/// queue, or reports that the queue is empty and closed. What comes depends on the other end.
/// Packets come in the order in which they went in. The queue is empty and closed only once all
/// that went in has come out, and then stays so.
#[verifier::external_body]
pub(crate) fn recv_blocking(receiver: &mut Receiver<Vec<u8>>) -> (result: Result<
    Vec<u8>,
    RecvError,
>)
    ensures
        same_receiving_end(*old(receiver), *final(receiver)),
        in_order(*final(receiver)),
        found_ended(*old(receiver)) ==> result is Err,
        found_ended(*final(receiver)) == result is Err,
        match result {
            Ok(p) => taken(*final(receiver)) == taken(*old(receiver)).push(p@),
            Err(_) => taken(*final(receiver)) == taken(*old(receiver)) && drained(*final(receiver)),
        },
{
    receiver.recv_blocking()
}

/// `async_channel::Sender::send`: a future that, when it is awaited, waits for room and puts this
/// packet into the queue through this end, or fails because the queue is closed. By the time the
/// future is gone the packet has gone into the queue once or not at all, and nothing else has; if
/// it was awaited, what that gave tells which. Nothing goes into a queue that this end had found
/// closed. No queue holds more packets than it has room for.
#[verifier::external_body]
pub(crate) fn send<'a>(sender: &'a mut Sender<Vec<u8>>, packet: Vec<u8>) -> (future:
    async_channel::Send<'a, Vec<u8>>)
    ensures
        carried(future) == packet@,
        carrier(future) == *old(sender),
        same_sending_end(*old(sender), *final(sender)),
        within_room(*final(sender)),
        sent(*final(sender)) == sent(*old(sender)) || sent(*final(sender)) == sent(
            *old(sender),
        ).push(packet@),
        found_closed(*old(sender)) ==> found_closed(*final(sender)) && sent(*final(sender)) == sent(
            *old(sender),
        ),
        future.awaited() ==> match future@ {
            Ok(()) => sent(*final(sender)) == sent(*old(sender)).push(packet@),
            Err(_) => {
                &&& sent(*final(sender)) == sent(*old(sender))
                &&& found_closed(*final(sender))
                &&& shut(*final(sender))
            },
        },
{
    sender.send(packet)
}

/// `async_channel::Receiver::recv`: a future that, when it is awaited, waits for the next packet
/// and takes it out of the queue through this end, or reports that the queue is empty and closed.
/// If the future was awaited, which uses it up, exactly the packet that this gave has come out of
/// the queue. How much has come out otherwise is not said: a future that is pinned and polled by
/// hand takes another packet each time it is polled after it has given one. Nothing comes out of a
/// queue that this end had found empty and closed. Packets come in the order in which they went in.
#[verifier::external_body]
pub(crate) fn recv<'a>(receiver: &'a mut Receiver<Vec<u8>>) -> (future: async_channel::Recv<
    'a,
    Vec<u8>,
>)
    ensures
        drawn_from(future) == *old(receiver),
        same_receiving_end(*old(receiver), *final(receiver)),
        in_order(*final(receiver)),
        taken(*old(receiver)).is_prefix_of(taken(*final(receiver))),
        found_ended(*old(receiver)) ==> found_ended(*final(receiver)) && taken(*final(receiver))
            == taken(*old(receiver)),
        future.awaited() ==> match future@ {
            Ok(p) => taken(*final(receiver)) == taken(*old(receiver)).push(p@),
            Err(_) => {
                &&& taken(*final(receiver)) == taken(*old(receiver))
                &&& found_ended(*final(receiver))
                &&& drained(*final(receiver))
            },
        },
{
    receiver.recv()
}

} // verus!
