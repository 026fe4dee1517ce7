//! What holds of the library as a whole.
use crate::device::{filtered, indication, services_of, DeviceImpl, Service, ServicesChanged};
use crate::error::{Error, ErrorKind, NSError};
use crate::l2cap_channel::{
    close_commands, delivered, read_result, try_read_result, L2capChannelReader, L2capChannelWriter,
    StreamCommand, StreamSide,
};
use crate::operations::{discovery_verdict, opening_verdict, rssi_verdict, Received};
use crate::queue;
use crate::read_loop::{read_step, ReadAction, ReadEventView, ReadLoop, ReadState, READ_SIZE};
use crate::types::{CBL2CAPChannel, CBService, NSStreamStatus, PeripheralDelegate, PeripheralEvent};
use crate::types::{Uuid, STREAM_CLOSED, STREAM_NOT_OPEN, STREAM_OPEN};
use crate::write_loop::{failed, write_step, WriteAction, WriteEvent, WriteLoop, WriteState};
use async_channel::{Receiver, Sender};
use vstd::prelude::*;
use vstd::std_specs::cmp::PartialEqSpec;

verus! {

/// Equality of devices is an equivalence.
pub proof fn device_equality_is_an_equivalence(a: DeviceImpl, b: DeviceImpl, c: DeviceImpl)
    ensures
        a.eq_spec(&a),
        a.eq_spec(&b) == b.eq_spec(&a),
        a.eq_spec(&b) && b.eq_spec(&c) ==> a.eq_spec(&c),
{
}

/// Two looks at one peripheral give equal devices, whatever name, state and services were seen
/// and whatever delegate is attached; looks at two peripherals do not.
pub proof fn device_equality_is_identity(a: DeviceImpl, b: DeviceImpl)
    ensures
        a.eq_spec(&b) <==> a.peripheral.id == b.peripheral.id,
{
}

/// How a request is settled by a sequence of events, where `verdict` tells how it is settled by
/// one: the first event that settles it does.
pub open spec fn settled_by<T>(
    verdict: spec_fn(Received) -> Option<Result<T, Error>>,
    events: Seq<Received>,
) -> Option<Result<T, Error>>
    decreases events.len(),
{
    if events.len() == 0 {
        None
    } else {
        match verdict(events.first()) {
            Some(result) => Some(result),
            None => settled_by(verdict, events.drop_first()),
        }
    }
}

/// A request is pending for exactly as long as no event settles it, however many events come.
pub proof fn pending_until_an_event_settles<T>(
    verdict: spec_fn(Received) -> Option<Result<T, Error>>,
    events: Seq<Received>,
)
    ensures
        settled_by(verdict, events) is None <==> forall|i: int|
            0 <= i < events.len() ==> verdict(#[trigger] events[i]) is None,
    decreases events.len(),
{
    if events.len() > 0 {
        let rest = events.drop_first();
        pending_until_an_event_settles(verdict, rest);
        if verdict(events.first()) is None {
            if settled_by(verdict, rest) is None {
                assert forall|i: int| 0 <= i < events.len() implies verdict(
                    #[trigger] events[i],
                ) is None by {
                    if i > 0 {
                        assert(events[i] == rest[i - 1]);
                    }
                }
            } else {
                let j = choose|j: int|
                    0 <= j < rest.len() && verdict(#[trigger] rest[j]) is Some;
                assert(rest[j] == events[j + 1]);
            }
        } else {
            assert(events[0] == events.first());
        }
    }
}

/// The first event that settles a request decides its result, whatever comes before and after.
pub proof fn first_settling_event_decides<T>(
    verdict: spec_fn(Received) -> Option<Result<T, Error>>,
    events: Seq<Received>,
    k: int,
)
    requires
        0 <= k < events.len(),
        forall|i: int| 0 <= i < k ==> verdict(#[trigger] events[i]) is None,
        verdict(events[k]) is Some,
    ensures
        settled_by(verdict, events) == verdict(events[k]),
    decreases events.len(),
{
    if k > 0 {
        assert(verdict(events[0]) is None);
        let rest = events.drop_first();
        assert forall|i: int| 0 <= i < k - 1 implies verdict(#[trigger] rest[i]) is None by {
            assert(rest[i] == events[i + 1]);
        }
        first_settling_event_decides(verdict, rest, k - 1);
    }
}

/// The end of the connection fails a discovery of services and the opening of a channel, with the
/// platform's report of it. A reading of the signal strength goes on waiting.
pub proof fn disconnection(reported: Option<NSError>)
    ensures
        ({
            let lost = Ok(PeripheralEvent::Disconnected { error: reported });
            let failure = Error::Attributed { kind: ErrorKind::NotConnected, reported };
            &&& discovery_verdict(lost) == Some(Err::<(), Error>(failure))
            &&& opening_verdict(lost) == Some(Err::<CBL2CAPChannel, Error>(failure))
            &&& rssi_verdict(lost) is None
        }),
{
}

/// One request's answer does not settle another kind of request.
pub proof fn answers_settle_their_own_request(event: PeripheralEvent)
    ensures
        event is DiscoveredServices ==> rssi_verdict(Ok(event)) is None && opening_verdict(
            Ok(event),
        ) is None,
        event is ReadRssi ==> discovery_verdict(Ok(event)) is None && opening_verdict(
            Ok(event),
        ) is None,
        event is L2CAPChannelOpened ==> discovery_verdict(Ok(event)) is None && rssi_verdict(
            Ok(event),
        ) is None,
{
}

/// A discovery by identifier finds services of the device with that identifier and no others, and
/// misses none.
pub proof fn found_services_have_the_wanted_uuid(
    services: Seq<CBService>,
    delegate: PeripheralDelegate,
    uuid: Uuid,
)
    ensures
        ({
            let all = services_of(services, delegate);
            let found = filtered(all, Some(uuid));
            &&& forall|i: int|
                0 <= i < found.len() ==> (#[trigger] found[i]).inner.uuid == uuid && all.contains(
                    found[i],
                )
            &&& forall|i: int|
                0 <= i < services.len() && services[i].uuid == uuid ==> found.contains(
                    Service { inner: #[trigger] services[i], delegate },
                )
        }),
{
    let all = services_of(services, delegate);
    let has_uuid = |s: Service| s.inner.uuid == uuid;
    let found = all.filter(has_uuid);
    assert forall|i: int| 0 <= i < found.len() implies (#[trigger] found[i]).inner.uuid == uuid
        && all.contains(found[i]) by {
        all.lemma_filter_pred(has_uuid, i);
        all.lemma_filter_contains_rev(has_uuid, found[i]);
    }
    assert forall|i: int| 0 <= i < services.len() && services[i].uuid == uuid implies found.contains(
        Service { inner: #[trigger] services[i], delegate },
    ) by {
        assert(all[i] == (Service { inner: services[i], delegate }));
        all.lemma_filter_contains(has_uuid, i);
    }
}

/// A discovery of all services finds what asking for the services gives from then on.
pub proof fn discovered_services_are_known(services: Seq<CBService>, delegate: PeripheralDelegate)
    ensures
        filtered(services_of(services, delegate), None) == services_of(services, delegate),
{
}

/// What a sequence of events adds to the indications of changed services.
pub open spec fn indications(events: Seq<PeripheralEvent>) -> Seq<Result<ServicesChanged, Error>> {
    events.filter_map(|event: PeripheralEvent| indication(event))
}

/// Indications come in the order of their events and go on after any event, the end of the
/// connection included.
pub proof fn indications_go_on(earlier: Seq<PeripheralEvent>, later: Seq<PeripheralEvent>)
    ensures
        indications(earlier + later) == indications(earlier) + indications(later),
    decreases later.len(),
{
    if later.len() == 0 {
        assert(earlier + later == earlier);
    } else {
        indications_go_on(earlier, later.drop_last());
        assert((earlier + later).drop_last() == earlier + later.drop_last());
        assert((earlier + later).last() == later.last());
    }
}

/// A packet that is read is at the front of the buffer, byte for byte; the rest of the buffer, and
/// the whole of it after an error, is as it was.
pub proof fn read_keeps_the_rest_of_the_buffer(
    packet: Seq<u8>,
    before: Seq<u8>,
    after: Seq<u8>,
    result: Result<usize, Error>,
)
    requires
        before.len() <= usize::MAX,
        delivered(packet, before, after, result),
    ensures
        after.len() == before.len(),
        result matches Ok(n) ==> {
            &&& n == packet.len()
            &&& after.take(n as int) == packet
            &&& after.skip(n as int) == before.skip(n as int)
        },
        result is Err ==> after == before,
{
    if packet.len() <= before.len() {
        assert(after.take(packet.len() as int) == packet);
        assert(after.skip(packet.len() as int) == before.skip(packet.len() as int));
    }
}

/// A packet is read alike with and without waiting.
pub proof fn waiting_reads_alike(
    packet: Vec<u8>,
    before: Seq<u8>,
    after: Seq<u8>,
    result: Result<usize, Error>,
)
    ensures
        read_result(Ok(packet), before, after, result) == try_read_result(
            Ok(packet),
            before,
            after,
            result,
        ),
{
}

/// A writer's queue is not full, and no write is refused as if it were, before as many packets have
/// gone in as it has room for.
pub proof fn room_for_the_first_packets(
    writer: L2capChannelWriter,
    write_loop: WriteLoop,
    room: nat,
)
    requires
        queue::ends_of_queue(writer.sender(), write_loop.receiver(), room),
        queue::sent(writer.sender()).len() < room,
    ensures
        !queue::can_be_full(writer.sender()),
{
}

/// Closing a channel closes each of its two streams and opens none.
pub proof fn closing_closes_both_streams(channel: CBL2CAPChannel, side: StreamSide)
    ensures
        close_commands(channel).contains(StreamCommand::Close { channel, side }),
        forall|i: int|
            0 <= i < close_commands(channel).len() ==> (#[trigger] close_commands(
                channel,
            )[i]) is Close,
{
    let commands = close_commands(channel);
    assert(commands[0] == (StreamCommand::Close { channel, side: StreamSide::Input }));
    assert(commands[1] == (StreamCommand::Close { channel, side: StreamSide::Output }));
}

/// Whether a read loop passes through `states` when `events` happen to it.
pub open spec fn read_run(states: Seq<ReadState>, events: Seq<ReadEventView>) -> bool {
    &&& states.len() == events.len() + 1
    &&& forall|i: int|
        0 <= i < events.len() ==> read_step(states[i], #[trigger] events[i], states[i + 1])
}

/// A read run without its last step is a read run.
proof fn read_run_without_its_last_step(states: Seq<ReadState>, events: Seq<ReadEventView>)
    requires
        read_run(states, events),
        events.len() > 0,
    ensures
        read_run(states.drop_last(), events.drop_last()),
{
    assert forall|i: int| 0 <= i < events.drop_last().len() implies read_step(
        states.drop_last()[i],
        #[trigger] events.drop_last()[i],
        states.drop_last()[i + 1],
    ) by {
        assert(read_step(states[i], events[i], states[i + 1]));
    }
}

/// What the stream returned in the course of these events, read by read.
pub open spec fn chunks(events: Seq<ReadEventView>) -> Seq<Seq<u8>> {
    events.filter_map(
        |event: ReadEventView|
            match event {
                ReadEventView::Read(bytes) => bytes,
                _ => None,
            },
    )
}

/// A read loop puts into the queue what the stream returned, read by read, in order and unchanged.
/// Only the read that ends the loop can be missing, because the queue refused it.
pub proof fn read_loop_forwards_in_order(states: Seq<ReadState>, events: Seq<ReadEventView>)
    requires
        read_run(states, events),
    ensures
        states.last().action != ReadAction::End ==> states.last().sent == states.first().sent
            + chunks(events),
        states.last().action == ReadAction::End ==> {
            ||| states.last().sent == states.first().sent + chunks(events)
            ||| {
                &&& events.len() > 0
                &&& events.last() matches ReadEventView::Read(Some(_))
                &&& states.last().sent == states.first().sent + chunks(events.drop_last())
            }
        },
    decreases events.len(),
{
    if events.len() > 0 {
        let n = events.len() - 1;
        let earlier_states = states.drop_last();
        let earlier_events = events.drop_last();
        assert(read_step(states[n], events[n], states[n + 1]));
        read_run_without_its_last_step(states, events);
        read_loop_forwards_in_order(earlier_states, earlier_events);
        assert(earlier_states.last() == states[n]);
        assert(states.last() == states[n + 1]);
        if let ReadEventView::Read(Some(bytes)) = events.last() {
            assert(states.first().sent + chunks(earlier_events).push(bytes) == (
            states.first().sent + chunks(earlier_events)).push(bytes));
        }
    }
}

/// Bytes are read only right after the stream was found open with bytes available.
pub proof fn reads_only_from_an_open_stream(
    before: ReadState,
    event: ReadEventView,
    after: ReadState,
)
    requires
        read_step(before, event, after),
        after.action is Read,
    ensures
        before.action == (ReadAction::AskAvailable { status: NSStreamStatus(STREAM_OPEN) }),
        event == ReadEventView::Available(true),
        after.sent == before.sent,
{
}

/// A read loop ends with a stream that is not open or closed, with a read that failed, or with a
/// packet that the queue refused, and with nothing else.
pub proof fn read_loop_ends_for_a_reason(
    before: ReadState,
    event: ReadEventView,
    after: ReadState,
)
    requires
        read_step(before, event, after),
        after.action is End,
    ensures
        after.sent == before.sent,
        match event {
            ReadEventView::Status(status) => status.0 == STREAM_NOT_OPEN || status.0
                == STREAM_CLOSED,
            ReadEventView::Read(_) => true,
            _ => false,
        },
{
}

/// Whether a write loop passes through `states` when `events` happen to it, and wants `actions`
/// done.
pub open spec fn write_run(
    states: Seq<WriteState>,
    events: Seq<WriteEvent>,
    actions: Seq<WriteAction>,
) -> bool {
    &&& states.len() == events.len() + 1
    &&& actions.len() == events.len()
    &&& forall|i: int|
        0 <= i < events.len() ==> write_step(
            states[i],
            #[trigger] events[i],
            states[i + 1],
            actions[i],
        )
}

/// A write run without its last step is a write run.
proof fn write_run_without_its_last_step(
    states: Seq<WriteState>,
    events: Seq<WriteEvent>,
    actions: Seq<WriteAction>,
)
    requires
        write_run(states, events, actions),
        events.len() > 0,
    ensures
        write_run(states.drop_last(), events.drop_last(), actions.drop_last()),
{
    assert forall|i: int| 0 <= i < events.drop_last().len() implies write_step(
        states.drop_last()[i],
        #[trigger] events.drop_last()[i],
        states.drop_last()[i + 1],
        actions.drop_last()[i],
    ) by {
        assert(write_step(states[i], events[i], states[i + 1], actions[i]));
    }
}

/// The packets that these actions write to the stream.
pub open spec fn written(actions: Seq<WriteAction>) -> Seq<Seq<u8>> {
    actions.filter_map(
        |action: WriteAction|
            match action {
                WriteAction::Write(packet) => Some(packet@),
                WriteAction::End => None,
            },
    )
}

/// A write loop writes to the stream every packet that it takes out of the queue, in order, once
/// and unchanged, and nothing else.
pub proof fn write_loop_forwards_in_order(
    states: Seq<WriteState>,
    events: Seq<WriteEvent>,
    actions: Seq<WriteAction>,
)
    requires
        write_run(states, events, actions),
    ensures
        states.last().taken == states.first().taken + written(actions),
    decreases events.len(),
{
    if events.len() > 0 {
        let n = events.len() - 1;
        let earlier_states = states.drop_last();
        let earlier_events = events.drop_last();
        let earlier_actions = actions.drop_last();
        assert(write_step(states[n], events[n], states[n + 1], actions[n]));
        write_run_without_its_last_step(states, events, actions);
        write_loop_forwards_in_order(earlier_states, earlier_events, earlier_actions);
        assert(earlier_states.last() == states[n]);
        assert(states.last() == states[n + 1]);
        if let WriteAction::Write(packet) = actions.last() {
            assert(states.first().taken + written(earlier_actions).push(packet@) == (
            states.first().taken + written(earlier_actions)).push(packet@));
        }
    }
}

/// A write that failed is the last thing that a write loop does.
pub proof fn failed_write_ends_the_loop(
    states: Seq<WriteState>,
    events: Seq<WriteEvent>,
    actions: Seq<WriteAction>,
    i: int,
)
    requires
        write_run(states, events, actions),
        0 <= i < events.len(),
        failed(events[i]),
    ensures
        i == events.len() - 1,
        actions[i] is End,
        states.last().taken == states[i].taken,
{
    assert(write_step(states[i], events[i], states[i + 1], actions[i]));
    if i + 1 < events.len() {
        assert(write_step(states[i + 1], events[i + 1], states[i + 2], actions[i + 1]));
    }
}

/// The reader takes out of its queue what the stream returned, read by read, in order and
/// unchanged: the two agree as far as the loop has come.
pub proof fn reader_gets_the_stream_in_order(
    reader: L2capChannelReader,
    read_loop: ReadLoop,
    room: nat,
    states: Seq<ReadState>,
    events: Seq<ReadEventView>,
)
    requires
        queue::ends_of_queue(read_loop.sender(), reader.receiver(), room),
        queue::in_order(reader.receiver()),
        read_run(states, events),
        states.first().sent == Seq::<Seq<u8>>::empty(),
        states.last() == read_loop@,
    ensures
        forall|i: int|
            0 <= i < queue::taken(reader.receiver()).len() && i < queue::sent(
                read_loop.sender(),
            ).len() ==> i < chunks(events).len() && #[trigger] queue::taken(reader.receiver())[i]
                == chunks(events)[i],
{
    read_loop.view_is_history();
    read_loop_forwards_in_order(states, events);
    assert(Seq::<Seq<u8>>::empty() + chunks(events) == chunks(events));
    if events.len() > 0 {
        let earlier = chunks(events.drop_last());
        assert(Seq::<Seq<u8>>::empty() + earlier == earlier);
        assert(earlier.is_prefix_of(chunks(events)));
    }
    assert(queue::agree(queue::sent(read_loop.sender()), queue::taken(reader.receiver())));
    assert forall|i: int|
        0 <= i < queue::taken(reader.receiver()).len() && i < queue::sent(
            read_loop.sender(),
        ).len() implies i < chunks(events).len() && #[trigger] queue::taken(reader.receiver())[i]
        == chunks(events)[i] by {
        assert(queue::sent(read_loop.sender())[i] == queue::taken(reader.receiver())[i]);
    }
}

/// The stream is written the packets that went into the writer's queue, in order and unchanged:
/// the two agree as far as both have come.
pub proof fn stream_gets_the_packets_in_order(
    writer: L2capChannelWriter,
    write_loop: WriteLoop,
    room: nat,
    states: Seq<WriteState>,
    events: Seq<WriteEvent>,
    actions: Seq<WriteAction>,
)
    requires
        queue::ends_of_queue(writer.sender(), write_loop.receiver(), room),
        queue::in_order(write_loop.receiver()),
        write_run(states, events, actions),
        states.first().taken == Seq::<Seq<u8>>::empty(),
        states.last() == write_loop@,
    ensures
        queue::agree(queue::sent(writer.sender()), written(actions)),
{
    write_loop.view_is_history();
    write_loop_forwards_in_order(states, events, actions);
    assert(Seq::<Seq<u8>>::empty() + written(actions) == written(actions));
}

/// A write loop that ends without a failed write has written all that went into the writer's queue,
/// at whatever moment the writer is looked at: what went in before the writer was gone is not lost.
pub proof fn write_loop_loses_nothing(
    writer: L2capChannelWriter,
    write_loop: WriteLoop,
    room: nat,
    states: Seq<WriteState>,
    events: Seq<WriteEvent>,
    actions: Seq<WriteAction>,
)
    requires
        queue::ends_of_queue(writer.sender(), write_loop.receiver(), room),
        queue::in_order(write_loop.receiver()),
        queue::drained(write_loop.receiver()),
        write_run(states, events, actions),
        states.first().taken == Seq::<Seq<u8>>::empty(),
        states.last() == write_loop@,
    ensures
        queue::sent(writer.sender()).is_prefix_of(written(actions)),
{
    write_loop.view_is_history();
    write_loop_forwards_in_order(states, events, actions);
    assert(Seq::<Seq<u8>>::empty() + written(actions) == written(actions));
    let sent = queue::sent(writer.sender());
    assert(queue::agree(sent, queue::taken(write_loop.receiver())));
    assert(sent =~= written(actions).take(sent.len() as int));
}

/// A reader that is told that the channel is closed has taken all that the read loop put into the
/// queue: what was received before the close is not lost.
pub proof fn closed_reader_has_taken_everything(
    reader: L2capChannelReader,
    read_loop: ReadLoop,
    room: nat,
    states: Seq<ReadState>,
    events: Seq<ReadEventView>,
)
    requires
        queue::ends_of_queue(read_loop.sender(), reader.receiver(), room),
        queue::in_order(reader.receiver()),
        queue::drained(reader.receiver()),
        read_run(states, events),
        states.first().sent == Seq::<Seq<u8>>::empty(),
        states.last() == read_loop@,
    ensures
        queue::sent(read_loop.sender()).is_prefix_of(queue::taken(reader.receiver())),
        states.last().action != ReadAction::End ==> chunks(events).is_prefix_of(
            queue::taken(reader.receiver()),
        ),
{
    read_loop.view_is_history();
    read_loop_forwards_in_order(states, events);
    assert(Seq::<Seq<u8>>::empty() + chunks(events) == chunks(events));
    let sent = queue::sent(read_loop.sender());
    let taken = queue::taken(reader.receiver());
    assert(queue::agree(sent, taken));
    assert(sent =~= taken.take(sent.len() as int));
}

/// Nothing comes out of a queue after its reader has been told that the channel is closed.
pub proof fn closed_reader_takes_nothing_more(
    told: L2capChannelReader,
    later: L2capChannelReader,
    read_loop: ReadLoop,
    room: nat,
)
    requires
        queue::drained(told.receiver()),
        queue::in_order(later.receiver()),
        queue::same_receiving_end(told.receiver(), later.receiver()),
        queue::ends_of_queue(read_loop.sender(), later.receiver(), room),
    ensures
        queue::taken(later.receiver()).len() <= queue::taken(told.receiver()).len(),
{
    assert(queue::went_in(later.receiver(), room));
    let s = choose|s: Sender<Vec<u8>>| #[trigger]
        queue::ends_of_queue(s, later.receiver(), room) && queue::taken(later.receiver()).len()
            <= queue::sent(s).len();
    assert(queue::ends_of_queue(s, told.receiver(), room));
}

/// Nothing goes into a queue after its writer has been told that the channel is closed.
pub proof fn closed_writer_sends_nothing_more(
    told: L2capChannelWriter,
    later: L2capChannelWriter,
    write_loop: WriteLoop,
    room: nat,
)
    requires
        queue::shut(told.sender()),
        queue::same_sending_end(told.sender(), later.sender()),
        queue::ends_of_queue(told.sender(), write_loop.receiver(), room),
    ensures
        queue::sent(later.sender()).len() <= queue::sent(told.sender()).len(),
{
    assert(queue::ends_of_queue(later.sender(), write_loop.receiver(), room));
}

/// What a reader has taken had been put into the queue: at some moment of the other end its history
/// starts with it.
pub proof fn what_comes_out_went_in(reader: L2capChannelReader, read_loop: ReadLoop, room: nat)
    requires
        queue::ends_of_queue(read_loop.sender(), reader.receiver(), room),
        queue::in_order(reader.receiver()),
    ensures
        exists|s: Sender<Vec<u8>>| #[trigger]
            queue::ends_of_queue(s, reader.receiver(), room) && queue::taken(
                reader.receiver(),
            ).is_prefix_of(queue::sent(s)),
{
    assert(queue::went_in(reader.receiver(), room));
    let taken = queue::taken(reader.receiver());
    let s = choose|s: Sender<Vec<u8>>| #[trigger]
        queue::ends_of_queue(s, reader.receiver(), room) && taken.len() <= queue::sent(s).len();
    assert(queue::agree(queue::sent(s), taken));
    assert(taken =~= queue::sent(s).take(taken.len() as int));
}

/// No more packets wait to be written than the queue has room for: of those that have gone in, all
/// but so many come out at some moment of the other end.
pub proof fn waiting_packets_are_bounded(
    writer: L2capChannelWriter,
    write_loop: WriteLoop,
    room: nat,
)
    requires
        queue::ends_of_queue(writer.sender(), write_loop.receiver(), room),
        queue::within_room(writer.sender()),
    ensures
        exists|r: Receiver<Vec<u8>>| #[trigger]
            queue::ends_of_queue(writer.sender(), r, room) && queue::sent(writer.sender()).len()
                <= queue::taken(r).len() + room,
{
    assert(queue::fits(writer.sender(), room));
}

/// From one state of a reader with a packet pending, a read that waits and one that does not take
/// the same packet, the next one that went in, and no other; they leave the same history and the
/// same buffer, and give the same result.
pub proof fn waiting_and_trying_read_alike(
    before: L2capChannelReader,
    read_loop: ReadLoop,
    room: nat,
    buf: Seq<u8>,
    waited: L2capChannelReader,
    waited_packet: Vec<u8>,
    waited_buf: Seq<u8>,
    waited_result: Result<usize, Error>,
    tried: L2capChannelReader,
    tried_buf: Seq<u8>,
    tried_result: Result<usize, Error>,
)
    requires
        queue::ends_of_queue(read_loop.sender(), before.receiver(), room),
        queue::taken(before.receiver()).len() < queue::sent(read_loop.sender()).len(),
        queue::same_receiving_end(before.receiver(), waited.receiver()),
        queue::in_order(waited.receiver()),
        queue::taken(waited.receiver()) == queue::taken(before.receiver()).push(waited_packet@),
        read_result(Ok(waited_packet), buf, waited_buf, waited_result),
        queue::same_receiving_end(before.receiver(), tried.receiver()),
        queue::in_order(tried.receiver()),
        queue::taken(tried.receiver()) == queue::taken(before.receiver()).push(
            queue::taken(tried.receiver()).last(),
        ),
        delivered(queue::taken(tried.receiver()).last(), buf, tried_buf, tried_result),
    ensures
        waited_packet@ == queue::sent(read_loop.sender())[queue::taken(
            before.receiver(),
        ).len() as int],
        queue::taken(waited.receiver()) == queue::taken(tried.receiver()),
        waited_buf == tried_buf,
        match waited_result {
            Ok(n) => tried_result == Ok::<usize, Error>(n),
            Err(e) => {
                &&& e.says(ErrorKind::InvalidParameter, "Buffer is too small"@)
                &&& tried_result matches Err(t)
                &&& t.says(ErrorKind::InvalidParameter, "Buffer is too small"@)
            },
        },
{
    let sent = queue::sent(read_loop.sender());
    let n = queue::taken(before.receiver()).len() as int;
    assert(queue::ends_of_queue(read_loop.sender(), waited.receiver(), room));
    assert(queue::ends_of_queue(read_loop.sender(), tried.receiver(), room));
    assert(queue::agree(sent, queue::taken(waited.receiver())));
    assert(queue::agree(sent, queue::taken(tried.receiver())));
    assert(queue::taken(waited.receiver())[n] == sent[n]);
    assert(queue::taken(tried.receiver())[n] == sent[n]);
}

/// A read loop never reads more than it asks for at a time.
pub proof fn chunks_are_bounded(states: Seq<ReadState>, events: Seq<ReadEventView>)
    requires
        read_run(states, events),
        states.first().action == ReadAction::AskStatus,
    ensures
        forall|i: int| 0 <= i < chunks(events).len() ==> (#[trigger] chunks(events)[i]).len()
            <= READ_SIZE,
        states.last().action matches ReadAction::Read { max } ==> max == READ_SIZE,
    decreases events.len(),
{
    if events.len() > 0 {
        let n = events.len() - 1;
        let earlier_states = states.drop_last();
        let earlier_events = events.drop_last();
        assert(read_step(states[n], events[n], states[n + 1]));
        read_run_without_its_last_step(states, events);
        chunks_are_bounded(earlier_states, earlier_events);
        assert(earlier_states.last() == states[n]);
        assert(states.last() == states[n + 1]);
        assert forall|i: int| 0 <= i < chunks(events).len() implies (#[trigger] chunks(
            events,
        )[i]).len() <= READ_SIZE by {
            if i < chunks(earlier_events).len() {
                assert(chunks(events)[i] == chunks(earlier_events)[i]);
            }
        }
    }
}

/// A read that was given a packet: the reader's history before and after it, the buffer before and
/// after it, and its result.
pub struct PacketRead {
    pub taken_before: Seq<Seq<u8>>,
    pub taken_after: Seq<Seq<u8>>,
    pub buf_before: Seq<u8>,
    pub buf_after: Seq<u8>,
    pub result: Result<usize, Error>,
}

impl PacketRead {
    /// Whether a packet was taken out of the queue and delivered, into a buffer in which any read
    /// from the stream has room.
    pub open spec fn took_one(&self) -> bool {
        &&& self.taken_after == self.taken_before.push(self.taken_after.last())
        &&& delivered(self.taken_after.last(), self.buf_before, self.buf_after, self.result)
        &&& READ_SIZE <= self.buf_before.len() <= usize::MAX
    }
}

/// A read that waits takes one packet, as one that does not: reads of both sorts may stand in a row.
pub proof fn waiting_read_takes_one(
    before: L2capChannelReader,
    after: L2capChannelReader,
    packet: Vec<u8>,
    buf_before: Seq<u8>,
    buf_after: Seq<u8>,
    result: Result<usize, Error>,
)
    requires
        queue::taken(after.receiver()) == queue::taken(before.receiver()).push(packet@),
        read_result(Ok(packet), buf_before, buf_after, result),
        READ_SIZE <= buf_before.len() <= usize::MAX,
    ensures
        (PacketRead {
            taken_before: queue::taken(before.receiver()),
            taken_after: queue::taken(after.receiver()),
            buf_before,
            buf_after,
            result,
        }).took_one(),
{
}

/// Whether these are the reads in a row with which a reader has come, from its start, to the
/// history `taken`.
pub open spec fn reads_in_a_row(reads: Seq<PacketRead>, taken: Seq<Seq<u8>>) -> bool {
    &&& forall|i: int| 0 <= i < reads.len() ==> (#[trigger] reads[i]).took_one()
    &&& forall|i: int, j: int|
        0 <= i && j == i + 1 && j < reads.len() ==> (#[trigger] reads[i]).taken_after == (
        #[trigger] reads[j]).taken_before
    &&& if reads.len() == 0 {
        taken == Seq::<Seq<u8>>::empty()
    } else {
        reads.first().taken_before == Seq::<Seq<u8>>::empty() && reads.last().taken_after == taken
    }
}

/// After reads in a row, the history holds one packet for each of them, in order.
proof fn reads_make_the_history(reads: Seq<PacketRead>, taken: Seq<Seq<u8>>)
    requires
        reads_in_a_row(reads, taken),
    ensures
        taken.len() == reads.len(),
        forall|i: int|
            0 <= i < reads.len() ==> (#[trigger] reads[i]).taken_after.last() == taken[i],
    decreases reads.len(),
{
    if reads.len() > 0 {
        let earlier = reads.drop_last();
        let last = reads.last();
        assert(reads[reads.len() - 1].took_one());
        assert forall|i: int| 0 <= i < earlier.len() implies (#[trigger] earlier[i]).took_one() by {
            assert(reads[i].took_one());
        }
        assert forall|i: int, j: int| 0 <= i && j == i + 1 && j < earlier.len() implies (
        #[trigger] earlier[i]).taken_after == (#[trigger] earlier[j]).taken_before by {
            assert(reads[i].taken_after == reads[j].taken_before);
        }
        if earlier.len() > 0 {
            assert(reads[reads.len() - 2].taken_after == reads[reads.len() - 1].taken_before);
        }
        reads_make_the_history(earlier, last.taken_before);
        assert forall|i: int| 0 <= i < reads.len() implies (#[trigger] reads[i]).taken_after.last()
            == taken[i] by {
            if i < earlier.len() {
                assert(earlier[i].taken_after.last() == last.taken_before[i]);
                assert(taken[i] == last.taken_before[i]);
            }
        }
    }
}

/// Reads in a row give what the stream returned, one read of the stream each: in order, none lost,
/// repeated, merged or split, and none refused for want of room in the buffer.
pub proof fn reads_give_the_chunks(
    reader: L2capChannelReader,
    reads: Seq<PacketRead>,
    read_loop: ReadLoop,
    room: nat,
    states: Seq<ReadState>,
    events: Seq<ReadEventView>,
)
    requires
        reads_in_a_row(reads, queue::taken(reader.receiver())),
        queue::ends_of_queue(read_loop.sender(), reader.receiver(), room),
        queue::in_order(reader.receiver()),
        read_run(states, events),
        states.first() == (ReadState { action: ReadAction::AskStatus, sent: Seq::empty() }),
        states.last() == read_loop@,
    ensures
        forall|i: int|
            0 <= i < reads.len() && i < queue::sent(read_loop.sender()).len() ==> {
                &&& i < chunks(events).len()
                &&& (#[trigger] reads[i]).result == Ok::<usize, Error>(
                    chunks(events)[i].len() as usize,
                )
                &&& reads[i].buf_after == chunks(events)[i] + reads[i].buf_before.skip(
                    chunks(events)[i].len() as int,
                )
            },
{
    reads_make_the_history(reads, queue::taken(reader.receiver()));
    reader_gets_the_stream_in_order(reader, read_loop, room, states, events);
    chunks_are_bounded(states, events);
    assert forall|i: int| 0 <= i < reads.len() && i < queue::sent(read_loop.sender()).len() implies {
        &&& i < chunks(events).len()
        &&& (#[trigger] reads[i]).result == Ok::<usize, Error>(chunks(events)[i].len() as usize)
        &&& reads[i].buf_after == chunks(events)[i] + reads[i].buf_before.skip(
            chunks(events)[i].len() as int,
        )
    } by {
        assert(reads[i].took_one());
        assert(queue::taken(reader.receiver())[i] == chunks(events)[i]);
        assert(chunks(events)[i].len() <= READ_SIZE);
    }
}

} // verus!
