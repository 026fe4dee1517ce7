//! What every call on a device, and on a request to it, gives, told by its arguments and its result
//! alone.
use crate::device::{
    Device, DeviceImpl, NewDevice, Service, ServiceChangedIndications, Services, ServicesChanged,
    ServicesChangedImpl,
};
use crate::error::{Error, ErrorKind, EventError, NSError};
use crate::l2cap_channel::{
    L2capChannelReader, L2capChannelWriter, StreamCommand, StreamSide,
};
use crate::operations::{
    DiscoveredServices, L2capHalves, L2capOpening, PendingDiscovery, PendingOpening, PendingRssi,
    PeripheralCommand, Progress, Received, ServiceDiscovery,
};
use crate::queue;
use crate::read_loop::ReadAction;
use crate::types::{
    CBL2CAPChannel, CBPeripheral, CBPeripheralState, CBService, DeviceId, PeripheralDelegate,
    PeripheralEvent, ServiceId, Uuid,
};
use vstd::prelude::*;
use vstd::std_specs::cmp::PartialEqSpec;

verus! {

/// Whether `found` are the elements of `all` at the positions `at`, which go up: a subsequence.
pub open spec fn picked(found: Seq<Service>, all: Seq<CBService>, at: Seq<int>) -> bool {
    &&& at.len() == found.len()
    &&& forall|i: int|
        0 <= i < at.len() ==> 0 <= #[trigger] at[i] < all.len() && found[i].inner == all[at[i]]
    &&& forall|i: int, j: int| 0 <= i < j < at.len() ==> #[trigger] at[i] < #[trigger] at[j]
}

/// The filtered services are a subsequence at the positions of the wanted ones.
proof fn filter_picks(all: Seq<CBService>, delegate: PeripheralDelegate, uuid: Uuid) -> (at: Seq<
    int,
>)
    ensures
        picked(
            all.map_values(|inner: CBService| Service { inner, delegate }).filter(
                |s: Service| s.inner.uuid == uuid,
            ),
            all,
            at,
        ),
        forall|j: int| 0 <= j < all.len() && (#[trigger] all[j]).uuid == uuid ==> at.contains(j),
        forall|i: int| 0 <= i < at.len() ==> all[#[trigger] at[i]].uuid == uuid,
    decreases all.len(),
{
    reveal(Seq::filter);
    let make = |inner: CBService| Service { inner, delegate };
    let has_uuid = |s: Service| s.inner.uuid == uuid;
    let mapped = all.map_values(make);
    if all.len() == 0 {
        Seq::empty()
    } else {
        let earlier = filter_picks(all.drop_last(), delegate, uuid);
        assert(mapped.drop_last() == all.drop_last().map_values(make));
        assert(forall|j: int| 0 <= j < all.len() - 1 ==> all[j] == all.drop_last()[j]);
        if all.last().uuid == uuid {
            let at = earlier.push(all.len() - 1);
            let found = mapped.filter(has_uuid);
            assert(found == mapped.drop_last().filter(has_uuid).push(mapped.last()));
            assert forall|i: int| 0 <= i < at.len() implies 0 <= #[trigger] at[i] < all.len()
                && found[i].inner == all[at[i]] && all[at[i]].uuid == uuid by {
                if i < earlier.len() {
                    assert(at[i] == earlier[i]);
                    assert(all[at[i]] == all.drop_last()[earlier[i]]);
                }
            }
            assert forall|j: int| 0 <= j < all.len() && (#[trigger] all[j]).uuid
                == uuid implies at.contains(j) by {
                if j < all.len() - 1 {
                    assert(all.drop_last()[j].uuid == uuid);
                    let k = choose|k: int| 0 <= k < earlier.len() && earlier[k] == j;
                    assert(at[k] == j);
                } else {
                    assert(at[earlier.len() as int] == j);
                }
            }
            at
        } else {
            assert forall|i: int| 0 <= i < earlier.len() implies all[#[trigger] earlier[i]].uuid
                == uuid by {
                assert(all[earlier[i]] == all.drop_last()[earlier[i]]);
            }
            assert forall|j: int| 0 <= j < all.len() && (#[trigger] all[j]).uuid
                == uuid implies earlier.contains(j) by {
                assert(all.drop_last()[j].uuid == uuid);
            }
            earlier
        }
    }
}

/// The number of times that a value occurs in a sequence does not change by mapping one for one,
/// and is kept or lost as a whole by filtering.
proof fn filter_counts(
    all: Seq<CBService>,
    delegate: PeripheralDelegate,
    uuid: Uuid,
    service: CBService,
)
    ensures
        all.map_values(|inner: CBService| Service { inner, delegate }).filter(
            |s: Service| s.inner.uuid == uuid,
        ).to_multiset().count(Service { inner: service, delegate }) == if service.uuid == uuid {
            all.to_multiset().count(service)
        } else {
            0
        },
    decreases all.len(),
{
    reveal(Seq::filter);
    let make = |inner: CBService| Service { inner, delegate };
    let has_uuid = |s: Service| s.inner.uuid == uuid;
    let mapped = all.map_values(make);
    broadcast use vstd::seq_lib::group_to_multiset_ensures;

    if all.len() > 0 {
        filter_counts(all.drop_last(), delegate, uuid, service);
        assert(mapped.drop_last() == all.drop_last().map_values(make));
        assert(all == all.drop_last().push(all.last()));
        let rest = mapped.drop_last().filter(has_uuid);
        if has_uuid(mapped.last()) {
            assert(mapped.filter(has_uuid) == rest.push(mapped.last()));
        } else {
            assert(mapped.filter(has_uuid) == rest);
        }
    }
}

/// A discovery by identifier, followed from the device through the peripheral's answer to the list
/// that it ends with. The peripheral is asked for exactly the wanted identifier. The list is the
/// subsequence of the device's services that have it: the same order, each as often as the device
/// shows it and no other, so never longer than what the device shows.
pub proof fn discovery_by_uuid_lists_each_match_once(
    device: &DeviceImpl,
    uuid: Uuid,
    discovery: ServiceDiscovery,
    asked: (PeripheralCommand, PendingDiscovery),
    progress: Progress<PendingDiscovery, DiscoveredServices>,
    discovered: DiscoveredServices,
    after: &DeviceImpl,
    services: Vec<CBService>,
    result: Result<Vec<Service>, Error>,
)
    requires
        call_ensures(DeviceImpl::discover_services_with_uuid, (device, uuid), Ok(discovery)),
        call_ensures(ServiceDiscovery::ask, (discovery,), asked),
        call_ensures(
            PendingDiscovery::on_event,
            (asked.1, Ok(PeripheralEvent::DiscoveredServices { error: None })),
            progress,
        ),
        progress == Progress::<PendingDiscovery, DiscoveredServices>::Settled(Ok(discovered)),
        call_ensures(DiscoveredServices::finish, (discovered, after), result),
        after.peripheral.services == Some(services),
    ensures
        asked.0 matches PeripheralCommand::DiscoverServices { uuids } && uuids matches Some(v)
            && v@.len() == 1 && v@[0] == uuid,
        result matches Ok(found) && {
            &&& found@.len() <= services@.len()
            &&& forall|i: int|
                0 <= i < found@.len() ==> (#[trigger] found@[i]).inner.uuid == uuid
                    && found@[i].delegate == after.delegate
            &&& exists|at: Seq<int>| #[trigger]
                picked(found@, services@, at) && forall|j: int|
                    0 <= j < services@.len() && (#[trigger] services@[j]).uuid == uuid
                        ==> at.contains(j)
            &&& forall|service: CBService| #[trigger]
                found@.to_multiset().count(Service { inner: service, delegate: after.delegate })
                    == if service.uuid == uuid {
                    services@.to_multiset().count(service)
                } else {
                    0
                }
        },
{
    let all = services@;
    let delegate = after.delegate;
    let mapped = all.map_values(|inner: CBService| Service { inner, delegate });
    let has_uuid = |s: Service| s.inner.uuid == uuid;
    let found = result->Ok_0@;
    assert(found == mapped.filter(has_uuid));
    let at = filter_picks(all, delegate, uuid);
    mapped.lemma_filter_len(has_uuid);
    assert(picked(found, all, at));
    assert forall|i: int| 0 <= i < found.len() implies (#[trigger] found[i]).inner.uuid == uuid
        && found[i].delegate == delegate by {
        mapped.lemma_filter_pred(has_uuid, i);
        mapped.lemma_filter_contains_rev(has_uuid, found[i]);
    }
    assert forall|service: CBService| #[trigger]
        found.to_multiset().count(Service { inner: service, delegate }) == if service.uuid == uuid {
            all.to_multiset().count(service)
        } else {
            0
        } by {
        filter_counts(all, delegate, uuid, service);
    }
}

/// A discovery of all services, followed in the same way, asks for no identifier and lists what the
/// device shows, one for one.
pub proof fn discovery_of_all_lists_everything(
    device: &DeviceImpl,
    discovery: ServiceDiscovery,
    asked: (PeripheralCommand, PendingDiscovery),
    progress: Progress<PendingDiscovery, DiscoveredServices>,
    discovered: DiscoveredServices,
    after: &DeviceImpl,
    services: Vec<CBService>,
    result: Result<Vec<Service>, Error>,
)
    requires
        call_ensures(DeviceImpl::discover_services, (device,), Ok(discovery)),
        call_ensures(ServiceDiscovery::ask, (discovery,), asked),
        call_ensures(
            PendingDiscovery::on_event,
            (asked.1, Ok(PeripheralEvent::DiscoveredServices { error: None })),
            progress,
        ),
        progress == Progress::<PendingDiscovery, DiscoveredServices>::Settled(Ok(discovered)),
        call_ensures(DiscoveredServices::finish, (discovered, after), result),
        after.peripheral.services == Some(services),
    ensures
        asked.0 matches PeripheralCommand::DiscoverServices { uuids } && uuids is None,
        result matches Ok(found) && {
            &&& found@.len() == services@.len()
            &&& forall|i: int|
                0 <= i < found@.len() ==> (#[trigger] found@[i]).inner == services@[i]
                    && found@[i].delegate == after.delegate
        },
{
}

/// A discovery after which the device shows no services fails as not ready.
pub proof fn discovery_without_services_is_not_ready(
    discovered: DiscoveredServices,
    after: &DeviceImpl,
    result: Result<Vec<Service>, Error>,
)
    requires
        call_ensures(DiscoveredServices::finish, (discovered, after), result),
        after.peripheral.services is None,
    ensures
        result matches Err(e) && e matches Error::Message { kind, message } && kind
            == ErrorKind::NotReady && message@ == "no services have been discovered"@,
{
}

/// A discovery succeeds exactly on the answer without an error. It fails on the answer with one, on
/// the end of the connection and on the end of the events, each with what was reported, and goes on
/// waiting, unchanged, on everything else.
pub proof fn events_of_a_discovery(
    pending: PendingDiscovery,
    received: Received,
    progress: Progress<PendingDiscovery, DiscoveredServices>,
)
    requires
        call_ensures(PendingDiscovery::on_event, (pending, received), progress),
    ensures
        (progress matches Progress::Settled(Ok(_))) <==> (received matches Ok(
            PeripheralEvent::DiscoveredServices { error: None },
        )),
        progress is Waiting <==> (received matches Ok(event) && !(event is DiscoveredServices)
            && !(event is Disconnected)),
        progress matches Progress::Waiting(still) ==> still == pending,
        progress matches Progress::Settled(Err(e)) ==> match received {
            Err(cause) => e == Error::Events(cause),
            Ok(PeripheralEvent::DiscoveredServices { error: Some(reported) }) => e
                == Error::Platform(reported),
            Ok(PeripheralEvent::Disconnected { error }) => e == (Error::Attributed {
                kind: ErrorKind::NotConnected,
                reported: error,
            }),
            _ => false,
        },
{
}

/// A reading of the signal strength gives the strength of the answer without an error, unchanged.
/// It fails on the answer with one and on the end of the events, each with what was reported, and
/// goes on waiting on everything else, the end of the connection included.
pub proof fn events_of_a_signal_strength(
    pending: PendingRssi,
    received: Received,
    progress: Progress<PendingRssi, i16>,
)
    requires
        call_ensures(PendingRssi::on_event, (pending, received), progress),
    ensures
        (progress matches Progress::Settled(Ok(_))) <==> (received matches Ok(
            PeripheralEvent::ReadRssi { rssi: _, error: None },
        )),
        progress matches Progress::Settled(Ok(strength)) ==> (received matches Ok(
            PeripheralEvent::ReadRssi { rssi, error: _ },
        ) && strength == rssi),
        progress is Waiting <==> (received matches Ok(event) && !(event is ReadRssi)),
        progress matches Progress::Settled(Err(e)) ==> match received {
            Err(cause) => e == Error::Events(cause),
            Ok(PeripheralEvent::ReadRssi { rssi: _, error: Some(reported) }) => e
                == Error::Platform(reported),
            _ => false,
        },
{
}

/// An opening succeeds exactly on the answer without an error, and then with new halves of the very
/// channel that the answer told of: its streams are those to be opened, and its loops serve it. It
/// fails on the answer with an error, on the end of the connection and on the end of the events,
/// each with what was reported, and goes on waiting on everything else.
pub proof fn events_of_an_opening(
    pending: PendingOpening,
    received: Received,
    progress: Progress<PendingOpening, L2capHalves>,
)
    requires
        call_ensures(PendingOpening::on_event, (pending, received), progress),
    ensures
        (progress matches Progress::Settled(Ok(_))) <==> (received matches Ok(
            PeripheralEvent::L2CAPChannelOpened { channel: _, error: None },
        )),
        progress matches Progress::Settled(Ok(halves)) ==> (received matches Ok(
            PeripheralEvent::L2CAPChannelOpened { channel, error: _ },
        ) && {
            &&& halves.channel == channel
            &&& halves.are_new_on(channel)
            &&& halves.reader.channel() == channel
            &&& halves.writer.channel() == channel
            &&& halves.read_loop.channel() == channel
            &&& halves.write_loop.channel() == channel
            &&& halves.open_input == (StreamCommand::Open { channel, side: StreamSide::Input })
            &&& halves.open_output == (StreamCommand::Open { channel, side: StreamSide::Output })
            &&& halves.read_loop@.action == ReadAction::AskStatus
            &&& queue::ends_of_queue(halves.read_loop.sender(), halves.reader.receiver(), 16)
            &&& queue::ends_of_queue(halves.writer.sender(), halves.write_loop.receiver(), 16)
        }),
        progress is Waiting <==> (received matches Ok(event) && !(event is L2CAPChannelOpened)
            && !(event is Disconnected)),
        progress matches Progress::Settled(Err(e)) ==> match received {
            Err(cause) => e == Error::Events(cause),
            Ok(PeripheralEvent::L2CAPChannelOpened { channel: _, error: Some(reported) }) => e
                == Error::Platform(reported),
            Ok(PeripheralEvent::Disconnected { error }) => e == (Error::Attributed {
                kind: ErrorKind::NotConnected,
                reported: error,
            }),
            _ => false,
        },
{
}

/// The halves of a channel are of that channel, each on a queue of its own with room for sixteen
/// packets.
pub proof fn halves_are_of_their_channel(channel: CBL2CAPChannel, halves: L2capHalves)
    requires
        call_ensures(L2capHalves::new, (channel,), halves),
    ensures
        halves.channel == channel,
        halves.reader.channel() == channel,
        halves.writer.channel() == channel,
        halves.read_loop.channel() == channel,
        halves.write_loop.channel() == channel,
        halves.open_input == (StreamCommand::Open { channel, side: StreamSide::Input }),
        halves.open_output == (StreamCommand::Open { channel, side: StreamSide::Output }),
        queue::ends_of_queue(halves.read_loop.sender(), halves.reader.receiver(), 16),
        queue::ends_of_queue(halves.writer.sender(), halves.write_loop.receiver(), 16),
{
}

/// Opening a channel asks the peripheral for exactly the multiplexer that was given, secure or not.
pub proof fn opening_asks_for_its_psm(
    device: &DeviceImpl,
    psm: u16,
    secure: bool,
    opening: L2capOpening,
    asked: (PeripheralCommand, PendingOpening),
)
    requires
        call_ensures(DeviceImpl::open_l2cap_channel, (device, psm, secure), Ok(opening)),
        call_ensures(L2capOpening::ask, (opening,), asked),
    ensures
        asked.0 == (PeripheralCommand::OpenL2capChannel { psm }),
{
}

/// Discovering, watching for changes and opening a channel are begun exactly if the device is
/// connected, and otherwise refused as not connected. The signal strength is asked for in any case.
pub proof fn requests_need_a_connection(
    device: &DeviceImpl,
    uuid: Uuid,
    psm: u16,
    secure: bool,
    connected: bool,
    all: Result<ServiceDiscovery, Error>,
    some: Result<ServiceDiscovery, Error>,
    indications: Result<ServiceChangedIndications, Error>,
    opening: Result<L2capOpening, Error>,
    reading: (PeripheralCommand, PendingRssi),
)
    requires
        call_ensures(DeviceImpl::is_connected, (device,), connected),
        call_ensures(DeviceImpl::discover_services, (device,), all),
        call_ensures(DeviceImpl::discover_services_with_uuid, (device, uuid), some),
        call_ensures(DeviceImpl::service_changed_indications, (device,), indications),
        call_ensures(DeviceImpl::open_l2cap_channel, (device, psm, secure), opening),
        call_ensures(DeviceImpl::rssi, (device,), reading),
    ensures
        connected <==> device.peripheral.state == CBPeripheralState::Connected,
        all is Ok <==> connected,
        some is Ok <==> connected,
        indications is Ok <==> connected,
        opening is Ok <==> connected,
        all matches Err(e) ==> e == Error::Kind(ErrorKind::NotConnected),
        some matches Err(e) ==> e == Error::Kind(ErrorKind::NotConnected),
        indications matches Err(e) ==> e == Error::Kind(ErrorKind::NotConnected),
        opening matches Err(e) ==> e == Error::Kind(ErrorKind::NotConnected),
        reading.0 == PeripheralCommand::ReadRssi,
{
}

/// Services that the device shows are known, one for one and in order, connected or not; only
/// without any is a discovery begun, of all services, and that exactly if the device is connected.
pub proof fn known_services_need_no_discovery(
    device: &DeviceImpl,
    result: Result<Services, Error>,
    inner: Result<Vec<Service>, Error>,
)
    requires
        call_ensures(DeviceImpl::services, (device,), result),
        call_ensures(DeviceImpl::services_inner, (device,), inner),
    ensures
        (result matches Ok(Services::Known(_))) <==> device.peripheral.services is Some,
        inner is Ok <==> device.peripheral.services is Some,
        result matches Ok(Services::Known(known)) ==> {
            let shown = device.peripheral.services->Some_0@;
            &&& known@.len() == shown.len()
            &&& forall|i: int|
                0 <= i < shown.len() ==> (#[trigger] known@[i]).inner == shown[i]
                    && known@[i].delegate == device.delegate
            &&& inner matches Ok(same) && same@ == known@
        },
        (result matches Ok(Services::Discover(_))) <==> device.peripheral.services is None
            && device.peripheral.state == CBPeripheralState::Connected,
        result matches Err(e) ==> e == Error::Kind(ErrorKind::NotConnected),
        inner matches Err(e) ==> (e matches Error::Message { kind, message } && kind
            == ErrorKind::NotReady && message@ == "no services have been discovered"@),
{
}

/// The discovery that is begun for want of known services asks for all of them.
pub proof fn unknown_services_are_all_asked_for(
    device: &DeviceImpl,
    discovery: ServiceDiscovery,
    asked: (PeripheralCommand, PendingDiscovery),
)
    requires
        call_ensures(DeviceImpl::services, (device,), Ok(Services::Discover(discovery))),
        call_ensures(ServiceDiscovery::ask, (discovery,), asked),
    ensures
        asked.0 matches PeripheralCommand::DiscoverServices { uuids } && uuids is None,
{
}

/// An event is indicated exactly if it tells of changed services, with all of them, or of the end of
/// the connection, with what was reported of it.
pub proof fn indications_tell_of_changes_and_disconnection(
    indications: &ServiceChangedIndications,
    event: PeripheralEvent,
    item: Option<Result<ServicesChanged, Error>>,
)
    requires
        call_ensures(ServiceChangedIndications::on_event, (indications, event), item),
    ensures
        item is Some <==> event is ServicesChanged || event is Disconnected,
        (item matches Some(Ok(_))) <==> event is ServicesChanged,
        item matches Some(Ok(changed)) ==> changed.0.0@ == event->invalidated_services@,
        item matches Some(Err(e)) ==> (event matches PeripheralEvent::Disconnected { error } && e
            == (Error::Attributed { kind: ErrorKind::NotConnected, reported: error })),
{
}

/// A service was invalidated exactly if it is one of the services that were reported, whatever its
/// identifier and delegate.
pub proof fn invalidated_services_are_those_reported(
    changed: &ServicesChangedImpl,
    service: &Service,
    invalidated: bool,
)
    requires
        call_ensures(ServicesChangedImpl::was_invalidated, (changed, service), invalidated),
    ensures
        invalidated <==> exists|i: int|
            0 <= i < changed.0@.len() && #[trigger] changed.0@[i] == service.inner.id,
{
}

/// A service that a change reported is invalidated by it, and one that it did not report is not.
pub proof fn change_invalidates_what_it_reports(
    indications: &ServiceChangedIndications,
    reported: Vec<ServiceId>,
    item: Option<Result<ServicesChanged, Error>>,
    changed: &ServicesChangedImpl,
    service: &Service,
    invalidated: bool,
)
    requires
        call_ensures(
            ServiceChangedIndications::on_event,
            (indications, PeripheralEvent::ServicesChanged { invalidated_services: reported }),
            item,
        ),
        item == Some(Ok::<ServicesChanged, Error>(ServicesChanged(*changed))),
        call_ensures(ServicesChangedImpl::was_invalidated, (changed, service), invalidated),
    ensures
        invalidated <==> reported@.contains(service.inner.id),
{
}

/// The name of a device is what its peripheral shows, asked either way and displayed; without one it
/// is not found, and displayed as unknown.
pub proof fn name_is_what_the_peripheral_shows(
    device: &DeviceImpl,
    name: Result<String, Error>,
    later: Result<String, Error>,
    text: String,
)
    requires
        call_ensures(DeviceImpl::name, (device,), name),
        call_ensures(DeviceImpl::name_async, (device,), later),
        call_ensures(DeviceImpl::display, (device,), text),
    ensures
        name is Ok <==> device.peripheral.name is Some,
        name matches Ok(n) ==> n@ == device.peripheral.name->Some_0@ && text@ == n@,
        name matches Err(e) ==> e == Error::Kind(ErrorKind::NotFound) && text@ == "(Unknown)"@,
        later == name,
{
}

/// The identifier of a device is that of its peripheral, and two devices are equal, and feed a
/// hasher the same, exactly if their peripherals are the same object.
pub proof fn identity_is_that_of_the_peripheral(
    a: &DeviceImpl,
    b: &DeviceImpl,
    id: DeviceId,
    a_key: u64,
    b_key: u64,
    equal: bool,
    same: bool,
)
    requires
        call_ensures(DeviceImpl::id, (a,), id),
        call_ensures(DeviceImpl::hash_key, (a,), a_key),
        call_ensures(DeviceImpl::hash_key, (b,), b_key),
        call_ensures(DeviceImpl::eq, (a, b), equal),
        call_ensures(CBPeripheral::eq, (&a.peripheral, &b.peripheral), same),
    ensures
        id == DeviceId(a.peripheral.identifier),
        a_key == a.peripheral.id,
        a_key == b_key <==> a.peripheral.id == b.peripheral.id,
        a.eq_spec(b) <==> a.peripheral.id == b.peripheral.id,
        a.peripheral.eq_spec(&b.peripheral) <==> a.peripheral.id == b.peripheral.id,
        equal <==> a.peripheral.id == b.peripheral.id,
        same <==> a.peripheral.id == b.peripheral.id,
{
}

/// A clone is the same device with the same delegate, and looks the same.
pub proof fn clone_is_the_same_device(device: &DeviceImpl, copy: DeviceImpl)
    requires
        call_ensures(DeviceImpl::clone, (device,), copy),
    ensures
        copy.peripheral.id == device.peripheral.id,
        copy.peripheral.identifier == device.peripheral.identifier,
        copy.peripheral.state == device.peripheral.state,
        copy.peripheral.name == device.peripheral.name,
        copy.peripheral.services is Some <==> device.peripheral.services is Some,
        device.peripheral.services matches Some(services) ==> copy.peripheral.services->Some_0@
            == services@,
        copy.delegate == device.delegate,
{
}

/// Pairing does nothing and succeeds, with an agent or without; the pairing status and unpairing are
/// not supported. None of this depends on the device.
pub proof fn pairing_is_left_to_the_system<T>(
    device: &DeviceImpl,
    agent: &T,
    paired: Result<bool, Error>,
    pair: Result<(), Error>,
    with_agent: Result<(), Error>,
    unpair: Result<(), Error>,
)
    requires
        call_ensures(DeviceImpl::is_paired, (device,), paired),
        call_ensures(DeviceImpl::pair, (device,), pair),
        call_ensures(DeviceImpl::pair_with_agent::<T>, (device, agent), with_agent),
        call_ensures(DeviceImpl::unpair, (device,), unpair),
    ensures
        pair is Ok,
        with_agent is Ok,
        paired matches Err(e) && e == Error::Kind(ErrorKind::NotSupported),
        unpair matches Err(e) && e == Error::Kind(ErrorKind::NotSupported),
{
}

/// A device is made of its peripheral with the delegate that the peripheral already reports to; one
/// is asked for exactly if it reports to nobody.
pub proof fn device_keeps_its_delegate(
    peripheral: CBPeripheral,
    attached: Option<PeripheralDelegate>,
    made: NewDevice,
    delegate: PeripheralDelegate,
    device: Device,
)
    requires
        call_ensures(Device::new, (peripheral, attached), made),
        call_ensures(Device::with_delegate, (peripheral, delegate), device),
    ensures
        made is NeedsDelegate <==> attached is None,
        made matches NewDevice::NeedsDelegate(p) ==> p == peripheral,
        made matches NewDevice::Ready(d) ==> d.0.peripheral == peripheral && attached == Some(
            d.0.delegate,
        ),
        device.0.peripheral == peripheral,
        device.0.delegate == delegate,
{
}

/// A service keeps its object, its identifier and its delegate.
pub proof fn service_keeps_its_parts(
    inner: CBService,
    delegate: PeripheralDelegate,
    service: &Service,
    uuid: Uuid,
)
    requires
        call_ensures(Service::new, (inner, delegate), *service),
        call_ensures(Service::uuid, (service,), uuid),
    ensures
        service.inner == inner,
        service.delegate == delegate,
        uuid == inner.uuid,
{
}

/// An identifier keeps its number, and two identifiers are equal exactly if their numbers are.
pub proof fn uuid_keeps_its_number(a: u128, b: u128, x: Uuid, y: Uuid, number: u128)
    requires
        call_ensures(Uuid::from_u128, (a,), x),
        call_ensures(Uuid::from_u128, (b,), y),
        call_ensures(Uuid::as_u128, (&x,), number),
    ensures
        number == a,
        x == y <==> a == b,
{
}

/// An error keeps what it is made of.
pub proof fn error_keeps_its_parts(
    kind: ErrorKind,
    message: String,
    reported: NSError,
    optional: Option<NSError>,
    cause: EventError,
    own: Error,
    platform: Error,
    attributed: Error,
    events: Error,
    plain: Error,
)
    requires
        call_ensures(Error::new, (kind, message), own),
        call_ensures(Error::from_nserror, (reported,), platform),
        call_ensures(Error::from_kind_and_nserror, (kind, optional), attributed),
        call_ensures(Error::from_recv_error, (cause,), events),
        call_ensures(Error::from, (kind,), plain),
    ensures
        own matches Error::Message { kind: k, message: m } && k == kind && m == message,
        platform matches Error::Platform(r) && r == reported,
        attributed matches Error::Attributed { kind: k, reported: r } && k == kind && r == optional,
        events matches Error::Events(c) && c == cause,
        plain matches Error::Kind(k) && k == kind,
{
}

/// The halves of an opened channel, when they are closed, close the streams of the channel that the
/// answer told of.
pub proof fn opened_halves_close_the_opened_channel(
    pending: PendingOpening,
    channel: CBL2CAPChannel,
    halves: L2capHalves,
    reader: &mut L2capChannelReader,
    reader_result: Result<Vec<StreamCommand>, Error>,
    writer: &mut L2capChannelWriter,
    writer_result: Result<Vec<StreamCommand>, Error>,
)
    requires
        call_ensures(
            PendingOpening::on_event,
            (pending, Ok(PeripheralEvent::L2CAPChannelOpened { channel, error: None })),
            Progress::Settled(Ok(halves)),
        ),
        *old(reader) == halves.reader,
        call_ensures(L2capChannelReader::close, (reader,), reader_result),
        *old(writer) == halves.writer,
        call_ensures(L2capChannelWriter::close, (writer,), writer_result),
    ensures
        reader_result matches Ok(commands) && commands@ == seq![
            StreamCommand::Close { channel, side: StreamSide::Input },
            StreamCommand::Close { channel, side: StreamSide::Output },
        ],
        writer_result matches Ok(commands) && commands@ == seq![
            StreamCommand::Close { channel, side: StreamSide::Input },
            StreamCommand::Close { channel, side: StreamSide::Output },
        ],
{
}

/// Every call on a device is admitted, whatever its arguments.
pub proof fn calls_on_a_device_are_admitted<T>(
    device: &DeviceImpl,
    peripheral: CBPeripheral,
    attached: Option<PeripheralDelegate>,
    delegate: PeripheralDelegate,
    agent: &T,
    uuid: Uuid,
    psm: u16,
    secure: bool,
    inner: CBService,
    service: &Service,
    changed: &ServicesChangedImpl,
)
    ensures
        call_requires(Device::new, (peripheral, attached)),
        call_requires(Device::with_delegate, (peripheral, delegate)),
        call_requires(DeviceImpl::clone, (device,)),
        call_requires(DeviceImpl::hash_key, (device,)),
        call_requires(DeviceImpl::display, (device,)),
        call_requires(DeviceImpl::id, (device,)),
        call_requires(DeviceImpl::name, (device,)),
        call_requires(DeviceImpl::name_async, (device,)),
        call_requires(DeviceImpl::is_connected, (device,)),
        call_requires(DeviceImpl::is_paired, (device,)),
        call_requires(DeviceImpl::pair, (device,)),
        call_requires(DeviceImpl::pair_with_agent::<T>, (device, agent)),
        call_requires(DeviceImpl::unpair, (device,)),
        call_requires(DeviceImpl::discover_services, (device,)),
        call_requires(DeviceImpl::discover_services_with_uuid, (device, uuid)),
        call_requires(DeviceImpl::services, (device,)),
        call_requires(DeviceImpl::services_inner, (device,)),
        call_requires(DeviceImpl::service_changed_indications, (device,)),
        call_requires(DeviceImpl::rssi, (device,)),
        call_requires(DeviceImpl::open_l2cap_channel, (device, psm, secure)),
        call_requires(Service::new, (inner, delegate)),
        call_requires(Service::uuid, (service,)),
        call_requires(ServicesChangedImpl::was_invalidated, (changed, service)),
{
}

/// Every call on a request is admitted, whatever its arguments.
pub proof fn calls_on_a_request_are_admitted(
    discovery: ServiceDiscovery,
    pending_discovery: PendingDiscovery,
    discovered: DiscoveredServices,
    device: &DeviceImpl,
    pending_rssi: PendingRssi,
    opening: L2capOpening,
    pending_opening: PendingOpening,
    channel: CBL2CAPChannel,
    received: Received,
    indications: &ServiceChangedIndications,
    event: PeripheralEvent,
)
    ensures
        call_requires(ServiceDiscovery::ask, (discovery,)),
        call_requires(PendingDiscovery::on_event, (pending_discovery, received)),
        call_requires(DiscoveredServices::finish, (discovered, device)),
        call_requires(PendingRssi::on_event, (pending_rssi, received)),
        call_requires(L2capOpening::ask, (opening,)),
        call_requires(PendingOpening::on_event, (pending_opening, received)),
        call_requires(L2capHalves::new, (channel,)),
        call_requires(ServiceChangedIndications::on_event, (indications, event)),
{
}

} // verus!
