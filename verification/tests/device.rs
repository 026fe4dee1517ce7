use bluest::device::{
    Device, DeviceImpl, NewDevice, Service, ServiceChangedIndications, Services, ServicesChanged,
    ServicesChangedImpl,
};
use bluest::error::{Error, ErrorKind, EventError, NSError};
use bluest::l2cap_channel::{StreamCommand, StreamSide};
use bluest::operations::{
    PendingDiscovery, PendingOpening, PendingRssi, PeripheralCommand, Progress,
};
use bluest::read_loop::ReadAction;
use bluest::types::{
    CBL2CAPChannel, CBPeripheral, CBPeripheralState, CBService, DeviceId, PeripheralDelegate,
    PeripheralEvent, ServiceId, Uuid,
};

const DELEGATE: PeripheralDelegate = PeripheralDelegate { id: 40 };

fn uuid(number: u128) -> Uuid {
    Uuid::from_u128(number)
}

fn service(id: u64, number: u128) -> CBService {
    CBService {
        id: ServiceId(id),
        uuid: uuid(number),
    }
}

fn peripheral(state: CBPeripheralState, services: Option<Vec<CBService>>) -> CBPeripheral {
    CBPeripheral {
        id: 1,
        identifier: uuid(0x0123),
        name: Some("Blinky".to_string()),
        state,
        services,
    }
}

fn device(state: CBPeripheralState, services: Option<Vec<CBService>>) -> DeviceImpl {
    Device::with_delegate(peripheral(state, services), DELEGATE).0
}

fn connected(services: Option<Vec<CBService>>) -> DeviceImpl {
    device(CBPeripheralState::Connected, services)
}

const UNCONNECTED: [CBPeripheralState; 3] = [
    CBPeripheralState::Disconnected,
    CBPeripheralState::Connecting,
    CBPeripheralState::Disconnecting,
];

fn report() -> NSError {
    NSError {
        domain: "CBErrorDomain".to_string(),
        code: 6,
        description: "timed out".to_string(),
    }
}

fn not_ready() -> Error {
    Error::Message {
        kind: ErrorKind::NotReady,
        message: "no services have been discovered".to_string(),
    }
}

fn lost(reported: Option<NSError>) -> Error {
    Error::Attributed {
        kind: ErrorKind::NotConnected,
        reported,
    }
}

fn lagged() -> EventError {
    EventError {
        description: "overflowed".to_string(),
    }
}

fn all_services() -> PeripheralCommand {
    PeripheralCommand::DiscoverServices { uuids: None }
}

fn pending_discovery() -> PendingDiscovery {
    connected(None).discover_services().unwrap().ask().1
}

fn pending_opening() -> PendingOpening {
    connected(None).open_l2cap_channel(0x80, false).unwrap().ask().1
}

#[test]
fn a_peripheral_with_a_delegate_keeps_it() {
    let made = Device::new(peripheral(CBPeripheralState::Connected, None), Some(DELEGATE));
    match made {
        NewDevice::Ready(device) => assert_eq!(device.0.delegate, DELEGATE),
        NewDevice::NeedsDelegate(_) => panic!("it has a delegate"),
    }
}

#[test]
fn a_peripheral_without_a_delegate_needs_one() {
    match Device::new(peripheral(CBPeripheralState::Connected, None), None) {
        NewDevice::Ready(_) => panic!("it has no delegate"),
        NewDevice::NeedsDelegate(p) => assert_eq!(p.id, 1),
    }
}

#[test]
fn devices_are_equal_by_their_peripheral() {
    let a = connected(None);
    let mut b = device(CBPeripheralState::Disconnected, Some(vec![service(1, 2)]));
    b.peripheral.name = None;
    b.delegate = PeripheralDelegate { id: 41 };
    assert!(a == b);
    assert_eq!(a.hash_key(), b.hash_key());
    assert!(a == a.clone());
    b.peripheral.id = 2;
    assert!(a != b);
    assert_eq!(b.hash_key(), 2);
}

#[test]
fn a_clone_is_the_same_device_as_it_was_seen() {
    let a = connected(Some(vec![service(1, 10), service(2, 20)]));
    let b = a.clone();
    assert!(a == b);
    assert_eq!(b.delegate, a.delegate);
    assert_eq!(b.name(), a.name());
    assert_eq!(b.id(), a.id());
    assert_eq!(b.is_connected(), a.is_connected());
    assert_eq!(b.services_inner(), a.services_inner());
    assert_eq!(connected(None).clone().peripheral.services, None);
}

#[test]
fn names() {
    let mut d = connected(None);
    assert_eq!(d.name(), Ok("Blinky".to_string()));
    assert_eq!(d.name_async(), Ok("Blinky".to_string()));
    assert_eq!(d.display(), "Blinky");
    d.peripheral.name = None;
    assert_eq!(d.name(), Err(Error::Kind(ErrorKind::NotFound)));
    assert_eq!(d.name_async(), Err(Error::Kind(ErrorKind::NotFound)));
    assert_eq!(d.display(), "(Unknown)");
}

#[test]
fn identifier() {
    assert_eq!(connected(None).id(), DeviceId(uuid(0x0123)));
    assert_eq!(connected(None).id().0.as_u128(), 0x0123);
}

#[test]
fn connection_state() {
    assert!(connected(None).is_connected());
    for state in UNCONNECTED {
        assert!(!device(state, None).is_connected());
    }
}

#[test]
fn pairing() {
    let d = connected(None);
    assert_eq!(d.is_paired(), Err(Error::Kind(ErrorKind::NotSupported)));
    assert_eq!(d.pair(), Ok(()));
    assert_eq!(d.pair_with_agent(&"agent"), Ok(()));
    assert_eq!(d.unpair(), Err(Error::Kind(ErrorKind::NotSupported)));
}

#[test]
fn requests_without_a_connection() {
    for state in UNCONNECTED {
        let d = device(state, None);
        let refused = Error::Kind(ErrorKind::NotConnected);
        assert_eq!(d.discover_services().unwrap_err(), refused);
        assert_eq!(d.discover_services_with_uuid(uuid(1)).unwrap_err(), refused);
        assert_eq!(d.services().unwrap_err(), refused);
        assert_eq!(d.service_changed_indications().unwrap_err(), refused);
        assert_eq!(d.open_l2cap_channel(1, true).unwrap_err(), refused);
        // The signal strength is asked for all the same.
        let answer = PeripheralEvent::ReadRssi {
            rssi: -3,
            error: None,
        };
        assert!(matches!(
            d.rssi().1.on_event(Ok(answer)),
            Progress::Settled(Ok(-3))
        ));
    }
}

#[test]
fn services_that_are_known() {
    let d = connected(Some(vec![service(1, 10), service(2, 20)]));
    let expected = vec![
        Service::new(service(1, 10), DELEGATE),
        Service::new(service(2, 20), DELEGATE),
    ];
    assert_eq!(d.services_inner(), Ok(expected.clone()));
    match d.services() {
        Ok(Services::Known(known)) => assert_eq!(known, expected),
        other => panic!("{:?}", other),
    }
    // They are known without a connection too.
    let d = device(CBPeripheralState::Disconnected, Some(vec![]));
    assert!(matches!(d.services(), Ok(Services::Known(known)) if known.is_empty()));
}

#[test]
fn services_that_are_not_known() {
    let d = connected(None);
    assert_eq!(d.services_inner(), Err(not_ready()));
    match d.services() {
        Ok(Services::Discover(discovery)) => assert_eq!(discovery.ask().0, all_services()),
        other => panic!("{:?}", other),
    }
}

#[test]
fn discovery_of_all_services() {
    let (command, pending) = connected(None).discover_services().unwrap().ask();
    assert_eq!(command, all_services());
    let pending = match pending.on_event(Ok(PeripheralEvent::Other)) {
        Progress::Waiting(pending) => pending,
        other => panic!("{:?}", other),
    };
    let answer = PeripheralEvent::DiscoveredServices { error: None };
    let discovered = match pending.on_event(Ok(answer)) {
        Progress::Settled(Ok(discovered)) => discovered,
        other => panic!("{:?}", other),
    };
    let after = connected(Some(vec![service(1, 10), service(2, 20)]));
    assert_eq!(discovered.finish(&after), after.services_inner());
}

#[test]
fn discovery_by_uuid() {
    let wanted = uuid(10);
    let (command, pending) = connected(None)
        .discover_services_with_uuid(wanted)
        .unwrap()
        .ask();
    assert_eq!(
        command,
        PeripheralCommand::DiscoverServices {
            uuids: Some(vec![wanted])
        }
    );
    let answer = PeripheralEvent::DiscoveredServices { error: None };
    let discovered = match pending.on_event(Ok(answer)) {
        Progress::Settled(Ok(discovered)) => discovered,
        other => panic!("{:?}", other),
    };
    let after = connected(Some(vec![
        service(1, 10),
        service(2, 20),
        service(3, 10),
        service(4, 30),
    ]));
    let found = discovered.finish(&after).unwrap();
    assert_eq!(
        found,
        vec![
            Service::new(service(1, 10), DELEGATE),
            Service::new(service(3, 10), DELEGATE),
        ]
    );
    assert!(found.iter().all(|s| s.uuid() == wanted));
}

#[test]
fn discovery_that_leaves_no_services() {
    let answer = PeripheralEvent::DiscoveredServices { error: None };
    match pending_discovery().on_event(Ok(answer)) {
        Progress::Settled(Ok(discovered)) => {
            assert_eq!(discovered.finish(&connected(None)), Err(not_ready()))
        }
        other => panic!("{:?}", other),
    }
}

#[test]
fn discovery_that_fails() {
    let failed = PeripheralEvent::DiscoveredServices {
        error: Some(report()),
    };
    match pending_discovery().on_event(Ok(failed)) {
        Progress::Settled(Err(e)) => assert_eq!(e, Error::Platform(report())),
        other => panic!("{:?}", other),
    }
    match pending_discovery().on_event(Ok(PeripheralEvent::Disconnected { error: None })) {
        Progress::Settled(Err(e)) => assert_eq!(e, lost(None)),
        other => panic!("{:?}", other),
    }
    match pending_discovery().on_event(Err(lagged())) {
        Progress::Settled(Err(e)) => assert_eq!(e, Error::Events(lagged())),
        other => panic!("{:?}", other),
    }
}

#[test]
fn discovery_ignores_the_answers_to_other_requests() {
    let mut pending = pending_discovery();
    let events = vec![
        PeripheralEvent::ReadRssi {
            rssi: 1,
            error: Some(report()),
        },
        PeripheralEvent::ServicesChanged {
            invalidated_services: vec![],
        },
        PeripheralEvent::L2CAPChannelOpened {
            channel: CBL2CAPChannel { id: 1 },
            error: None,
        },
    ];
    for event in events {
        pending = match pending.on_event(Ok(event)) {
            Progress::Waiting(pending) => pending,
            other => panic!("{:?}", other),
        };
    }
}

#[test]
fn signal_strength() {
    let (command, pending) = connected(None).rssi();
    assert_eq!(command, PeripheralCommand::ReadRssi);
    let mut pending: PendingRssi = pending;
    // Not even the end of the connection settles a reading.
    let events = vec![
        PeripheralEvent::Disconnected {
            error: Some(report()),
        },
        PeripheralEvent::DiscoveredServices { error: None },
        PeripheralEvent::Other,
    ];
    for event in events {
        pending = match pending.on_event(Ok(event)) {
            Progress::Waiting(pending) => pending,
            other => panic!("{:?}", other),
        };
    }
    let answer = PeripheralEvent::ReadRssi {
        rssi: -70,
        error: None,
    };
    assert!(matches!(
        pending.on_event(Ok(answer)),
        Progress::Settled(Ok(-70))
    ));
}

#[test]
fn signal_strength_that_fails() {
    let failed = PeripheralEvent::ReadRssi {
        rssi: -70,
        error: Some(report()),
    };
    match connected(None).rssi().1.on_event(Ok(failed)) {
        Progress::Settled(Err(e)) => assert_eq!(e, Error::Platform(report())),
        other => panic!("{:?}", other),
    }
    match connected(None).rssi().1.on_event(Err(lagged())) {
        Progress::Settled(Err(e)) => assert_eq!(e, Error::Events(lagged())),
        other => panic!("{:?}", other),
    }
}

#[test]
fn opening_of_a_channel() {
    let (command, pending) = connected(None)
        .open_l2cap_channel(0x25, true)
        .unwrap()
        .ask();
    assert_eq!(command, PeripheralCommand::OpenL2capChannel { psm: 0x25 });
    let pending = match pending.on_event(Ok(PeripheralEvent::Other)) {
        Progress::Waiting(pending) => pending,
        Progress::Settled(_) => panic!("nothing has been answered"),
    };
    let channel = CBL2CAPChannel { id: 12 };
    let answer = PeripheralEvent::L2CAPChannelOpened {
        channel,
        error: None,
    };
    let mut halves = match pending.on_event(Ok(answer)) {
        Progress::Settled(Ok(halves)) => halves,
        _ => panic!("the channel is open"),
    };
    let input = StreamSide::Input;
    let output = StreamSide::Output;
    assert_eq!(halves.channel, channel);
    assert_eq!(
        halves.open_input,
        StreamCommand::Open {
            channel,
            side: input
        }
    );
    assert_eq!(
        halves.open_output,
        StreamCommand::Open {
            channel,
            side: output
        }
    );
    assert_eq!(halves.read_loop.action(), ReadAction::AskStatus);
    assert_eq!(halves.reader.close(), halves.writer.close());
    // What is written does not come back to the reader.
    assert_eq!(halves.writer.try_write(&[1]), Ok(()));
    assert!(halves.reader.try_read(&mut [0u8; 4]).is_err());
}

#[test]
fn opening_that_fails() {
    let failed = PeripheralEvent::L2CAPChannelOpened {
        channel: CBL2CAPChannel { id: 12 },
        error: Some(report()),
    };
    match pending_opening().on_event(Ok(failed)) {
        Progress::Settled(Err(e)) => assert_eq!(e, Error::Platform(report())),
        _ => panic!("the platform reported a failure"),
    }
    let disconnected = PeripheralEvent::Disconnected {
        error: Some(report()),
    };
    match pending_opening().on_event(Ok(disconnected)) {
        Progress::Settled(Err(e)) => assert_eq!(e, lost(Some(report()))),
        _ => panic!("the connection ended"),
    }
    match pending_opening().on_event(Err(lagged())) {
        Progress::Settled(Err(e)) => assert_eq!(e, Error::Events(lagged())),
        _ => panic!("events were lost"),
    }
}

#[test]
fn indications_of_changed_services() {
    let indications: ServiceChangedIndications =
        connected(None).service_changed_indications().unwrap();
    let events = vec![
        PeripheralEvent::Other,
        PeripheralEvent::ServicesChanged {
            invalidated_services: vec![ServiceId(5)],
        },
        PeripheralEvent::Disconnected { error: None },
        PeripheralEvent::DiscoveredServices { error: None },
        PeripheralEvent::ServicesChanged {
            invalidated_services: vec![],
        },
    ];
    let mut items = Vec::new();
    for event in events {
        if let Some(item) = indications.on_event(event) {
            items.push(item);
        }
    }
    assert_eq!(
        items,
        vec![
            Ok(ServicesChanged(ServicesChangedImpl(vec![ServiceId(5)]))),
            Err(lost(None)),
            Ok(ServicesChanged(ServicesChangedImpl(vec![]))),
        ]
    );
}

#[test]
fn invalidated_services() {
    let changed = ServicesChangedImpl(vec![ServiceId(5), ServiceId(7)]);
    assert!(changed.was_invalidated(&Service::new(service(5, 1), DELEGATE)));
    assert!(changed.was_invalidated(&Service::new(service(7, 1), DELEGATE)));
    // Another service with the same identifier is another service.
    assert!(!changed.was_invalidated(&Service::new(service(6, 1), DELEGATE)));
    let none = ServicesChangedImpl(vec![]);
    assert!(!none.was_invalidated(&Service::new(service(5, 1), DELEGATE)));
}
