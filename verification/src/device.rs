//! A Bluetooth LE device.
use crate::error::{Error, ErrorKind};
use crate::operations::{L2capOpening, PendingRssi, PeripheralCommand, ServiceDiscovery};
use crate::types::{
    CBPeripheral, CBPeripheralState, CBService, DeviceId, PeripheralDelegate, PeripheralEvent, ServiceId,
    Uuid,
};
use vstd::prelude::*;
use vstd::std_specs::cmp::PartialEqSpec;

verus! {

/// A service of a device, with the delegate that hears of the device's events.
#[derive(Clone, Copy, Debug, PartialEq, Eq, Hash, Structural)]
pub struct Service {
    pub inner: CBService,
    pub delegate: PeripheralDelegate,
}

impl Service {
    /// The service that the platform shows as `inner`.
    pub fn new(inner: CBService, delegate: PeripheralDelegate) -> (service: Service)
        ensures
            service == (Service { inner, delegate }),
    {
        Service { inner, delegate }
    }

    /// The identifier of the service.
    pub fn uuid(&self) -> (uuid: Uuid)
        ensures
            uuid == self.inner.uuid,
    {
        self.inner.uuid
    }
}

/// The services of a device, in the order in which the platform shows them.
pub open spec fn services_of(services: Seq<CBService>, delegate: PeripheralDelegate) -> Seq<
    Service,
> {
    services.map_values(|inner: CBService| Service { inner, delegate })
}

/// Of these services, those with the identifier `wanted`, in the same order; all of them if no
/// identifier is wanted.
pub open spec fn filtered(services: Seq<Service>, wanted: Option<Uuid>) -> Seq<Service> {
    match wanted {
        Some(uuid) => services.filter(|s: Service| s.inner.uuid == uuid),
        None => services,
    }
}

/// Of these services, those with the identifier `uuid`, in the same order.
pub(crate) fn with_uuid(services: Vec<Service>, uuid: Uuid) -> (found: Vec<Service>)
    ensures
        found@ == filtered(services@, Some(uuid)),
{
    let mut found: Vec<Service> = Vec::new();
    let mut i: usize = 0;
    let ghost has_uuid = |s: Service| s.inner.uuid == uuid;
    assert(services@.take(0).filter(has_uuid) == Seq::<Service>::empty()) by {
        reveal(Seq::filter);
    }
    while i < services.len()
        invariant
            i <= services@.len(),
            has_uuid == (|s: Service| s.inner.uuid == uuid),
            found@ == services@.take(i as int).filter(has_uuid),
        decreases services@.len() - i,
    {
        proof {
            reveal(Seq::filter);
            assert(services@.take(i + 1).drop_last() == services@.take(i as int));
        }
        let service = services[i];
        if service.uuid() == uuid {
            found.push(service);
        }
        i += 1;
    }
    assert(services@.take(i as int) == services@);
    found
}

/// A Bluetooth LE device: its peripheral as it was when it was looked at, and the delegate that
/// hears of the peripheral's events.
pub struct DeviceImpl {
    pub peripheral: CBPeripheral,
    pub delegate: PeripheralDelegate,
}

impl Clone for DeviceImpl {
    /// The same device, as it was seen.
    fn clone(&self) -> (copy: Self)
        ensures
            copy.eq_spec(self),
            copy.peripheral.same_look(&self.peripheral),
            copy.delegate == self.delegate,
    {
        DeviceImpl { peripheral: self.peripheral.clone(), delegate: self.delegate }
    }
}

/// Two devices are equal if their peripherals are.
impl PartialEq for DeviceImpl {
    fn eq(&self, other: &Self) -> (equal: bool) {
        self.peripheral == other.peripheral
    }
}

impl vstd::std_specs::cmp::PartialEqSpecImpl for DeviceImpl {
    open spec fn obeys_eq_spec() -> bool {
        true
    }

    open spec fn eq_spec(&self, other: &Self) -> bool {
        self.peripheral.id == other.peripheral.id
    }
}

impl Eq for DeviceImpl {

}

/// A Bluetooth LE device.
#[derive(Clone, PartialEq, Eq)]
pub struct Device(pub DeviceImpl);

/// What it takes to make a device of a peripheral.
pub enum NewDevice {
    /// The peripheral already reports to a delegate: nothing.
    Ready(Device),
    /// The peripheral reports to nobody: a new delegate has to be made and attached to it, and the
    /// device is then made with that delegate.
    NeedsDelegate(CBPeripheral),
}

impl Device {
    /// Makes a device of `peripheral`, which reports its events to `delegate`, if to anybody.
    pub fn new(peripheral: CBPeripheral, delegate: Option<PeripheralDelegate>) -> (made: NewDevice)
        ensures
            made == match delegate {
                Some(delegate) => NewDevice::Ready(Device(DeviceImpl { peripheral, delegate })),
                None => NewDevice::NeedsDelegate(peripheral),
            },
    {
        match delegate {
            Some(delegate) => NewDevice::Ready(Self::with_delegate(peripheral, delegate)),
            None => NewDevice::NeedsDelegate(peripheral),
        }
    }

    /// The device of `peripheral`, which reports its events to `delegate`.
    pub fn with_delegate(peripheral: CBPeripheral, delegate: PeripheralDelegate) -> (device: Device)
        ensures
            device == Device(DeviceImpl { peripheral, delegate }),
    {
        Device(DeviceImpl { peripheral, delegate })
    }
}

/// What asking for the services of a device leads to.
#[derive(Debug)]
pub enum Services {
    /// They have been discovered before.
    Known(Vec<Service>),
    /// They have to be discovered.
    Discover(ServiceDiscovery),
}

impl DeviceImpl {
    /// Whether the device is connected.
    pub open spec fn connected(&self) -> bool {
        self.peripheral.state == CBPeripheralState::Connected
    }

    /// What a hasher is to be fed of this device.
    pub fn hash_key(&self) -> (key: u64)
        ensures
            key == self.peripheral.id,
    {
        self.peripheral.id
    }

    /// The device's name for people, or `(Unknown)`.
    pub fn display(&self) -> (text: String)
        ensures
            match self.peripheral.name {
                Some(name) => text@ == name@,
                None => text@ == "(Unknown)"@,
            },
    {
        match self.name() {
            Ok(name) => name,
            Err(_) => "(Unknown)".to_string(),
        }
    }

    /// This device's unique identifier
    pub fn id(&self) -> (id: DeviceId)
        ensures
            id == DeviceId(self.peripheral.identifier),
    {
        DeviceId(self.peripheral.identifier)
    }

    /// The local name for this device, if available
    ///
    /// This can either be a name advertised or read from the device, or a name assigned to the
    /// device by the OS.
    pub fn name(&self) -> (result: Result<String, Error>)
        ensures
            result == match self.peripheral.name {
                Some(name) => Ok::<String, Error>(name),
                None => Err::<String, Error>(Error::Kind(ErrorKind::NotFound)),
            },
    {
        match &self.peripheral.name {
            Some(name) => Ok(name.clone()),
            None => Err(Error::from(ErrorKind::NotFound)),
        }
    }

    /// The local name for this device, if available
    ///
    /// This can either be a name advertised or read from the device, or a name assigned to the
    /// device by the OS.
    pub fn name_async(&self) -> (result: Result<String, Error>)
        ensures
            result == match self.peripheral.name {
                Some(name) => Ok::<String, Error>(name),
                None => Err::<String, Error>(Error::Kind(ErrorKind::NotFound)),
            },
    {
        self.name()
    }

    /// The connection status for this device
    pub fn is_connected(&self) -> (connected: bool)
        ensures
            connected == self.connected(),
    {
        self.peripheral.state == CBPeripheralState::Connected
    }

    /// The pairing status for this device, which the platform does not tell.
    pub fn is_paired(&self) -> (result: Result<bool, Error>)
        ensures
            result == Err::<bool, Error>(Error::Kind(ErrorKind::NotSupported)),
    {
        Err(Error::from(ErrorKind::NotSupported))
    }

    /// Attempt to pair this device using the system default pairing UI
    ///
    /// Device pairing is performed automatically by the OS when a characteristic requiring security
    /// is accessed. This method is a no-op.
    pub fn pair(&self) -> (result: Result<(), Error>)
        ensures
            result == Ok::<(), Error>(()),
    {
        Ok(())
    }

    /// Attempt to pair this device using the system default pairing UI
    ///
    /// Device pairing is performed automatically by the OS when a characteristic requiring security
    /// is accessed. This method is a no-op.
    pub fn pair_with_agent<T>(&self, _agent: &T) -> (result: Result<(), Error>)
        ensures
            result == Ok::<(), Error>(()),
    {
        Ok(())
    }

    /// Disconnect and unpair this device from the system, which the platform does not offer.
    pub fn unpair(&self) -> (result: Result<(), Error>)
        ensures
            result == Err::<(), Error>(Error::Kind(ErrorKind::NotSupported)),
    {
        Err(Error::from(ErrorKind::NotSupported))
    }

    /// Start to discover the primary services of this device.
    pub fn discover_services(&self) -> (result: Result<ServiceDiscovery, Error>)
        ensures
            self.connected() ==> (result matches Ok(discovery) && discovery.wanted() is None),
            !self.connected() ==> result == Err::<ServiceDiscovery, Error>(
                Error::Kind(ErrorKind::NotConnected),
            ),
    {
        self.discover_services_inner(None)
    }

    /// Start to discover the primary service(s) of this device with the given [`Uuid`].
    pub fn discover_services_with_uuid(&self, uuid: Uuid) -> (result: Result<
        ServiceDiscovery,
        Error,
    >)
        ensures
            self.connected() ==> (result matches Ok(discovery) && discovery.wanted() == Some(uuid)),
            !self.connected() ==> result == Err::<ServiceDiscovery, Error>(
                Error::Kind(ErrorKind::NotConnected),
            ),
    {
        self.discover_services_inner(Some(uuid))
    }

    fn discover_services_inner(&self, wanted: Option<Uuid>) -> (result: Result<
        ServiceDiscovery,
        Error,
    >)
        ensures
            self.connected() ==> (result matches Ok(discovery) && discovery.wanted() == wanted),
            !self.connected() ==> result == Err::<ServiceDiscovery, Error>(
                Error::Kind(ErrorKind::NotConnected),
            ),
    {
        if !self.is_connected() {
            return Err(Error::from(ErrorKind::NotConnected));
        }
        Ok(ServiceDiscovery::new(wanted))
    }

    /// Get previously discovered services.
    ///
    /// If no services have been discovered yet, this method will start service discovery.
    pub fn services(&self) -> (result: Result<Services, Error>)
        ensures
            match self.peripheral.services {
                Some(services) => result matches Ok(Services::Known(known)) && known@
                    == services_of(services@, self.delegate),
                None => if self.connected() {
                    result matches Ok(Services::Discover(discovery)) && discovery.wanted() is None
                } else {
                    result == Err::<Services, Error>(Error::Kind(ErrorKind::NotConnected))
                },
            },
    {
        match self.services_inner() {
            Ok(services) => Ok(Services::Known(services)),
            Err(_) => match self.discover_services() {
                Ok(discovery) => Ok(Services::Discover(discovery)),
                Err(e) => Err(e),
            },
        }
    }

    /// The services that have been discovered, in the order in which the platform shows them.
    pub fn services_inner(&self) -> (result: Result<Vec<Service>, Error>)
        ensures
            match self.peripheral.services {
                Some(services) => result matches Ok(known) && known@ == services_of(
                    services@,
                    self.delegate,
                ),
                None => result matches Err(e) && e.says(
                    ErrorKind::NotReady,
                    "no services have been discovered"@,
                ),
            },
    {
        match &self.peripheral.services {
            Some(services) => {
                let mut known: Vec<Service> = Vec::new();
                let mut i: usize = 0;
                while i < services.len()
                    invariant
                        i <= services@.len(),
                        known@ == services_of(services@.take(i as int), self.delegate),
                    decreases services@.len() - i,
                {
                    known.push(Service::new(services[i], self.delegate));
                    i += 1;
                }
                assert(services@.take(i as int) == services@);
                Ok(known)
            },
            None => Err(
                Error::new(ErrorKind::NotReady, "no services have been discovered".to_string()),
            ),
        }
    }

    /// Start to monitor the device for services changed events.
    pub fn service_changed_indications(&self) -> (result: Result<ServiceChangedIndications, Error>)
        ensures
            self.connected() ==> result is Ok,
            !self.connected() ==> result == Err::<ServiceChangedIndications, Error>(
                Error::Kind(ErrorKind::NotConnected),
            ),
    {
        if !self.is_connected() {
            return Err(Error::from(ErrorKind::NotConnected));
        }
        Ok(ServiceChangedIndications)
    }

    /// Get the current signal strength from the device in dBm: tells what to ask of the peripheral,
    /// whether it is connected or not. The reading is then pending.
    pub fn rssi(&self) -> (asked: (PeripheralCommand, PendingRssi))
        ensures
            asked.0 == PeripheralCommand::ReadRssi,
    {
        (PeripheralCommand::ReadRssi, PendingRssi)
    }

    /// Start to open an L2CAP channel given PSM
    pub fn open_l2cap_channel(&self, psm: u16, _secure: bool) -> (result: Result<
        L2capOpening,
        Error,
    >)
        ensures
            self.connected() ==> (result matches Ok(opening) && opening.psm() == psm),
            !self.connected() ==> result == Err::<L2capOpening, Error>(
                Error::Kind(ErrorKind::NotConnected),
            ),
    {
        if !self.is_connected() {
            return Err(Error::from(ErrorKind::NotConnected));
        }
        Ok(L2capOpening::new(psm))
    }
}

/// A report that services of a device changed.
#[derive(Clone, Debug, PartialEq, Eq, Hash)]
pub struct ServicesChanged(pub ServicesChangedImpl);

/// The services that a device reported as no longer valid.
#[derive(Clone, Debug, PartialEq, Eq, Hash)]
pub struct ServicesChangedImpl(pub Vec<ServiceId>);

impl ServicesChangedImpl {
    /// Whether `service` is one of the services that became invalid.
    pub fn was_invalidated(&self, service: &Service) -> (invalidated: bool)
        ensures
            invalidated == self.0@.contains(service.inner.id),
    {
        let mut i: usize = 0;
        while i < self.0.len()
            invariant
                i <= self.0@.len(),
                forall|j: int| 0 <= j < i ==> self.0@[j] != service.inner.id,
            decreases self.0@.len() - i,
        {
            if self.0[i] == service.inner.id {
                return true;
            }
            i += 1;
        }
        false
    }
}

/// What an event adds to the indications of changed services, if anything: the services that
/// became invalid, or that the connection ended.
pub open spec fn indication(event: PeripheralEvent) -> Option<Result<ServicesChanged, Error>> {
    match event {
        PeripheralEvent::ServicesChanged { invalidated_services } => Some(
            Ok(ServicesChanged(ServicesChangedImpl(invalidated_services))),
        ),
        PeripheralEvent::Disconnected { error } => Some(
            Err(Error::Attributed { kind: ErrorKind::NotConnected, reported: error }),
        ),
        _ => None,
    }
}

/// The indications of changed services of a device, which go on for as long as it has events.
#[derive(Debug)]
pub struct ServiceChangedIndications;

impl ServiceChangedIndications {
    /// What the next event of the peripheral adds to the indications.
    pub fn on_event(&self, event: PeripheralEvent) -> (item: Option<Result<ServicesChanged, Error>>)
        ensures
            item == indication(event),
    {
        match event {
            PeripheralEvent::ServicesChanged { invalidated_services } => Some(
                Ok(ServicesChanged(ServicesChangedImpl(invalidated_services))),
            ),
            PeripheralEvent::Disconnected { error } => Some(
                Err(Error::from_kind_and_nserror(ErrorKind::NotConnected, error)),
            ),
            _ => None,
        }
    }
}

} // verus!
