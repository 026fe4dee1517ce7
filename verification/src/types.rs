//! The platform's objects, by the values that the library reads of them.
//!
//! Each object has an `id`: two values stand for the same object of the platform exactly if they
//! have the same `id`.
use crate::error::NSError;
use vstd::prelude::*;

verus! {

/// A universally unique identifier.
#[derive(Clone, Copy, Debug, PartialEq, Eq, Hash, Structural)]
pub struct Uuid(pub u128);

impl Uuid {
    /// The identifier with the given number.
    pub fn from_u128(number: u128) -> (uuid: Uuid)
        ensures
            uuid == Uuid(number),
    {
        Uuid(number)
    }

    /// The identifier as a number.
    pub fn as_u128(&self) -> (number: u128)
        ensures
            number == self.0,
    {
        self.0
    }
}

/// The identifier by which the system knows a device.
#[derive(Clone, Copy, Debug, PartialEq, Eq, Hash, Structural)]
pub struct DeviceId(pub Uuid);

/// The connection state of a peripheral.
#[derive(Clone, Copy, Debug, PartialEq, Eq, Structural)]
pub enum CBPeripheralState {
    Disconnected,
    Connecting,
    Connected,
    Disconnecting,
}

/// Which service object of the platform is meant.
#[derive(Clone, Copy, Debug, PartialEq, Eq, Hash, Structural)]
pub struct ServiceId(pub u64);

/// A service of a peripheral: which object it is, and its identifier.
#[derive(Clone, Copy, Debug, PartialEq, Eq, Hash, Structural)]
pub struct CBService {
    pub id: ServiceId,
    pub uuid: Uuid,
}

/// A peripheral as it was when it was looked at.
#[derive(Debug)]
pub struct CBPeripheral {
    /// Which object of the platform this is.
    pub id: u64,
    pub identifier: Uuid,
    /// The name that the device has or that the system gave it.
    pub name: Option<String>,
    pub state: CBPeripheralState,
    /// The primary services, once they have been discovered.
    pub services: Option<Vec<CBService>>,
}

impl CBPeripheral {
    /// Whether the two are the same object of the platform and look the same.
    pub open spec fn same_look(&self, other: &Self) -> bool {
        &&& self.id == other.id
        &&& self.identifier == other.identifier
        &&& self.name == other.name
        &&& self.state == other.state
        &&& match (self.services, other.services) {
            (Some(a), Some(b)) => a@ == b@,
            (None, None) => true,
            _ => false,
        }
    }
}

impl Clone for CBPeripheral {
    /// The same peripheral, as it was seen.
    fn clone(&self) -> (copy: Self)
        ensures
            copy.same_look(self),
    {
        let services = match &self.services {
            Some(services) => Some(vstd::slice::slice_to_vec(services.as_slice())),
            None => None,
        };
        CBPeripheral {
            id: self.id,
            identifier: self.identifier,
            name: self.name.clone(),
            state: self.state,
            services,
        }
    }
}

/// Two peripherals are equal if they are the same object of the platform, whatever was seen of it.
impl PartialEq for CBPeripheral {
    fn eq(&self, other: &Self) -> (equal: bool) {
        self.id == other.id
    }
}

impl vstd::std_specs::cmp::PartialEqSpecImpl for CBPeripheral {
    open spec fn obeys_eq_spec() -> bool {
        true
    }

    open spec fn eq_spec(&self, other: &Self) -> bool {
        self.id == other.id
    }
}

impl Eq for CBPeripheral {

}

/// The object to which a peripheral reports its events.
#[derive(Clone, Copy, Debug, PartialEq, Eq, Hash, Structural)]
pub struct PeripheralDelegate {
    pub id: u64,
}

/// An L2CAP channel with its input and its output stream.
#[derive(Clone, Copy, Debug, PartialEq, Eq, Hash, Structural)]
pub struct CBL2CAPChannel {
    pub id: u64,
}

/// The state of a stream, by the platform's number for it.
#[derive(Clone, Copy, Debug, PartialEq, Eq, Structural)]
pub struct NSStreamStatus(pub usize);

/// The number of a stream that has not been opened.
pub const STREAM_NOT_OPEN: usize = 0;

/// The number of a stream that is open and idle.
pub const STREAM_OPEN: usize = 2;

/// The number of a stream that has been closed.
pub const STREAM_CLOSED: usize = 6;

/// An event that a peripheral reports to its delegate.
#[derive(Debug)]
pub enum PeripheralEvent {
    /// The connection to the peripheral ended.
    Disconnected { error: Option<NSError> },
    /// A discovery of services ended.
    DiscoveredServices { error: Option<NSError> },
    /// Services became invalid.
    ServicesChanged { invalidated_services: Vec<ServiceId> },
    /// A signal strength was read, in dBm.
    ReadRssi { rssi: i16, error: Option<NSError> },
    /// A request for an L2CAP channel was answered.
    L2CAPChannelOpened { channel: CBL2CAPChannel, error: Option<NSError> },
    /// An event on which nothing in this library waits.
    Other,
}

} // verus!
