//! Requests to a peripheral, and the events that settle them.
//!
//! A request is first asked of the peripheral, and is then pending: the events of the peripheral
//! are handed to it one by one until one of them settles it. Each stage is a type of its own and
//! is used up by the next, so nothing is asked twice and nothing is reported before it is settled.
use crate::device::{filtered, services_of, with_uuid, DeviceImpl, Service};
use crate::error::{Error, ErrorKind, EventError};
use crate::l2cap_channel::{
    L2capChannelReader, L2capChannelWriter, StreamCommand, StreamSide, QUEUE_ROOM,
};
use crate::queue;
use crate::read_loop::ReadLoop;
use crate::types::{CBL2CAPChannel, PeripheralEvent, Uuid};
use crate::write_loop::WriteLoop;
use vstd::prelude::*;

verus! {

/// Something to be asked of a peripheral.
#[derive(Debug, PartialEq, Eq)]
pub enum PeripheralCommand {
    /// Discover the primary services with one of these identifiers, or all of them.
    DiscoverServices { uuids: Option<Vec<Uuid>> },
    /// Read the signal strength.
    ReadRssi,
    /// Open an L2CAP channel to this protocol/service multiplexer.
    OpenL2capChannel { psm: u16 },
}

/// The next event of a peripheral, or why there is none.
pub type Received = Result<PeripheralEvent, EventError>;

/// What has become of a pending request.
#[derive(Debug)]
pub enum Progress<P, T> {
    /// It is still pending.
    Waiting(P),
    /// It is settled.
    Settled(Result<T, Error>),
}

/// How an event settles a discovery of services, if it does: the answer, a report of failure, the
/// end of the connection and the end of the events do, and nothing else does.
pub open spec fn discovery_verdict(received: Received) -> Option<Result<(), Error>> {
    match received {
        Err(cause) => Some(Err(Error::Events(cause))),
        Ok(PeripheralEvent::DiscoveredServices { error: None }) => Some(Ok(())),
        Ok(PeripheralEvent::DiscoveredServices { error: Some(reported) }) => Some(
            Err(Error::Platform(reported)),
        ),
        Ok(PeripheralEvent::Disconnected { error }) => Some(
            Err(Error::Attributed { kind: ErrorKind::NotConnected, reported: error }),
        ),
        Ok(_) => None,
    }
}

/// How an event settles a reading of the signal strength, if it does: the answer, a report of
/// failure and the end of the events do, and nothing else does, not even the end of the connection.
pub open spec fn rssi_verdict(received: Received) -> Option<Result<i16, Error>> {
    match received {
        Err(cause) => Some(Err(Error::Events(cause))),
        Ok(PeripheralEvent::ReadRssi { rssi, error: None }) => Some(Ok(rssi)),
        Ok(PeripheralEvent::ReadRssi { rssi: _, error: Some(reported) }) => Some(
            Err(Error::Platform(reported)),
        ),
        Ok(_) => None,
    }
}

/// How an event settles the opening of a channel, if it does: the answer, a report of failure, the
/// end of the connection and the end of the events do, and nothing else does.
pub open spec fn opening_verdict(received: Received) -> Option<Result<CBL2CAPChannel, Error>> {
    match received {
        Err(cause) => Some(Err(Error::Events(cause))),
        Ok(PeripheralEvent::L2CAPChannelOpened { channel, error: None }) => Some(Ok(channel)),
        Ok(PeripheralEvent::L2CAPChannelOpened { channel: _, error: Some(reported) }) => Some(
            Err(Error::Platform(reported)),
        ),
        Ok(PeripheralEvent::Disconnected { error }) => Some(
            Err(Error::Attributed { kind: ErrorKind::NotConnected, reported: error }),
        ),
        Ok(_) => None,
    }
}

/// A discovery of primary services that is to be asked for.
#[derive(Debug)]
pub struct ServiceDiscovery {
    wanted: Option<Uuid>,
}

/// A discovery of primary services that has been asked for.
#[derive(Debug)]
pub struct PendingDiscovery {
    wanted: Option<Uuid>,
}

/// A discovery of primary services that has succeeded.
#[derive(Debug)]
pub struct DiscoveredServices {
    wanted: Option<Uuid>,
}

impl ServiceDiscovery {
    /// The identifier of the services that are looked for; without one all of them are.
    pub closed spec fn wanted(&self) -> Option<Uuid> {
        self.wanted
    }

    pub(crate) fn new(wanted: Option<Uuid>) -> (discovery: ServiceDiscovery)
        ensures
            discovery.wanted() == wanted,
    {
        ServiceDiscovery { wanted }
    }

    /// What to ask of the peripheral: the services with the wanted identifier, or all services. The
    /// discovery is then pending.
    pub fn ask(self) -> (asked: (PeripheralCommand, PendingDiscovery))
        ensures
            asked.0 matches PeripheralCommand::DiscoverServices { uuids } && match self.wanted() {
                Some(uuid) => uuids matches Some(v) && v@ == seq![uuid],
                None => uuids is None,
            },
            asked.1.wanted() == self.wanted(),
    {
        let uuids = match self.wanted {
            Some(uuid) => {
                let mut uuids: Vec<Uuid> = Vec::new();
                uuids.push(uuid);
                Some(uuids)
            },
            None => None,
        };
        (PeripheralCommand::DiscoverServices { uuids }, PendingDiscovery { wanted: self.wanted })
    }
}

impl PendingDiscovery {
    /// The identifier of the services that are looked for; without one all of them are.
    pub closed spec fn wanted(&self) -> Option<Uuid> {
        self.wanted
    }

    /// What becomes of the discovery with the next event of the peripheral.
    pub fn on_event(self, received: Received) -> (progress: Progress<Self, DiscoveredServices>)
        ensures
            match discovery_verdict(received) {
                None => progress == Progress::<Self, DiscoveredServices>::Waiting(self),
                Some(Ok(())) => progress matches Progress::Settled(Ok(discovered))
                    && discovered.wanted() == self.wanted(),
                Some(Err(e)) => progress == Progress::<Self, DiscoveredServices>::Settled(Err(e)),
            },
    {
        match received {
            Err(cause) => Progress::Settled(Err(Error::from_recv_error(cause))),
            Ok(PeripheralEvent::DiscoveredServices { error: None }) => Progress::Settled(
                Ok(DiscoveredServices { wanted: self.wanted }),
            ),
            Ok(PeripheralEvent::DiscoveredServices { error: Some(reported) }) => Progress::Settled(
                Err(Error::from_nserror(reported)),
            ),
            Ok(PeripheralEvent::Disconnected { error }) => Progress::Settled(
                Err(Error::from_kind_and_nserror(ErrorKind::NotConnected, error)),
            ),
            Ok(_) => Progress::Waiting(self),
        }
    }
}

impl DiscoveredServices {
    /// The identifier of the services that were looked for; without one all of them were.
    pub closed spec fn wanted(&self) -> Option<Uuid> {
        self.wanted
    }

    /// Of the services that `device` now shows, those that were looked for, in the same order.
    pub fn finish(self, device: &DeviceImpl) -> (result: Result<Vec<Service>, Error>)
        ensures
            match device.peripheral.services {
                Some(services) => result matches Ok(found) && found@ == filtered(
                    services_of(services@, device.delegate),
                    self.wanted(),
                ),
                None => result matches Err(e) && e.says(
                    ErrorKind::NotReady,
                    "no services have been discovered"@,
                ),
            },
    {
        match device.services_inner() {
            Ok(services) => match self.wanted {
                Some(uuid) => Ok(with_uuid(services, uuid)),
                None => Ok(services),
            },
            Err(e) => Err(e),
        }
    }
}

/// A reading of the signal strength that has been asked for.
#[derive(Debug)]
pub struct PendingRssi;

impl PendingRssi {
    /// What becomes of the reading with the next event of the peripheral.
    pub fn on_event(self, received: Received) -> (progress: Progress<Self, i16>)
        ensures
            progress == match rssi_verdict(received) {
                None => Progress::<Self, i16>::Waiting(self),
                Some(result) => Progress::<Self, i16>::Settled(result),
            },
    {
        match received {
            Ok(PeripheralEvent::ReadRssi { rssi, error: None }) => Progress::Settled(Ok(rssi)),
            Ok(PeripheralEvent::ReadRssi { error: Some(reported), .. }) => Progress::Settled(
                Err(Error::from_nserror(reported)),
            ),
            Err(cause) => Progress::Settled(Err(Error::from_recv_error(cause))),
            Ok(_) => Progress::Waiting(self),
        }
    }
}

/// The opening of an L2CAP channel that is to be asked for.
#[derive(Debug)]
pub struct L2capOpening {
    psm: u16,
}

/// The opening of an L2CAP channel that has been asked for.
#[derive(Debug)]
pub struct PendingOpening;

/// An open channel: its halves, how to open its streams, and the loops that then serve them.
pub struct L2capHalves {
    pub channel: CBL2CAPChannel,
    pub reader: L2capChannelReader,
    pub open_input: StreamCommand,
    pub read_loop: ReadLoop,
    pub writer: L2capChannelWriter,
    pub open_output: StreamCommand,
    pub write_loop: WriteLoop,
}

impl L2capHalves {
    /// Whether these are the halves of `channel` before anything has passed through them. Each has
    /// a queue of its own that leads to its own loop.
    pub open spec fn are_new_on(&self, channel: CBL2CAPChannel) -> bool {
        &&& self.channel == channel
        &&& self.reader.channel() == channel
        &&& self.open_input == (StreamCommand::Open { channel, side: StreamSide::Input })
        &&& self.read_loop.is_start_on(channel)
        &&& queue::taken(self.reader.receiver()) == Seq::<Seq<u8>>::empty()
        &&& queue::ends_of_queue(
            self.read_loop.sender(),
            self.reader.receiver(),
            QUEUE_ROOM as nat,
        )
        &&& !queue::found_ended(self.reader.receiver())
        &&& queue::in_order(self.reader.receiver())
        &&& queue::within_room(self.read_loop.sender())
        &&& self.writer.channel() == channel
        &&& self.open_output == (StreamCommand::Open { channel, side: StreamSide::Output })
        &&& self.write_loop.is_start_on(channel)
        &&& queue::sent(self.writer.sender()) == Seq::<Seq<u8>>::empty()
        &&& queue::ends_of_queue(
            self.writer.sender(),
            self.write_loop.receiver(),
            QUEUE_ROOM as nat,
        )
        &&& !queue::found_closed(self.writer.sender())
        &&& queue::in_order(self.write_loop.receiver())
        &&& queue::within_room(self.writer.sender())
    }

    /// The halves of a channel that was just opened.
    pub fn new(channel: CBL2CAPChannel) -> (halves: L2capHalves)
        ensures
            halves.are_new_on(channel),
    {
        let (reader, open_input, read_loop) = L2capChannelReader::new(channel);
        let (writer, open_output, write_loop) = L2capChannelWriter::new(channel);
        L2capHalves { channel, reader, open_input, read_loop, writer, open_output, write_loop }
    }
}

impl L2capOpening {
    /// The protocol/service multiplexer of the channel.
    pub closed spec fn psm(&self) -> u16 {
        self.psm
    }

    pub(crate) fn new(psm: u16) -> (opening: L2capOpening)
        ensures
            opening.psm() == psm,
    {
        L2capOpening { psm }
    }

    /// What to ask of the peripheral. The opening is then pending.
    pub fn ask(self) -> (asked: (PeripheralCommand, PendingOpening))
        ensures
            asked.0 == (PeripheralCommand::OpenL2capChannel { psm: self.psm() }),
    {
        (PeripheralCommand::OpenL2capChannel { psm: self.psm }, PendingOpening)
    }
}

impl PendingOpening {
    /// What becomes of the opening with the next event of the peripheral.
    pub fn on_event(self, received: Received) -> (progress: Progress<Self, L2capHalves>)
        ensures
            match opening_verdict(received) {
                None => progress == Progress::<Self, L2capHalves>::Waiting(self),
                Some(Ok(channel)) => progress matches Progress::Settled(Ok(halves))
                    && halves.are_new_on(channel),
                Some(Err(e)) => progress == Progress::<Self, L2capHalves>::Settled(Err(e)),
            },
    {
        match received {
            Err(cause) => Progress::Settled(Err(Error::from_recv_error(cause))),
            Ok(PeripheralEvent::L2CAPChannelOpened { channel, error: None }) => Progress::Settled(
                Ok(L2capHalves::new(channel)),
            ),
            Ok(PeripheralEvent::L2CAPChannelOpened { error: Some(reported), .. }) =>
                Progress::Settled(Err(Error::from_nserror(reported))),
            Ok(PeripheralEvent::Disconnected { error }) => Progress::Settled(
                Err(Error::from_kind_and_nserror(ErrorKind::NotConnected, error)),
            ),
            Ok(_) => Progress::Waiting(self),
        }
    }
}

} // verus!
