//! Bluetooth LE devices and their L2CAP channels over CoreBluetooth.
//!
//! The library decides; its caller talks to the platform. Each operation tells what to do next and
//! is told what came of it.
pub mod channel_laws;
pub mod device;
pub mod device_laws;
pub mod error;
pub mod l2cap_channel;
pub mod laws;
pub mod operations;
pub mod queue;
pub mod read_loop;
pub mod types;
pub mod write_loop;
