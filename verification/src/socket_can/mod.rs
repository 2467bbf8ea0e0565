//! Linux SocketCAN backend: CAN 2.0 and CAN-FD.

pub mod convert;
pub mod frames;
pub mod link;
pub mod netlink;
pub mod transmit;

pub use link::SocketCanBus;
