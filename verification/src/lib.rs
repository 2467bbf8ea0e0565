//! CAN / CAN-FD transport: frames, filters, the fan-out of a shared bus to its
//! subscribers, and the rules of two backends, SocketCAN and gs_usb.
//!
//! The library does no I/O. What a backend reads is handed to it as bytes or
//! frames, and it says what to write, what to deliver and what to report.

pub mod bus;
pub mod channel;
pub mod error;
pub mod fanout;
pub mod fd;
pub mod filter;
pub mod frame;
pub mod gs_usb;
pub mod socket_can;
pub mod wire;

pub use bus::{CanBitTiming, CanBusState, CanCapabilities, CanControllerState, CanLinkConfig};
pub use error::CanIoError;
pub use filter::CanFilter;
pub use frame::{CanFrame, CanId, FrameKind, FrameView, MAX_DLEN};
