//! gs_usb (candleLight) backend: CAN 2.0 and CAN-FD over USB.

pub mod bring_up;
pub mod clock;
pub mod config;
pub mod device;
pub mod host_frame;
pub mod link;
pub mod reader;

pub use config::{GsTiming, GsUsbConfig};
pub use device::KNOWN_IDS;
pub use link::GsUsbBus;
