//! Decision logic of a Bluetooth Low Energy traffic-light remote.
//!
//! The crate never touches the platform. A driver performs each
//! [`platform::PlatformRequest`] on the host's Bluetooth API and hands the
//! outcome back as a [`platform::PlatformReply`]; every decision in between
//! is made, and proved, here.

pub mod ble;
pub mod error;
pub mod gatt;
pub mod guarantees;
pub mod model;
pub mod platform;
pub mod tg;
