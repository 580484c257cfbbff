//! Verified telemetry core of a vehicle dashboard.
//!
//! Two live feeds are decoded here: a framed serial byte stream carrying
//! engine and chassis readings, and fixed-layout wireless notifications
//! carrying position and inertial readings. The latest sample of each feed
//! is kept in one snapshot that a display reads.
//!
//! - [`esp32`]: the serial feed. Checksum, frame layout, decoding and
//!   encoding of frames, and the link that finds frames in the byte stream,
//!   keeps the last good sample over short outages and says when the device
//!   is to be opened again.
//! - [`racebox`]: the wireless feed. The data packet, and the link that
//!   looks for the beacon, connects, subscribes and listens.
//! - [`telemetry`]: the snapshot and the samples it holds.
//! - [`command`]: the requests that set the two display selectors.
//! - [`theme`], [`text`], [`bytes`]: small parts the others rest on.
//!
//! Neither link touches a device or a clock. Each is a state machine that
//! names the next operation and takes its outcome, so that all of its
//! decisions are stated and proved here and can be run without hardware.

pub mod bytes;
pub mod command;
pub mod esp32;
pub mod racebox;
pub mod telemetry;
pub mod text;
pub mod theme;
