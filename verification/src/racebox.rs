//! The wireless feed: the beacon's packet layout and the link that finds
//! the beacon and listens to it.

pub mod parser;
pub mod encode;
pub mod protocol;
pub mod ble;
