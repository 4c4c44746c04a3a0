//! PHY drivers: the generic link types and driver trait, the IEEE 802.3
//! register procedures every clause 22 PHY supports, and the LAN8720A.

pub mod generic;
pub mod ieee802_3;
pub mod lan8720a;
