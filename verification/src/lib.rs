//! ESP32 Ethernet MAC (EMAC) driver core.
//!
//! The verified part of the driver: DMA descriptor encoding, the descriptor
//! rings and the DMA engine that moves frames between caller buffers and the
//! ring buffers, the driver state machine, MAC filtering and flow control
//! decisions, MDIO command encoding, and the PHY drivers written against the
//! [`mdio::MdioBus`] trait.
//!
//! Memory-mapped register access is not part of this crate's verified core;
//! the functions here compute the register words that the hardware layer
//! writes, and the hardware layer hands back what it reads.

pub mod error;
pub mod descriptor;
pub mod ring;
pub mod dma;
pub mod regs;
pub mod interrupt;
pub mod constants;
pub mod config;
pub mod mdio;
pub mod phy;
pub mod boards;
pub mod mac_regs;
pub mod emac;
pub mod clock;
pub mod gpio;
pub mod asynch;
pub mod reset;
pub mod bringup;
