//! DMA descriptor bit field constants (ESP32 TRM, EMAC chapter).

pub mod rdes0;

pub mod rdes1;

pub mod rdes4;

pub mod tdes0;

pub mod tdes1;

pub mod checksum_mode;
