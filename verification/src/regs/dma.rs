//! DMA block registers: status, interrupt enable, bus mode and operation mode.

use vstd::prelude::*;

verus! {

/// Status: transmit interrupt (frame transmitted)
pub const DMASTATUS_TI: u32 = 0x0000_0001;
/// Status: transmit process stopped
pub const DMASTATUS_TPS: u32 = 0x0000_0002;
/// Status: transmit buffer unavailable
pub const DMASTATUS_TU: u32 = 0x0000_0004;
/// Status: transmit jabber timeout
pub const DMASTATUS_TJT: u32 = 0x0000_0008;
/// Status: receive overflow
pub const DMASTATUS_OVF: u32 = 0x0000_0010;
/// Status: transmit underflow
pub const DMASTATUS_UNF: u32 = 0x0000_0020;
/// Status: receive interrupt (frame received)
pub const DMASTATUS_RI: u32 = 0x0000_0040;
/// Status: receive buffer unavailable
pub const DMASTATUS_RU: u32 = 0x0000_0080;
/// Status: receive process stopped
pub const DMASTATUS_RPS: u32 = 0x0000_0100;
/// Status: receive watchdog timeout
pub const DMASTATUS_RWT: u32 = 0x0000_0200;
/// Status: early transmit interrupt
pub const DMASTATUS_ETI: u32 = 0x0000_0400;
/// Status: fatal bus error
pub const DMASTATUS_FBI: u32 = 0x0000_2000;
/// Status: early receive interrupt
pub const DMASTATUS_ERI: u32 = 0x0000_4000;
/// Status: abnormal interrupt summary
pub const DMASTATUS_AIS: u32 = 0x0000_8000;
/// Status: normal interrupt summary
pub const DMASTATUS_NIS: u32 = 0x0001_0000;
/// Status: transmit process state field shift
pub const DMASTATUS_TS_SHIFT: u32 = 20;
/// Status: transmit process state field mask (after shifting)
pub const DMASTATUS_TS_MASK: u32 = 0x7;
/// Every write-1-to-clear status bit
pub const DMASTATUS_ALL_INTERRUPTS: u32 = 0x0001_E7FF;

/// Interrupt enable: transmit interrupt
pub const DMAIE_TIE: u32 = 0x0000_0001;
/// Interrupt enable: receive interrupt
pub const DMAIE_RIE: u32 = 0x0000_0040;
/// Interrupt enable: fatal bus error
pub const DMAIE_FBE: u32 = 0x0000_2000;
/// Interrupt enable: abnormal summary
pub const DMAIE_AIE: u32 = 0x0000_8000;
/// Interrupt enable: normal summary
pub const DMAIE_NIE: u32 = 0x0001_0000;
/// Interrupts enabled while running: TX and RX complete, receive buffer
/// unavailable, overflow, underflow, fatal bus error and both summaries
pub const DMAIE_DEFAULT: u32 = 0x0001_A0F1;

/// Bus mode: software reset
pub const DMABUSMODE_SWR: u32 = 0x0000_0001;
/// Bus mode: alternate (8-word) descriptor size
pub const DMABUSMODE_ATDS: u32 = 0x0000_0080;
/// Bus mode: programmable burst length shift
pub const DMABUSMODE_PBL_SHIFT: u32 = 8;
/// Bus mode: programmable burst length mask
pub const DMABUSMODE_PBL_MASK: u32 = 0x0000_3F00;
/// Bus mode: fixed burst
pub const DMABUSMODE_FB: u32 = 0x0001_0000;
/// Bus mode: use separate PBL for RX
pub const DMABUSMODE_USP: u32 = 0x0080_0000;
/// Bus mode: address-aligned beats
pub const DMABUSMODE_AAL: u32 = 0x0200_0000;

/// Operation mode: start/stop receive
pub const DMAOPERATION_SR: u32 = 0x0000_0002;
/// Operation mode: start/stop transmission
pub const DMAOPERATION_ST: u32 = 0x0000_2000;
/// Operation mode: flush transmit FIFO
pub const DMAOPERATION_FTF: u32 = 0x0010_0000;
/// Operation mode: transmit store and forward
pub const DMAOPERATION_TSF: u32 = 0x0020_0000;
/// Operation mode: receive store and forward
pub const DMAOPERATION_RSF: u32 = 0x0200_0000;

} // verus!
