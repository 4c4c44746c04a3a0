//! Interrupt-driven wake-up decisions for the asynchronous API.

use vstd::prelude::*;
use crate::interrupt::{InterruptStatus, any_error};

verus! {

/// Which waiting tasks an interrupt wakes.
#[derive(Debug, Clone, Copy, PartialEq, Eq, Structural)]
pub struct WakeTargets {
    /// Wake the receiver
    pub rx: bool,
    /// Wake the transmitter
    pub tx: bool,
    /// Wake the error watcher
    pub err: bool,
}

/// The tasks to wake for `status`: the receiver on a received frame or an
/// exhausted RX ring, the transmitter on a sent frame or an exhausted TX
/// ring, and on an error all three, so that each sees it.
pub fn wake_targets(status: &InterruptStatus) -> (r: WakeTargets)
    ensures
        r.err == any_error(*status),
        r.rx == (status.rx_complete || status.rx_buf_unavailable || any_error(*status)),
        r.tx == (status.tx_complete || status.tx_buf_unavailable || any_error(*status)),
{
    let err = status.has_error();
    WakeTargets {
        rx: status.rx_complete || status.rx_buf_unavailable || err,
        tx: status.tx_complete || status.tx_buf_unavailable || err,
        err,
    }
}

} // verus!
