//! Board support: pin assignments and configurations of known boards.

pub mod wt32_eth01;
