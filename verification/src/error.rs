//! Error types for the EMAC driver.
//!
//! Errors are grouped by domain: [`ConfigError`] for setup failures,
//! [`DmaError`] for descriptor and buffer problems, [`IoError`] for runtime
//! TX/RX failures, and the unified [`Error`] that wraps all three.

use vstd::prelude::*;
use vstd::string::StringExecFns;

verus! {

/// Configuration and initialization errors.
#[derive(Debug, Clone, Copy, PartialEq, Eq, Structural)]
pub enum ConfigError {
    /// Driver already initialized
    AlreadyInitialized,
    /// Invalid configuration parameter
    InvalidConfig,
    /// Invalid PHY address (must be 0-31)
    InvalidPhyAddress,
    /// Clock configuration error
    ClockError,
    /// GPIO configuration error
    GpioError,
    /// Software reset failed or timed out
    ResetFailed,
}

/// DMA buffer and descriptor errors.
#[derive(Debug, Clone, Copy, PartialEq, Eq, Structural)]
pub enum DmaError {
    /// No descriptors available for transmission
    NoDescriptorsAvailable,
    /// Descriptor is busy (owned by DMA hardware)
    DescriptorBusy,
    /// Frame too large for buffer capacity
    FrameTooLarge,
    /// Invalid frame length (zero or exceeds maximum)
    InvalidLength,
    /// Fatal bus error (unrecoverable DMA error)
    FatalBusError,
}

/// Runtime TX/RX errors.
#[derive(Debug, Clone, Copy, PartialEq, Eq, Structural)]
pub enum IoError {
    /// Operation timed out
    Timeout,
    /// Invalid state for operation (e.g., not running)
    InvalidState,
    /// Buffer too small for received frame
    BufferTooSmall,
    /// Incomplete frame received (missing first/last segment)
    IncompleteFrame,
    /// Frame has receive errors (CRC, overflow, etc.)
    FrameError,
    /// PHY communication error (MDIO timeout or failure)
    PhyError,
}

/// Unified error wrapping all domain-specific errors.
#[derive(Debug, Clone, Copy, PartialEq, Eq, Structural)]
pub enum Error {
    /// Configuration error
    Config(ConfigError),
    /// DMA error
    Dma(DmaError),
    /// I/O error
    Io(IoError),
}

/// Result type alias for EMAC operations
pub type Result<T> = core::result::Result<T, Error>;

/// Result type alias for configuration operations
pub type ConfigResult<T> = core::result::Result<T, ConfigError>;

/// Result type alias for DMA operations
pub type DmaResult<T> = core::result::Result<T, DmaError>;

/// Result type alias for I/O operations
pub type IoResult<T> = core::result::Result<T, IoError>;

/// The description of a configuration error.
pub open spec fn config_error_text(e: ConfigError) -> Seq<char> {
    match e {
        ConfigError::AlreadyInitialized => "already initialized"@,
        ConfigError::InvalidConfig => "invalid configuration"@,
        ConfigError::InvalidPhyAddress => "invalid PHY address"@,
        ConfigError::ClockError => "clock configuration error"@,
        ConfigError::GpioError => "GPIO configuration error"@,
        ConfigError::ResetFailed => "software reset failed"@,
    }
}

/// The description of a DMA error.
pub open spec fn dma_error_text(e: DmaError) -> Seq<char> {
    match e {
        DmaError::NoDescriptorsAvailable => "no descriptors available"@,
        DmaError::DescriptorBusy => "descriptor busy"@,
        DmaError::FrameTooLarge => "frame too large for buffers"@,
        DmaError::InvalidLength => "invalid frame length"@,
        DmaError::FatalBusError => "fatal DMA bus error"@,
    }
}

/// The description of an I/O error.
pub open spec fn io_error_text(e: IoError) -> Seq<char> {
    match e {
        IoError::Timeout => "operation timed out"@,
        IoError::InvalidState => "invalid state for operation"@,
        IoError::BufferTooSmall => "buffer too small for frame"@,
        IoError::IncompleteFrame => "incomplete frame"@,
        IoError::FrameError => "frame error"@,
        IoError::PhyError => "PHY communication error"@,
    }
}

/// The full message of a unified error: the domain, a colon and a space,
/// then the domain error's description.
pub open spec fn error_text(e: Error) -> Seq<char> {
    match e {
        Error::Config(c) => "config: "@ + config_error_text(c),
        Error::Dma(d) => "dma: "@ + dma_error_text(d),
        Error::Io(i) => "io: "@ + io_error_text(i),
    }
}

impl ConfigError {
    /// Returns a human-readable description of the error.
    pub fn as_str(&self) -> (s: &'static str)
        ensures
            s@ == config_error_text(*self),
    {
        match self {
            ConfigError::AlreadyInitialized => "already initialized",
            ConfigError::InvalidConfig => "invalid configuration",
            ConfigError::InvalidPhyAddress => "invalid PHY address",
            ConfigError::ClockError => "clock configuration error",
            ConfigError::GpioError => "GPIO configuration error",
            ConfigError::ResetFailed => "software reset failed",
        }
    }
}

impl DmaError {
    /// Returns a human-readable description of the error.
    pub fn as_str(&self) -> (s: &'static str)
        ensures
            s@ == dma_error_text(*self),
    {
        match self {
            DmaError::NoDescriptorsAvailable => "no descriptors available",
            DmaError::DescriptorBusy => "descriptor busy",
            DmaError::FrameTooLarge => "frame too large for buffers",
            DmaError::InvalidLength => "invalid frame length",
            DmaError::FatalBusError => "fatal DMA bus error",
        }
    }
}

impl IoError {
    /// Returns a human-readable description of the error.
    pub fn as_str(&self) -> (s: &'static str)
        ensures
            s@ == io_error_text(*self),
    {
        match self {
            IoError::Timeout => "operation timed out",
            IoError::InvalidState => "invalid state for operation",
            IoError::BufferTooSmall => "buffer too small for frame",
            IoError::IncompleteFrame => "incomplete frame",
            IoError::FrameError => "frame error",
            IoError::PhyError => "PHY communication error",
        }
    }
}

impl Error {
    /// Returns the full message, `"<domain>: <description>"`.
    pub fn message(&self) -> (s: String)
        ensures
            s@ == error_text(*self),
    {
        match self {
            Error::Config(e) => {
                let mut s = String::from_str("config: ");
                s.append(e.as_str());
                s
            },
            Error::Dma(e) => {
                let mut s = String::from_str("dma: ");
                s.append(e.as_str());
                s
            },
            Error::Io(e) => {
                let mut s = String::from_str("io: ");
                s.append(e.as_str());
                s
            },
        }
    }
}

impl From<ConfigError> for Error {
    fn from(e: ConfigError) -> (r: Self) {
        Error::Config(e)
    }
}

impl vstd::std_specs::convert::FromSpecImpl<ConfigError> for Error {
    open spec fn obeys_from_spec() -> bool {
        true
    }

    open spec fn from_spec(e: ConfigError) -> Error {
        Error::Config(e)
    }
}

impl From<DmaError> for Error {
    fn from(e: DmaError) -> (r: Self) {
        Error::Dma(e)
    }
}

impl vstd::std_specs::convert::FromSpecImpl<DmaError> for Error {
    open spec fn obeys_from_spec() -> bool {
        true
    }

    open spec fn from_spec(e: DmaError) -> Error {
        Error::Dma(e)
    }
}

impl From<IoError> for Error {
    fn from(e: IoError) -> (r: Self) {
        Error::Io(e)
    }
}

impl vstd::std_specs::convert::FromSpecImpl<IoError> for Error {
    open spec fn obeys_from_spec() -> bool {
        true
    }

    open spec fn from_spec(e: IoError) -> Error {
        Error::Io(e)
    }
}

} // verus!
