//! What the daemon's own rules can object to.

use vstd::prelude::*;

use crate::config::ConfigError;

verus! {

/// An objection of the library. Failures of the system itself (files that
/// cannot be read, devices that cannot be opened) are the host's to report.
#[derive(Debug)]
pub enum DaemonError {
    /// No device was given on the command line or in the configuration.
    NoDevice,
    /// There is no mouse at all.
    NoMiceFound,
    /// There are several mice, and nobody to ask.
    NonInteractiveDeviceChoice,
    /// No plugged mouse has the configured USB ids.
    DeviceMatchNotFound { vendor_id: u16, product_id: u16 },
    /// A configured USB id is no such id.
    DeviceMatchInvalid { field: String, value: String },
    /// A configuration file in an unsafe place.
    ConfigPathUnsafe { path: std::path::PathBuf, reason: String },
    /// Settings that make no sense.
    ConfigInvalid(ConfigError),
}

} // verus!
