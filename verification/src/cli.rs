//! What the command line asked for.

use vstd::prelude::*;

verus! {

/// The command line, parsed.
#[derive(Debug)]
pub struct Args {
    pub device: Option<std::path::PathBuf>,
    pub config: Option<std::path::PathBuf>,
    pub setup: bool,
    pub pin_port: bool,
    pub install_service: bool,
    pub remove_service: bool,
    pub install_udev_rule: bool,
    pub remove_udev_rule: bool,
    pub start: bool,
    pub stop: bool,
    pub restart: bool,
    pub list_devices: bool,
    pub no_grab: bool,
    pub dry_run: bool,
    pub no_interactive: bool,
    pub verbose: u8,
    pub safety_timeout_seconds: Option<u64>,
    pub detect_foreground: bool,
}

impl Args {
    /// What to log, by how often `--verbose` was given.
    pub fn log_directive(&self) -> (r: &'static str)
        ensures
            r@ == (if self.verbose == 0 {
                "scrollock=info,scrollock_core=warn"@
            } else if self.verbose == 1 {
                "scrollock=debug,scrollock_core=info"@
            } else {
                "scrollock=trace,scrollock_core=trace"@
            }),
    {
        match self.verbose {
            0 => "scrollock=info,scrollock_core=warn",
            1 => "scrollock=debug,scrollock_core=info",
            _ => "scrollock=trace,scrollock_core=trace",
        }
    }
}

} // verus!
