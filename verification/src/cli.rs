use vstd::prelude::*;

verus! {

/// Command-line options.
pub struct Cli {
    /// Run in batch mode with the commands of this file.
    pub batch: Option<String>,
    /// Serial port for batch mode (e.g. `COM3`, `/dev/ttyUSB0`).
    pub port: Option<String>,
    /// Baud rate for batch mode.
    pub baud: u32,
    /// Delay between batch commands, in milliseconds.
    pub delay_ms: Option<u64>,
}

} // verus!
