//! Runtime configuration of the diagnostic log sink.
//!
//! A node writes status and error lines either to standard output or to an
//! attached log file. Which sink is active is an explicit piece of
//! configuration, [`LogConfig`], owned by the embedding process and handed to
//! whatever performs the actual writes; the functions here are the only way
//! the configuration changes. The writes themselves are diagnostics outside
//! this crate's concern.

use vstd::prelude::*;

verus! {

/// Which sink receives diagnostic lines: standard output while `enabled`
/// holds, an attached log file while `to_file` holds, or none.
pub struct LogConfig {
    /// Lines go to standard output.
    pub enabled: bool,
    /// A log file is attached; lines go to it while standard output is off.
    pub to_file: bool,
}

impl Default for LogConfig {
    /// Logging starts enabled, with no log file attached.
    fn default() -> (r: Self)
        ensures
            r.enabled,
            !r.to_file,
    {
        LogConfig { enabled: true, to_file: false }
    }
}

/// Enables logging to standard output and detaches any log file.
pub fn enable_logging(config: &mut LogConfig)
    ensures
        final(config).enabled,
        !final(config).to_file,
{
    config.enabled = true;
    config.to_file = false;
}

/// Disables logging to standard output; an attached log file is kept.
pub fn disable_logging(config: &mut LogConfig)
    ensures
        !final(config).enabled,
        final(config).to_file == old(config).to_file,
{
    config.enabled = false;
}

/// Routes the log to a file: standard output goes quiet and a log file is
/// marked attached. Opening the file itself is the embedder's work.
pub fn redirect_logs_to_file(config: &mut LogConfig)
    ensures
        !final(config).enabled,
        final(config).to_file,
{
    config.enabled = false;
    config.to_file = true;
}

/// Reports whether logging to standard output is enabled.
pub fn is_logging_enabled(config: &LogConfig) -> (r: bool)
    ensures
        r == config.enabled,
{
    config.enabled
}

/// Reports whether a log file is attached.
pub fn has_log_file(config: &LogConfig) -> (r: bool)
    ensures
        r == config.to_file,
{
    config.to_file
}

} // verus!
