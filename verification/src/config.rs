use vstd::prelude::*;

verus! {

/// How log events are rendered by the process-wide subscriber.
#[derive(Clone, Copy, Debug, PartialEq, Eq, Structural)]
pub enum LogFormat {
    /// Machine-readable JSON lines.
    Structured,
    /// Human-readable text.
    Plain,
}

/// Startup configuration handed to the gateway by its host: a listening
/// port, the filesystem location of the schema manifest, and the logging
/// format toggle.
pub struct GatewayConfig {
    pub port: u16,
    pub manifest_path: String,
    pub log_format: LogFormat,
}

impl GatewayConfig {
    /// Translates the host's boolean structured-logging toggle into the
    /// format enum, so that the rest of the pipeline branches on data
    /// rather than on duplicated wiring code.
    pub fn new(port: u16, manifest_path: String, structured_logging: bool) -> (c: GatewayConfig)
        ensures
            c.port == port,
            c.manifest_path@ == manifest_path@,
            c.log_format == (if structured_logging {
                LogFormat::Structured
            } else {
                LogFormat::Plain
            }),
    {
        let log_format = if structured_logging {
            LogFormat::Structured
        } else {
            LogFormat::Plain
        };
        GatewayConfig { port, manifest_path, log_format }
    }
}

} // verus!
