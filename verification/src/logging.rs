//! The bridge from host log calls to the process-wide logger.
//!
//! The logger is installed at most once; a later installation attempt is a
//! no-op rather than a panic. Each leveled entry point turns a host buffer
//! into a leveled record; emitting the record through the logging backend
//! is the host shim's side effect and stays outside this crate.

use vstd::prelude::*;

use crate::marshal::{lossy_of, marshal_text};

verus! {

/// The severity of one log record.
#[derive(Clone, Copy, Debug, PartialEq, Eq, Structural)]
pub enum LogLevel {
    Trace,
    Debug,
    Info,
    Warn,
    Error,
}

/// One leveled message, ready to be handed to the logging backend.
#[derive(Clone, Debug)]
pub struct LogRecord {
    pub level: LogLevel,
    pub message: String,
}

/// Relies on `simple_logger::SimpleLogger::init`: installs the process-wide
/// logger and returns `Err` (without panicking) when a logger is already
/// installed.
#[verifier::external_body]
fn logger_install() -> (installed: bool) {
    simple_logger::SimpleLogger::new().init().is_ok()
}

/// Installs the process-wide logger. Calling this again later is harmless:
/// the second and later calls simply return `false`.
pub fn rsl_log_init() -> (installed: bool) {
    logger_install()
}

/// Builds the record that a host log call at the given level produces:
/// a null message (`None`) yields no record, anything else is decoded
/// lossily and forwarded verbatim.
pub fn make_log_record(level: LogLevel, bytes: Option<&Vec<u8>>) -> (r: Option<LogRecord>)
    ensures
        r is Some <==> bytes is Some,
        bytes matches Some(b) ==> r matches Some(rec) && rec.level == level && rec.message@
            == lossy_of(b@),
{
    match marshal_text(bytes) {
        None => None,
        Some(message) => Some(LogRecord { level, message }),
    }
}

/// The trace-level host entry point; the length is advisory and unused,
/// the message is read up to its terminator regardless.
pub fn rsl_c_trace(bytes: Option<&Vec<u8>>, _len: u32) -> (r: Option<LogRecord>)
    ensures
        r is Some <==> bytes is Some,
        bytes matches Some(b) ==> r matches Some(rec) && rec.level == LogLevel::Trace
            && rec.message@ == lossy_of(b@),
{
    make_log_record(LogLevel::Trace, bytes)
}

/// The debug-level host entry point.
pub fn rsl_c_debug(bytes: Option<&Vec<u8>>, _len: u32) -> (r: Option<LogRecord>)
    ensures
        r is Some <==> bytes is Some,
        bytes matches Some(b) ==> r matches Some(rec) && rec.level == LogLevel::Debug
            && rec.message@ == lossy_of(b@),
{
    make_log_record(LogLevel::Debug, bytes)
}

/// The info-level host entry point.
pub fn rsl_c_info(bytes: Option<&Vec<u8>>, _len: u32) -> (r: Option<LogRecord>)
    ensures
        r is Some <==> bytes is Some,
        bytes matches Some(b) ==> r matches Some(rec) && rec.level == LogLevel::Info
            && rec.message@ == lossy_of(b@),
{
    make_log_record(LogLevel::Info, bytes)
}

/// The warn-level host entry point.
pub fn rsl_c_warn(bytes: Option<&Vec<u8>>, _len: u32) -> (r: Option<LogRecord>)
    ensures
        r is Some <==> bytes is Some,
        bytes matches Some(b) ==> r matches Some(rec) && rec.level == LogLevel::Warn
            && rec.message@ == lossy_of(b@),
{
    make_log_record(LogLevel::Warn, bytes)
}

/// The error-level host entry point.
pub fn rsl_c_error(bytes: Option<&Vec<u8>>, _len: u32) -> (r: Option<LogRecord>)
    ensures
        r is Some <==> bytes is Some,
        bytes matches Some(b) ==> r matches Some(rec) && rec.level == LogLevel::Error
            && rec.message@ == lossy_of(b@),
{
    make_log_record(LogLevel::Error, bytes)
}

} // verus!
