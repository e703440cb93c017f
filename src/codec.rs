//! Alert records and the codec capability the stream is generic over.
use vstd::prelude::*;

verus! {

/// Severity of an alert.
#[derive(Debug, Clone, Copy, PartialEq, Eq, Structural)]
pub enum Level {
    Warning,
    Fatal,
}

/// Description of an alert: orderly closure, or any other alert by its code.
#[derive(Debug, Clone, Copy, PartialEq, Eq, Structural)]
pub enum Alert {
    CloseNotify,
    Other(u8),
}

/// Why a received record could not be interpreted.
#[derive(Debug, Clone, Copy, PartialEq, Eq, Structural)]
pub enum CheckError {
    /// The bytes are not a well-formed record.
    Malformed,
    /// The record carries application data, which never travels out of band.
    ApplicationData,
}

/// Encoding and decoding of alert records, supplied by the TLS library in use.
///
/// `encoded` and `decoded` name what the two operations compute, so that
/// code generic over the codec can state its behaviour exactly.
pub trait Record {
    /// The body of an alert record with this severity and description.
    spec fn encoded(level: Level, alert: Alert) -> Seq<u8>;

    /// What a whole record (header and body) decodes to: `Ok(None)` for a
    /// record that is not an alert.
    spec fn decoded(record: Seq<u8>) -> Result<Option<(Level, Alert)>, CheckError>;

    /// Builds the body of an alert record.
    fn build(level: Level, alert: Alert) -> (r: Vec<u8>)
        ensures
            r@ == Self::encoded(level, alert),
    ;

    /// Decodes a whole record, header included.
    fn check(buf: &[u8]) -> (r: Result<Option<(Level, Alert)>, CheckError>)
        ensures
            r == Self::decoded(buf@),
    ;
}

} // verus!
