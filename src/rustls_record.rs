//! The alert codec backed by rustls' message encoding.
use vstd::prelude::*;
use rustls::internal::msgs::codec::Reader;
use rustls::internal::msgs::enums::AlertLevel;
use rustls::internal::msgs::message::{Message, MessagePayload, OutboundOpaqueMessage, PlainMessage};
use rustls::AlertDescription;
use crate::cmsg::{framed, ALERT};
use crate::codec::{Alert, CheckError, Level, Record};

verus! {

/// Wire code of a warning alert.
pub const LEVEL_WARNING: u8 = 1;
/// Wire code of a fatal alert.
pub const LEVEL_FATAL: u8 = 2;
/// Wire code of the close_notify description.
pub const CLOSE_NOTIFY: u8 = 0;
/// Record type of application data.
pub const APPLICATION_DATA: u8 = 0x17;

/// A record as rustls parsed it, reduced to plain values.
#[derive(Debug, Clone, Copy, PartialEq, Eq, Structural)]
pub enum Parsed {
    /// An alert with its level and description codes.
    Alert { level: u8, description: u8 },
    /// A well-formed record of another type.
    Other { content_type: u8 },
}

/// What rustls parses a whole record into.
pub uninterp spec fn parsed_record(record: Seq<u8>) -> Option<Parsed>;

/// Body length given by a record's header.
pub open spec fn header_body_len(record: Seq<u8>) -> int {
    record[3] as int * 256 + record[4] as int
}

/// Whether a record is shorter than its header, or than the body length its
/// header gives.
pub open spec fn short_record(record: Seq<u8>) -> bool {
    record.len() < 5 || record.len() < 5 + header_body_len(record)
}

/// Whether a record's header gives the alert type and a 3.x version.
pub open spec fn alert_header(record: Seq<u8>) -> bool {
    record.len() >= 5 && record[0] == ALERT && record[1] == 3
}

/// What a record with an alert header parses to: an alert exactly when the
/// header gives a body of two bytes and both are present.
pub open spec fn alert_record(record: Seq<u8>) -> Option<Parsed> {
    if header_body_len(record) == 2 && record.len() >= 7 {
        Some(Parsed::Alert { level: record[5], description: record[6] })
    } else {
        None
    }
}

/// Relies on rustls' `Message::build_alert` and the encoding of its payload:
/// an alert body is its level code followed by its description code.
#[verifier::external_body]
fn alert_payload(level: u8, description: u8) -> (r: Vec<u8>)
    ensures
        r@ == seq![level, description],
{
    let message = Message::build_alert(AlertLevel::from(level), AlertDescription::from(description));
    PlainMessage::from(message).payload.bytes().to_vec()
}

/// Relies on rustls' `OutboundOpaqueMessage::read` and `Message::try_from`,
/// which parse a record header and then its payload. A record shorter than
/// its header, or than the body length the header gives, does not parse. A
/// header of type alert and version 3.x yields an alert exactly when the body
/// length it gives is two and those two bytes are present.
#[verifier::external_body]
fn parse_record(buf: &[u8]) -> (r: Option<Parsed>)
    ensures
        r == parsed_record(buf@),
        short_record(buf@) ==> r is None,
        alert_header(buf@) ==> r == alert_record(buf@),
        r matches Some(Parsed::Alert { .. }) ==> buf@.len() > 0 && buf@[0] == ALERT,
        r matches Some(Parsed::Other { content_type }) ==> buf@.len() > 0 && content_type
            == buf@[0] && content_type != ALERT,
{
    let opaque = match OutboundOpaqueMessage::read(&mut Reader::init(buf)) {
        Ok(m) => m,
        Err(_) => return None,
    };
    match Message::try_from(opaque.into_plain_message()) {
        Ok(Message { payload: MessagePayload::Alert(a), .. }) => Some(
            Parsed::Alert { level: u8::from(a.level), description: u8::from(a.description) },
        ),
        Ok(m) => Some(Parsed::Other { content_type: u8::from(m.payload.content_type()) }),
        Err(_) => None,
    }
}

/// Wire code of a severity.
pub open spec fn level_code(level: Level) -> u8 {
    match level {
        Level::Warning => LEVEL_WARNING,
        Level::Fatal => LEVEL_FATAL,
    }
}

/// Wire code of a description.
pub open spec fn alert_code(alert: Alert) -> u8 {
    match alert {
        Alert::CloseNotify => CLOSE_NOTIFY,
        Alert::Other(c) => c,
    }
}

/// What a parsed record means to the stream: an alert's level is fatal for
/// the fatal code and a warning otherwise; its description is close_notify
/// for code zero; application data is an error, any other record type is not
/// an alert, and a record that did not parse is malformed.
pub open spec fn spec_classify(parsed: Option<Parsed>) -> Result<Option<(Level, Alert)>, CheckError> {
    match parsed {
        None => Err(CheckError::Malformed),
        Some(Parsed::Alert { level, description }) => Ok(
            Some(
                (
                    if level == LEVEL_FATAL {
                        Level::Fatal
                    } else {
                        Level::Warning
                    },
                    if description == CLOSE_NOTIFY {
                        Alert::CloseNotify
                    } else {
                        Alert::Other(description)
                    },
                ),
            ),
        ),
        Some(Parsed::Other { content_type }) => if content_type == APPLICATION_DATA {
            Err(CheckError::ApplicationData)
        } else {
            Ok(None)
        },
    }
}

/// Interprets a parsed record.
pub fn classify(parsed: Option<Parsed>) -> (r: Result<Option<(Level, Alert)>, CheckError>)
    ensures
        r == spec_classify(parsed),
{
    match parsed {
        None => Err(CheckError::Malformed),
        Some(Parsed::Alert { level, description }) => {
            let level = if level == LEVEL_FATAL {
                Level::Fatal
            } else {
                Level::Warning
            };
            let alert = if description == CLOSE_NOTIFY {
                Alert::CloseNotify
            } else {
                Alert::Other(description)
            };
            Ok(Some((level, alert)))
        },
        Some(Parsed::Other { content_type }) => if content_type == APPLICATION_DATA {
            Err(CheckError::ApplicationData)
        } else {
            Ok(None)
        },
    }
}

/// The alert codec of rustls.
#[derive(Debug)]
pub struct Rustls;

impl Record for Rustls {
    open spec fn encoded(level: Level, alert: Alert) -> Seq<u8> {
        seq![level_code(level), alert_code(alert)]
    }

    open spec fn decoded(record: Seq<u8>) -> Result<Option<(Level, Alert)>, CheckError> {
        if short_record(record) {
            Err(CheckError::Malformed)
        } else if alert_header(record) {
            spec_classify(alert_record(record))
        } else {
            spec_classify(parsed_record(record))
        }
    }

    fn build(level: Level, alert: Alert) -> (r: Vec<u8>) {
        let level = match level {
            Level::Warning => LEVEL_WARNING,
            Level::Fatal => LEVEL_FATAL,
        };
        let description = match alert {
            Alert::CloseNotify => CLOSE_NOTIFY,
            Alert::Other(c) => c,
        };
        alert_payload(level, description)
    }

    fn check(buf: &[u8]) -> (r: Result<Option<(Level, Alert)>, CheckError>) {
        classify(parse_record(buf))
    }
}

/// An alert built by this codec, framed as the kernel delivers it out of
/// band, decodes to the severity and description it was built from. The one
/// exception is `Alert::Other(0)`, whose code is that of close_notify.
pub proof fn lemma_alert_round_trip(level: Level, alert: Alert)
    requires
        alert != Alert::Other(0),
    ensures
        Rustls::decoded(framed(ALERT, Rustls::encoded(level, alert))) == Ok::<
            Option<(Level, Alert)>,
            CheckError,
        >(Some((level, alert))),
{
    let record = framed(ALERT, Rustls::encoded(level, alert));
    assert((2u16 >> 8u16) as u8 == 0u8 && 2u16 as u8 == 2u8) by (bit_vector);
    assert(record.len() == 7);
    assert(record[0] == ALERT && record[1] == 3 && record[3] == 0 && record[4] == 2);
    assert(record[5] == level_code(level) && record[6] == alert_code(alert));
}

} // verus!
