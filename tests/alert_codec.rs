use ktls::cmsg::{frame_record, Ancillary, ALERT, SOL_TLS, TLS_GET_RECORD_TYPE};
use ktls::codec::{Alert, CheckError, Level, Record};
use ktls::rustls_record::{classify, Parsed};
use ktls::Rustls;

fn framed_alert(body: &[u8]) -> Vec<u8> {
    let mut record = vec![0u8; 5];
    record.extend_from_slice(body);
    let entry = Some(Ancillary { level: SOL_TLS, kind: TLS_GET_RECORD_TYPE, data: ALERT });
    let total = frame_record(&mut record, body.len(), entry).unwrap();
    record.truncate(total);
    record
}

#[test]
fn builds_level_then_description() {
    assert_eq!(Rustls::build(Level::Fatal, Alert::CloseNotify), vec![2, 0]);
    assert_eq!(Rustls::build(Level::Warning, Alert::Other(80)), vec![1, 80]);
    assert_eq!(Rustls::build(Level::Fatal, Alert::Other(200)), vec![2, 200]);
}

#[test]
fn built_alerts_decode_to_themselves() {
    let levels = [Level::Warning, Level::Fatal];
    let alerts = [Alert::CloseNotify, Alert::Other(10), Alert::Other(40), Alert::Other(80), Alert::Other(255)];
    for level in levels {
        for alert in alerts {
            let record = framed_alert(&Rustls::build(level, alert));
            assert_eq!(Rustls::check(&record), Ok(Some((level, alert))));
        }
    }
}

#[test]
fn unknown_level_decodes_as_warning() {
    assert_eq!(
        Rustls::check(&[0x15, 3, 3, 0, 2, 7, 0]),
        Ok(Some((Level::Warning, Alert::CloseNotify)))
    );
}

#[test]
fn malformed_alerts_are_errors() {
    assert_eq!(Rustls::check(&[0x15, 3, 3, 0, 1, 2]), Err(CheckError::Malformed));
    assert_eq!(Rustls::check(&[0x15, 3, 3, 0, 3, 2, 0, 0]), Err(CheckError::Malformed));
    assert_eq!(Rustls::check(&[0x15, 3, 3, 0, 2, 2]), Err(CheckError::Malformed));
    assert_eq!(Rustls::check(&[0x15, 3]), Err(CheckError::Malformed));
    assert_eq!(Rustls::check(&[]), Err(CheckError::Malformed));
}

#[test]
fn other_record_types_are_not_alerts() {
    assert_eq!(Rustls::check(&[0x14, 3, 3, 0, 1, 1]), Ok(None));
}

#[test]
fn application_data_is_refused() {
    assert_eq!(Rustls::check(&[0x17, 3, 3, 0, 2, 0x41, 0x42]), Err(CheckError::ApplicationData));
}

#[test]
fn classification_of_parsed_records() {
    assert_eq!(classify(None), Err(CheckError::Malformed));
    assert_eq!(
        classify(Some(Parsed::Alert { level: 2, description: 0 })),
        Ok(Some((Level::Fatal, Alert::CloseNotify)))
    );
    assert_eq!(
        classify(Some(Parsed::Alert { level: 1, description: 20 })),
        Ok(Some((Level::Warning, Alert::Other(20))))
    );
    assert_eq!(
        classify(Some(Parsed::Alert { level: 9, description: 20 })),
        Ok(Some((Level::Warning, Alert::Other(20))))
    );
    assert_eq!(classify(Some(Parsed::Other { content_type: 0x16 })), Ok(None));
    assert_eq!(
        classify(Some(Parsed::Other { content_type: 0x17 })),
        Err(CheckError::ApplicationData)
    );
}

#[test]
fn records_shorter_than_their_header_say_are_malformed() {
    assert_eq!(Rustls::check(&[0x16, 3, 3, 0, 10, 1, 2]), Err(CheckError::Malformed));
    assert_eq!(Rustls::check(&[0x14, 3, 3, 0]), Err(CheckError::Malformed));
}
