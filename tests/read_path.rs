use ktls::cmsg::{Ancillary, ALERT, HEADER_LENGTH, SOL_TLS, TLS_GET_RECORD_TYPE};
use ktls::codec::CheckError;
use ktls::stream::{ReadAction, ReadError, ReadEvent, ReadPhase, SCRATCH_LEN};
use ktls::{KtlsStream, Rustls};

#[derive(Debug, PartialEq)]
struct Socket {
    id: u32,
    sent: Vec<Vec<u8>>,
}

fn stream() -> KtlsStream<Socket, Rustls> {
    match KtlsStream::new(Socket { id: 1, sent: Vec::new() }, Ok(())) {
        Ok(s) => s,
        Err(_) => panic!("setup cannot fail when the options were set"),
    }
}

fn alert_received(level: u8, description: u8) -> ReadEvent {
    let mut record = vec![0u8; SCRATCH_LEN];
    record[HEADER_LENGTH] = level;
    record[HEADER_LENGTH + 1] = description;
    ReadEvent::Received {
        record,
        len: 2,
        entry: Some(Ancillary { level: SOL_TLS, kind: TLS_GET_RECORD_TYPE, data: ALERT }),
        truncated: false,
    }
}

#[test]
fn plain_data_is_returned_as_read() {
    let mut s = stream();
    let buf = [7u8; 10];
    assert!(matches!(s.begin_read(), ReadAction::Read));
    assert!(matches!(s.on_event(ReadEvent::Data(10)), ReadAction::Done(Ok(10))));
    assert_eq!(buf, [7u8; 10]);
    assert_eq!(s.phase(), ReadPhase::Idle);
    assert!(!s.is_shutdown());
}

#[test]
fn end_of_file_passes_through() {
    let mut s = stream();
    s.begin_read();
    assert!(matches!(s.on_event(ReadEvent::Data(0)), ReadAction::Done(Ok(0))));
}

#[test]
fn fatal_close_notify_is_reciprocated_once() {
    let mut s = stream();
    let mut sends = 0;
    let mut action = s.begin_read();
    let mut events = vec![ReadEvent::OutOfBand, alert_received(2, 0)].into_iter();
    let result = loop {
        action = match action {
            ReadAction::Read | ReadAction::Receive => s.on_event(events.next().unwrap()),
            ReadAction::Send(record) => {
                sends += 1;
                assert_eq!(record.record_type, 0x15);
                assert_eq!(record.payload, vec![2, 0]);
                s.get_mut().sent.push(record.payload);
                s.on_event(ReadEvent::Sent)
            }
            ReadAction::Done(r) => break r,
        };
    };
    assert_eq!(result, Ok(0));
    assert_eq!(sends, 1);
    assert!(s.is_shutdown());
    assert_eq!(s.get_ref().sent, vec![vec![2u8, 0]]);
}

#[test]
fn failed_reciprocation_still_ends_at_eof() {
    let mut s = stream();
    s.begin_read();
    s.on_event(ReadEvent::OutOfBand);
    assert!(matches!(s.on_event(alert_received(2, 0)), ReadAction::Send(_)));
    assert!(matches!(s.on_event(ReadEvent::Failed), ReadAction::Done(Ok(0))));
    assert!(s.is_shutdown());
}

#[test]
fn other_fatal_alert_ends_at_eof_without_reply() {
    let mut s = stream();
    s.begin_read();
    s.on_event(ReadEvent::OutOfBand);
    assert!(matches!(s.on_event(alert_received(2, 80)), ReadAction::Done(Ok(0))));
    assert!(!s.is_shutdown());
}

#[test]
fn warning_leads_to_one_retry() {
    let mut s = stream();
    s.begin_read();
    assert!(matches!(s.on_event(ReadEvent::OutOfBand), ReadAction::Receive));
    assert!(matches!(s.on_event(alert_received(1, 90)), ReadAction::Read));
    assert_eq!(s.phase(), ReadPhase::Retrying);
    assert!(matches!(s.on_event(ReadEvent::Data(4)), ReadAction::Done(Ok(4))));
}

#[test]
fn second_signal_after_retry_is_not_retried() {
    let mut s = stream();
    s.begin_read();
    s.on_event(ReadEvent::OutOfBand);
    assert!(matches!(s.on_event(alert_received(1, 90)), ReadAction::Read));
    assert!(matches!(s.on_event(ReadEvent::OutOfBand), ReadAction::Done(Err(ReadError::Io))));
    assert_eq!(s.phase(), ReadPhase::Idle);
}

#[test]
fn non_alert_record_leads_to_a_retry() {
    let mut s = stream();
    s.begin_read();
    s.on_event(ReadEvent::OutOfBand);
    let mut record = vec![0u8; SCRATCH_LEN];
    record[HEADER_LENGTH] = 1;
    let event = ReadEvent::Received {
        record,
        len: 1,
        entry: Some(Ancillary { level: SOL_TLS, kind: TLS_GET_RECORD_TYPE, data: 0x14 }),
        truncated: false,
    };
    assert!(matches!(s.on_event(event), ReadAction::Read));
}

#[test]
fn read_errors_are_propagated() {
    let mut s = stream();
    s.begin_read();
    assert!(matches!(s.on_event(ReadEvent::Failed), ReadAction::Done(Err(ReadError::Io))));
    s.begin_read();
    s.on_event(ReadEvent::OutOfBand);
    assert!(matches!(s.on_event(ReadEvent::Failed), ReadAction::Done(Err(ReadError::Io))));
}

#[test]
fn control_channel_failures_fail_the_read() {
    let mut s = stream();
    s.begin_read();
    s.on_event(ReadEvent::OutOfBand);
    let no_entry = ReadEvent::Received {
        record: vec![0u8; SCRATCH_LEN],
        len: 2,
        entry: None,
        truncated: false,
    };
    assert!(matches!(s.on_event(no_entry), ReadAction::Done(Err(ReadError::NotRecord))));
    s.begin_read();
    s.on_event(ReadEvent::OutOfBand);
    let malformed = alert_received(2, 0);
    let malformed = match malformed {
        ReadEvent::Received { record, entry, .. } => {
            ReadEvent::Received { record, len: 3, entry, truncated: false }
        }
        other => other,
    };
    assert!(matches!(
        s.on_event(malformed),
        ReadAction::Done(Err(ReadError::Decode(CheckError::Malformed)))
    ));
    s.begin_read();
    s.on_event(ReadEvent::OutOfBand);
    let too_long = ReadEvent::Received { record: vec![0u8; 8], len: 4, entry: None, truncated: false };
    assert!(matches!(s.on_event(too_long), ReadAction::Done(Err(ReadError::Oversized))));
}

#[test]
fn events_out_of_turn_are_rejected() {
    let mut s = stream();
    assert!(matches!(s.on_event(ReadEvent::Data(3)), ReadAction::Done(Err(ReadError::Unexpected))));
    s.begin_read();
    assert!(matches!(s.on_event(ReadEvent::Sent), ReadAction::Done(Err(ReadError::Unexpected))));
}

#[test]
fn close_notify_is_sent_at_most_once_on_shutdown() {
    let mut s = stream();
    let record = s.begin_shutdown().unwrap();
    assert_eq!(record.record_type, 0x15);
    assert_eq!(record.payload, vec![2, 0]);
    s.close_notify_sent();
    assert!(s.begin_shutdown().is_none());
    assert_eq!(s.close_notify_record().payload, vec![2, 0]);
}

#[test]
fn failed_setup_returns_the_same_resource() {
    let socket = Socket { id: 42, sent: vec![vec![1, 2, 3]] };
    let error = std::io::Error::from_raw_os_error(22);
    match KtlsStream::<Socket, Rustls>::new(socket, Err(error)) {
        Ok(_) => panic!("setup must fail"),
        Err(e) => {
            assert_eq!(e.error.raw_os_error(), Some(22));
            assert_eq!(e.inner, Socket { id: 42, sent: vec![vec![1, 2, 3]] });
        }
    }
}

#[test]
fn successful_setup_wraps_the_resource() {
    let s = stream();
    assert_eq!(s.get_ref().id, 1);
    assert_eq!(s.phase(), ReadPhase::Idle);
    assert_eq!(s.into_inner(), Socket { id: 1, sent: Vec::new() });
}

#[test]
fn truncated_record_fails_the_read() {
    let mut s = stream();
    s.begin_read();
    s.on_event(ReadEvent::OutOfBand);
    let cut = match alert_received(2, 0) {
        ReadEvent::Received { record, len, entry, .. } => {
            ReadEvent::Received { record, len, entry, truncated: true }
        }
        other => other,
    };
    assert!(matches!(s.on_event(cut), ReadAction::Done(Err(ReadError::Oversized))));
    assert!(!s.is_shutdown());
}

#[test]
fn failed_setup_returns_resource_and_session_together() {
    let socket = Socket { id: 7, sent: Vec::new() };
    let session = String::from("negotiated session");
    let error = std::io::Error::from_raw_os_error(95);
    match KtlsStream::<(Socket, String), Rustls>::new((socket, session), Err(error)) {
        Ok(_) => panic!("setup must fail"),
        Err(e) => {
            assert_eq!(e.error.raw_os_error(), Some(95));
            assert_eq!(e.inner.0, Socket { id: 7, sent: Vec::new() });
            assert_eq!(e.inner.1, "negotiated session");
        }
    }
}
