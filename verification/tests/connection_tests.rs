use libpq::connection::{
    connect_outcome, consume_input_outcome, creation_error, flush_outcome, nonblocking_outcome,
    param_count, pq_error_message, pq_ssl_attributes, pq_true, send_outcome,
    setnonblocking_outcome, ssl_in_use, ConnectionStatus, PipelineStatus, TransactionStatus,
};

#[test]
fn connection_status_codes_round_trip() {
    for code in 0u32..14 {
        let status = ConnectionStatus::from_code(code).unwrap();
        assert_eq!(status.code(), code);
    }
    assert_eq!(ConnectionStatus::from_code(14), None);
    assert_eq!(ConnectionStatus::from_code(15), None);
    assert_eq!(ConnectionStatus::from_code(0), Some(ConnectionStatus::Okay));
    assert_eq!(ConnectionStatus::from_code(13), Some(ConnectionStatus::CheckStandby));
}

#[test]
fn connection_status_names() {
    assert_eq!(ConnectionStatus::Okay.name(), "Ok");
    assert_eq!(ConnectionStatus::Bad.name(), "Bad");
    assert_eq!(ConnectionStatus::AwaitingResponse.name(), "AwaitingResponse");
    assert_eq!(ConnectionStatus::CheckStandby.name(), "CheckStandby");
}

#[test]
fn transaction_status_codes_and_names() {
    for code in 0u32..5 {
        assert_eq!(TransactionStatus::from_code(code).unwrap().code(), code);
    }
    assert_eq!(TransactionStatus::from_code(5), None);
    assert_eq!(TransactionStatus::from_code(2), Some(TransactionStatus::InTransaction));
    assert_eq!(TransactionStatus::Idle.name(), "Idle");
    assert_eq!(TransactionStatus::InError.name(), "InError");
    assert_eq!(TransactionStatus::Unknown.name(), "Unknown");
}

#[test]
fn pipeline_status_codes() {
    assert_eq!(PipelineStatus::from_code(0), Some(PipelineStatus::Off));
    assert_eq!(PipelineStatus::from_code(1), Some(PipelineStatus::On));
    assert_eq!(PipelineStatus::from_code(2), Some(PipelineStatus::Aborted));
    assert_eq!(PipelineStatus::from_code(3), None);
    assert_eq!(PipelineStatus::Aborted.code(), 2);
}

#[test]
fn boolean_return_codes() {
    assert!(pq_true(1));
    assert!(!pq_true(0));
    assert!(!pq_true(-1));
    assert!(ssl_in_use(1));
    assert!(ssl_in_use(7));
    assert!(!ssl_in_use(0));
}

#[test]
fn consume_input_outcomes() {
    assert!(consume_input_outcome(1, None).is_ok());
    let e = consume_input_outcome(0, Some("connection lost".to_string())).unwrap_err();
    assert_eq!(e.message, "connection lost");
    let e = consume_input_outcome(0, None).unwrap_err();
    assert_eq!(e.message, "Unknown error");
}

#[test]
fn setnonblocking_outcomes() {
    assert!(setnonblocking_outcome(0, None).is_ok());
    let e = setnonblocking_outcome(-1, Some("nope".to_string())).unwrap_err();
    assert_eq!(e.message, "nope");
}

#[test]
fn flush_outcomes() {
    assert_eq!(flush_outcome(0, None).unwrap(), true);
    assert_eq!(flush_outcome(1, None).unwrap(), false);
    let e = flush_outcome(-1, Some("flush failed".to_string())).unwrap_err();
    assert_eq!(e.message, "flush failed");
    let e = flush_outcome(2, None).unwrap_err();
    assert_eq!(e.message, "Unknown error");
}

#[test]
fn send_outcomes() {
    assert!(send_outcome(1, None).is_ok());
    let e = send_outcome(0, Some("another command is already in progress".to_string()))
        .unwrap_err();
    assert_eq!(e.message, "another command is already in progress");
}

#[test]
fn param_counts() {
    assert_eq!(param_count(0), 0);
    assert_eq!(param_count(3), 3);
    assert_eq!(param_count(i32::MAX as usize), i32::MAX);
}

#[test]
fn connect_outcomes() {
    assert!(connect_outcome(ConnectionStatus::Okay, None).is_ok());
    let e = connect_outcome(ConnectionStatus::Bad, Some("could not connect".to_string()))
        .unwrap_err();
    assert_eq!(e.message, "could not connect");
    let e = connect_outcome(ConnectionStatus::Started, None).unwrap_err();
    assert_eq!(e.message, "Unknown error");
    assert_eq!(creation_error().message, "Unable to create connection");
}

#[test]
fn nonblocking_outcomes() {
    assert!(nonblocking_outcome(true).is_ok());
    assert_eq!(
        nonblocking_outcome(false).unwrap_err().message,
        "Unable to set non-blocking status"
    );
}

#[test]
fn error_messages() {
    assert_eq!(pq_error_message(None), None);
    assert_eq!(pq_error_message(Some(vec![])), None);
    assert_eq!(
        pq_error_message(Some(b"  FATAL: role does not exist\n".to_vec())),
        Some("FATAL: role does not exist".to_string())
    );
    assert_eq!(
        pq_error_message(Some(vec![0xc3, 0x28])),
        Some("Unable to decode error message".to_string())
    );
    // only whitespace: not empty, so it is trimmed to nothing
    assert_eq!(pq_error_message(Some(b" \n".to_vec())), Some(String::new()));
}

#[test]
fn ssl_attributes() {
    let entries = vec![
        (b"library".to_vec(), Some(b"OpenSSL".to_vec())),
        (b"key_bits".to_vec(), None),
        (b"protocol".to_vec(), Some(b"TLSv1.3".to_vec())),
    ];
    let attributes = pq_ssl_attributes(&entries).unwrap();
    assert_eq!(
        attributes,
        vec![
            ("library".to_string(), "OpenSSL".to_string()),
            ("protocol".to_string(), "TLSv1.3".to_string()),
        ]
    );
    assert!(pq_ssl_attributes(&vec![]).unwrap().is_empty());
}

#[test]
fn ssl_attributes_with_invalid_utf8() {
    let entries = vec![
        (b"library".to_vec(), Some(b"OpenSSL".to_vec())),
        (b"cipher".to_vec(), Some(vec![0xff])),
    ];
    let e = pq_ssl_attributes(&entries).unwrap_err();
    assert_eq!(e.message, "Error decoding UTF-8 string");
    let entries = vec![(vec![0xfe], Some(b"x".to_vec()))];
    assert!(pq_ssl_attributes(&entries).is_err());
    // a name that is not UTF-8 but has no value is left out, not decoded
    let entries = vec![(vec![0xfe], None)];
    assert!(pq_ssl_attributes(&entries).unwrap().is_empty());
}

#[test]
fn statuses_from_any_libpq_code() {
    assert_eq!(ConnectionStatus::from_libpq(0), ConnectionStatus::Okay);
    assert_eq!(ConnectionStatus::from_libpq(13), ConnectionStatus::CheckStandby);
    assert_eq!(ConnectionStatus::from_libpq(14), ConnectionStatus::Bad);
    assert_eq!(ConnectionStatus::from_libpq(15), ConnectionStatus::Bad);
    assert_eq!(TransactionStatus::from_libpq(1), TransactionStatus::Active);
    assert_eq!(TransactionStatus::from_libpq(9), TransactionStatus::Unknown);
    assert_eq!(PipelineStatus::from_libpq(1), PipelineStatus::On);
    assert_eq!(PipelineStatus::from_libpq(7), PipelineStatus::Aborted);
}
