use libpq::conninfo::Conninfo;

fn option(key: &str, value: Option<&[u8]>) -> (Vec<u8>, Option<Vec<u8>>) {
    (key.as_bytes().to_vec(), value.map(|v| v.to_vec()))
}

fn pairs(info: &Conninfo) -> Vec<(String, String)> {
    info.iter().to_vec()
}

#[test]
fn options_without_value_are_left_out() {
    let options = vec![
        option("host", Some(b"localhost")),
        option("password", None),
        option("port", Some(b"5432")),
    ];
    let info = Conninfo::from_options(&options).unwrap();
    assert_eq!(
        pairs(&info),
        vec![
            ("host".to_string(), "localhost".to_string()),
            ("port".to_string(), "5432".to_string()),
        ]
    );
}

#[test]
fn options_with_invalid_utf8_are_replaced() {
    let options = vec![option("user", Some(&[0x66, 0xff, 0x6f]))];
    let info = Conninfo::from_options(&options).unwrap();
    assert_eq!(pairs(&info), vec![("user".to_string(), "f\u{FFFD}o".to_string())]);
}

#[test]
fn parse_result_success() {
    let parsed = Some(vec![option("dbname", Some(b"test"))]);
    let info = Conninfo::from_parse_result(parsed, None).unwrap();
    assert_eq!(pairs(&info), vec![("dbname".to_string(), "test".to_string())]);
}

#[test]
fn parse_result_error_with_message() {
    let err = Conninfo::from_parse_result(None, Some(b"missing \"=\" after \"foo\"".to_vec()))
        .unwrap_err();
    assert_eq!(err.message, "Error parsing DSN string: missing \"=\" after \"foo\"");
}

#[test]
fn parse_result_error_without_message() {
    let err = Conninfo::from_parse_result(None, None).unwrap_err();
    assert_eq!(err.message, "Unknown error parsing DSN string");
}

#[test]
fn connection_params_put_encoding_first() {
    let info = Conninfo::from_pairs(vec![
        ("host".to_string(), "db".to_string()),
        ("client_encoding".to_string(), "LATIN1".to_string()),
        ("user".to_string(), "me".to_string()),
    ]);
    let (keys, values) = info.connection_params();
    assert_eq!(keys, vec!["client_encoding", "host", "user"]);
    assert_eq!(values, vec!["UTF8", "db", "me"]);
}

#[test]
fn connection_params_of_empty_conninfo() {
    let info = Conninfo::default();
    assert!(info.iter().is_empty());
    let (keys, values) = info.connection_params();
    assert_eq!(keys, vec!["client_encoding"]);
    assert_eq!(values, vec!["UTF8"]);
}
