use libpq::response::{
    missing_result_error, pq_cmd_status, pq_cmd_tuples, pq_getvalue, pq_result_error_message,
    response_table, result_status_line, ResponseStatus,
};

#[test]
fn response_status_codes_round_trip() {
    for code in 0u32..12 {
        assert_eq!(ResponseStatus::from_code(code).unwrap().code(), code);
    }
    assert_eq!(ResponseStatus::from_code(12), None);
    assert_eq!(ResponseStatus::from_code(2), Some(ResponseStatus::TuplesOk));
    assert_eq!(ResponseStatus::from_code(7), Some(ResponseStatus::FatalError));
}

#[test]
fn response_status_names() {
    assert_eq!(ResponseStatus::TuplesOk.name(), "TuplesOk");
    assert_eq!(ResponseStatus::PipelineAborted.name(), "PipelineAborted");
    assert_eq!(ResponseStatus::CommandOk.libpq_name(), "PGRES_COMMAND_OK");
    assert_eq!(ResponseStatus::SingleTuple.libpq_name(), "PGRES_SINGLE_TUPLE");
}

#[test]
fn status_lines() {
    assert_eq!(result_status_line(None), "DONE");
    assert_eq!(
        result_status_line(Some(ResponseStatus::TuplesOk)),
        "RESULT STATUS PGRES_TUPLES_OK"
    );
    assert_eq!(missing_result_error().message, "Unable to create connection");
}

#[test]
fn result_error_messages() {
    assert_eq!(pq_result_error_message(None), None);
    assert_eq!(pq_result_error_message(Some(vec![])), None);
    assert_eq!(pq_result_error_message(Some(b"  \n".to_vec())), None);
    assert_eq!(
        pq_result_error_message(Some(b"ERROR:  syntax error\n".to_vec())),
        Some("ERROR:  syntax error".to_string())
    );
    assert_eq!(
        pq_result_error_message(Some(vec![b'x', 0xff, b'\n'])),
        Some("x\u{FFFD}".to_string())
    );
}

#[test]
fn command_status_and_tuples() {
    assert_eq!(pq_cmd_status(None), "");
    assert_eq!(pq_cmd_status(Some(b"INSERT 0 3".to_vec())), "INSERT 0 3");
    assert_eq!(pq_cmd_tuples(None), 0);
    assert_eq!(pq_cmd_tuples(Some(b"3".to_vec())), 3);
    assert_eq!(pq_cmd_tuples(Some(b"".to_vec())), 0);
    assert_eq!(pq_cmd_tuples(Some(b"abc".to_vec())), 0);
    assert_eq!(pq_cmd_tuples(Some(b"2147483648".to_vec())), 0);
    assert_eq!(pq_cmd_tuples(Some(b"2147483647".to_vec())), 2147483647);
}

#[test]
fn field_values() {
    assert_eq!(pq_getvalue(true, b"ignored").unwrap(), None);
    assert_eq!(pq_getvalue(false, b"42").unwrap(), Some("42".to_string()));
    assert_eq!(pq_getvalue(false, b"").unwrap(), Some(String::new()));
    let e = pq_getvalue(false, &[0xff, 0xfe]).unwrap_err();
    assert_eq!(e.message, "Error decoding UTF-8 string");
}

#[test]
fn table_of_a_result() {
    let fields = vec![(Some(b"id".to_vec()), 23u32), (Some(b"name".to_vec()), 25u32)];
    let cells = vec![
        vec![(false, b"1".to_vec()), (false, b"alice".to_vec())],
        vec![(false, b"2".to_vec()), (true, vec![])],
    ];
    let table = response_table(
        ResponseStatus::TuplesOk,
        Some(b"SELECT 2".to_vec()),
        Some(b"2".to_vec()),
        &fields,
        &cells,
    )
    .unwrap();
    assert_eq!(table.status, "TuplesOk");
    assert_eq!(table.command, "SELECT 2");
    assert_eq!(table.row_count, 2);
    assert_eq!(table.fields.len(), 2);
    assert_eq!(table.fields[0].name, "id");
    assert_eq!(table.fields[0].type_oid, 23);
    assert_eq!(table.fields[1].name, "name");
    assert_eq!(table.fields[1].type_oid, 25);
    assert_eq!(
        table.rows,
        vec![
            vec![Some("1".to_string()), Some("alice".to_string())],
            vec![Some("2".to_string()), None],
        ]
    );
}

#[test]
fn table_of_a_command() {
    let table = response_table(ResponseStatus::CommandOk, None, None, &vec![], &vec![]).unwrap();
    assert_eq!(table.status, "CommandOk");
    assert_eq!(table.command, "");
    assert_eq!(table.row_count, 0);
    assert!(table.fields.is_empty());
    assert!(table.rows.is_empty());
}

#[test]
fn table_with_undecodable_value() {
    let fields = vec![(Some(b"data".to_vec()), 17u32)];
    let cells = vec![vec![(false, vec![0xc3])]];
    let e = response_table(ResponseStatus::TuplesOk, None, None, &fields, &cells).unwrap_err();
    assert_eq!(e.message, "Error decoding UTF-8 string");
}

#[test]
fn result_statuses_from_any_libpq_code() {
    assert_eq!(ResponseStatus::from_libpq(2), ResponseStatus::TuplesOk);
    assert_eq!(ResponseStatus::from_libpq(11), ResponseStatus::PipelineAborted);
    assert_eq!(ResponseStatus::from_libpq(12), ResponseStatus::BadResponse);
}
