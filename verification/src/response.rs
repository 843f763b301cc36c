//! What the library makes of LibPQ's answers about a result (`PGresult`).

use vstd::prelude::*;
use vstd::string::*;
use vstd::utf8::*;
use crate::errors::{PQError, PQResult};
use crate::ffi::{to_string, to_string_lossy, utf8_lossy};
use crate::text::{parse_i32, parse_i32_spec, trim, trim_string, upper_snake};

verus! {

/// The result status of the command.
///
/// See [`PQresultStatus`](https://www.postgresql.org/docs/current/libpq-exec.html#LIBPQ-PQRESULTSTATUS)
#[derive(Debug, Copy, Clone, PartialEq, Eq, Structural)]
pub enum ResponseStatus {
    /// The string sent to the server was empty.
    EmptyQuery,
    /// Successful completion of a command returning no data.
    CommandOk,
    /// Successful completion of a command returning data.
    TuplesOk,
    /// Copy Out (from server) data transfer started.
    CopyOut,
    /// Copy In (to server) data transfer started.
    CopyIn,
    /// The server's response was not understood.
    BadResponse,
    /// A nonfatal error (a notice or warning) occurred.
    NonfatalError,
    /// A fatal error occurred.
    FatalError,
    /// Copy In/Out (to and from server) data transfer started.
    CopyBoth,
    /// The PGresult contains a single result tuple from the current command.
    SingleTuple,
    /// The PGresult represents a synchronization point in pipeline mode.
    PipelineSync,
    /// The PGresult represents a pipeline that has received an error from the server.
    PipelineAborted,
}

impl ResponseStatus {
    /// LibPQ's code for this status (`PGRES_EMPTY_QUERY` is 0, ...).
    pub open spec fn code_spec(self) -> u32 {
        match self {
            ResponseStatus::EmptyQuery => 0,
            ResponseStatus::CommandOk => 1,
            ResponseStatus::TuplesOk => 2,
            ResponseStatus::CopyOut => 3,
            ResponseStatus::CopyIn => 4,
            ResponseStatus::BadResponse => 5,
            ResponseStatus::NonfatalError => 6,
            ResponseStatus::FatalError => 7,
            ResponseStatus::CopyBoth => 8,
            ResponseStatus::SingleTuple => 9,
            ResponseStatus::PipelineSync => 10,
            ResponseStatus::PipelineAborted => 11,
        }
    }

    /// LibPQ's code for this status.
    pub fn code(&self) -> (c: u32)
        ensures
            c == self.code_spec(),
    {
        match self {
            ResponseStatus::EmptyQuery => 0,
            ResponseStatus::CommandOk => 1,
            ResponseStatus::TuplesOk => 2,
            ResponseStatus::CopyOut => 3,
            ResponseStatus::CopyIn => 4,
            ResponseStatus::BadResponse => 5,
            ResponseStatus::NonfatalError => 6,
            ResponseStatus::FatalError => 7,
            ResponseStatus::CopyBoth => 8,
            ResponseStatus::SingleTuple => 9,
            ResponseStatus::PipelineSync => 10,
            ResponseStatus::PipelineAborted => 11,
        }
    }

    /// The status with LibPQ's code `code` (what `PQresultStatus` returned),
    /// if there is one.
    pub fn from_code(code: u32) -> (r: Option<ResponseStatus>)
        ensures
            code < 12 ==> (r matches Some(s) && s.code_spec() == code),
            code >= 12 ==> r is None,
    {
        match code {
            0 => Some(ResponseStatus::EmptyQuery),
            1 => Some(ResponseStatus::CommandOk),
            2 => Some(ResponseStatus::TuplesOk),
            3 => Some(ResponseStatus::CopyOut),
            4 => Some(ResponseStatus::CopyIn),
            5 => Some(ResponseStatus::BadResponse),
            6 => Some(ResponseStatus::NonfatalError),
            7 => Some(ResponseStatus::FatalError),
            8 => Some(ResponseStatus::CopyBoth),
            9 => Some(ResponseStatus::SingleTuple),
            10 => Some(ResponseStatus::PipelineSync),
            11 => Some(ResponseStatus::PipelineAborted),
            _ => None,
        }
    }

    /// The status for LibPQ's code `code`; a status newer than this library
    /// (`PGRES_TUPLES_CHUNK`) reads as a bad response.
    pub fn from_libpq(code: u32) -> (s: ResponseStatus)
        ensures
            code < 12 ==> s.code_spec() == code,
            code >= 12 ==> s == ResponseStatus::BadResponse,
    {
        match ResponseStatus::from_code(code) {
            Some(s) => s,
            None => ResponseStatus::BadResponse,
        }
    }

    /// The name of this status, as `{:?}` writes it.
    pub open spec fn name_spec(self) -> Seq<char> {
        match self {
            ResponseStatus::EmptyQuery => "EmptyQuery"@,
            ResponseStatus::CommandOk => "CommandOk"@,
            ResponseStatus::TuplesOk => "TuplesOk"@,
            ResponseStatus::CopyOut => "CopyOut"@,
            ResponseStatus::CopyIn => "CopyIn"@,
            ResponseStatus::BadResponse => "BadResponse"@,
            ResponseStatus::NonfatalError => "NonfatalError"@,
            ResponseStatus::FatalError => "FatalError"@,
            ResponseStatus::CopyBoth => "CopyBoth"@,
            ResponseStatus::SingleTuple => "SingleTuple"@,
            ResponseStatus::PipelineSync => "PipelineSync"@,
            ResponseStatus::PipelineAborted => "PipelineAborted"@,
        }
    }

    /// The name of this status, as `{:?}` writes it.
    pub fn name(&self) -> (s: String)
        ensures
            s@ == self.name_spec(),
    {
        match self {
            ResponseStatus::EmptyQuery => String::from_str("EmptyQuery"),
            ResponseStatus::CommandOk => String::from_str("CommandOk"),
            ResponseStatus::TuplesOk => String::from_str("TuplesOk"),
            ResponseStatus::CopyOut => String::from_str("CopyOut"),
            ResponseStatus::CopyIn => String::from_str("CopyIn"),
            ResponseStatus::BadResponse => String::from_str("BadResponse"),
            ResponseStatus::NonfatalError => String::from_str("NonfatalError"),
            ResponseStatus::FatalError => String::from_str("FatalError"),
            ResponseStatus::CopyBoth => String::from_str("CopyBoth"),
            ResponseStatus::SingleTuple => String::from_str("SingleTuple"),
            ResponseStatus::PipelineSync => String::from_str("PipelineSync"),
            ResponseStatus::PipelineAborted => String::from_str("PipelineAborted"),
        }
    }

    /// LibPQ's own name for this status.
    pub open spec fn libpq_name_spec(self) -> Seq<char> {
        match self {
            ResponseStatus::EmptyQuery => "PGRES_EMPTY_QUERY"@,
            ResponseStatus::CommandOk => "PGRES_COMMAND_OK"@,
            ResponseStatus::TuplesOk => "PGRES_TUPLES_OK"@,
            ResponseStatus::CopyOut => "PGRES_COPY_OUT"@,
            ResponseStatus::CopyIn => "PGRES_COPY_IN"@,
            ResponseStatus::BadResponse => "PGRES_BAD_RESPONSE"@,
            ResponseStatus::NonfatalError => "PGRES_NONFATAL_ERROR"@,
            ResponseStatus::FatalError => "PGRES_FATAL_ERROR"@,
            ResponseStatus::CopyBoth => "PGRES_COPY_BOTH"@,
            ResponseStatus::SingleTuple => "PGRES_SINGLE_TUPLE"@,
            ResponseStatus::PipelineSync => "PGRES_PIPELINE_SYNC"@,
            ResponseStatus::PipelineAborted => "PGRES_PIPELINE_ABORTED"@,
        }
    }

    /// LibPQ's own name for this status.
    pub fn libpq_name(&self) -> (s: String)
        ensures
            s@ == self.libpq_name_spec(),
    {
        match self {
            ResponseStatus::EmptyQuery => String::from_str("PGRES_EMPTY_QUERY"),
            ResponseStatus::CommandOk => String::from_str("PGRES_COMMAND_OK"),
            ResponseStatus::TuplesOk => String::from_str("PGRES_TUPLES_OK"),
            ResponseStatus::CopyOut => String::from_str("PGRES_COPY_OUT"),
            ResponseStatus::CopyIn => String::from_str("PGRES_COPY_IN"),
            ResponseStatus::BadResponse => String::from_str("PGRES_BAD_RESPONSE"),
            ResponseStatus::NonfatalError => String::from_str("PGRES_NONFATAL_ERROR"),
            ResponseStatus::FatalError => String::from_str("PGRES_FATAL_ERROR"),
            ResponseStatus::CopyBoth => String::from_str("PGRES_COPY_BOTH"),
            ResponseStatus::SingleTuple => String::from_str("PGRES_SINGLE_TUPLE"),
            ResponseStatus::PipelineSync => String::from_str("PGRES_PIPELINE_SYNC"),
            ResponseStatus::PipelineAborted => String::from_str("PGRES_PIPELINE_ABORTED"),
        }
    }
}

/// Every result status has exactly one code.
pub proof fn response_status_codes_law(s: ResponseStatus)
    ensures
        s.code_spec() < 12,
        forall|t: ResponseStatus| t.code_spec() == s.code_spec() ==> t == s,
{
}

/// LibPQ's `ExecStatusType` constants in the order `libpq-fe.h` declares
/// them, so that each constant's value is its position.
pub open spec fn libpq_exec_statuses() -> Seq<Seq<char>> {
    seq![
        "PGRES_EMPTY_QUERY"@,
        "PGRES_COMMAND_OK"@,
        "PGRES_TUPLES_OK"@,
        "PGRES_COPY_OUT"@,
        "PGRES_COPY_IN"@,
        "PGRES_BAD_RESPONSE"@,
        "PGRES_NONFATAL_ERROR"@,
        "PGRES_FATAL_ERROR"@,
        "PGRES_COPY_BOTH"@,
        "PGRES_SINGLE_TUPLE"@,
        "PGRES_PIPELINE_SYNC"@,
        "PGRES_PIPELINE_ABORTED"@,
        "PGRES_TUPLES_CHUNK"@,
    ]
}

proof fn lemma_pgres_empty_query()
    ensures
        "PGRES_EMPTY_QUERY"@ == "PGRES_"@ + upper_snake("EmptyQuery"@),
{
    reveal_strlit("EmptyQuery");
    reveal_strlit("PGRES_EMPTY_QUERY");
    reveal_strlit("PGRES_");
    reveal_with_fuel(upper_snake, 16);
    assert("PGRES_EMPTY_QUERY"@ =~= "PGRES_"@ + upper_snake("EmptyQuery"@));
}

proof fn lemma_pgres_command_ok()
    ensures
        "PGRES_COMMAND_OK"@ == "PGRES_"@ + upper_snake("CommandOk"@),
{
    reveal_strlit("CommandOk");
    reveal_strlit("PGRES_COMMAND_OK");
    reveal_strlit("PGRES_");
    reveal_with_fuel(upper_snake, 16);
    assert("PGRES_COMMAND_OK"@ =~= "PGRES_"@ + upper_snake("CommandOk"@));
}

proof fn lemma_pgres_tuples_ok()
    ensures
        "PGRES_TUPLES_OK"@ == "PGRES_"@ + upper_snake("TuplesOk"@),
{
    reveal_strlit("TuplesOk");
    reveal_strlit("PGRES_TUPLES_OK");
    reveal_strlit("PGRES_");
    reveal_with_fuel(upper_snake, 16);
    assert("PGRES_TUPLES_OK"@ =~= "PGRES_"@ + upper_snake("TuplesOk"@));
}

proof fn lemma_pgres_copy_out()
    ensures
        "PGRES_COPY_OUT"@ == "PGRES_"@ + upper_snake("CopyOut"@),
{
    reveal_strlit("CopyOut");
    reveal_strlit("PGRES_COPY_OUT");
    reveal_strlit("PGRES_");
    reveal_with_fuel(upper_snake, 16);
    assert("PGRES_COPY_OUT"@ =~= "PGRES_"@ + upper_snake("CopyOut"@));
}

proof fn lemma_pgres_copy_in()
    ensures
        "PGRES_COPY_IN"@ == "PGRES_"@ + upper_snake("CopyIn"@),
{
    reveal_strlit("CopyIn");
    reveal_strlit("PGRES_COPY_IN");
    reveal_strlit("PGRES_");
    reveal_with_fuel(upper_snake, 16);
    assert("PGRES_COPY_IN"@ =~= "PGRES_"@ + upper_snake("CopyIn"@));
}

proof fn lemma_pgres_bad_response()
    ensures
        "PGRES_BAD_RESPONSE"@ == "PGRES_"@ + upper_snake("BadResponse"@),
{
    reveal_strlit("BadResponse");
    reveal_strlit("PGRES_BAD_RESPONSE");
    reveal_strlit("PGRES_");
    reveal_with_fuel(upper_snake, 16);
    assert("PGRES_BAD_RESPONSE"@ =~= "PGRES_"@ + upper_snake("BadResponse"@));
}

proof fn lemma_pgres_nonfatal_error()
    ensures
        "PGRES_NONFATAL_ERROR"@ == "PGRES_"@ + upper_snake("NonfatalError"@),
{
    reveal_strlit("NonfatalError");
    reveal_strlit("PGRES_NONFATAL_ERROR");
    reveal_strlit("PGRES_");
    reveal_with_fuel(upper_snake, 16);
    assert("PGRES_NONFATAL_ERROR"@ =~= "PGRES_"@ + upper_snake("NonfatalError"@));
}

proof fn lemma_pgres_fatal_error()
    ensures
        "PGRES_FATAL_ERROR"@ == "PGRES_"@ + upper_snake("FatalError"@),
{
    reveal_strlit("FatalError");
    reveal_strlit("PGRES_FATAL_ERROR");
    reveal_strlit("PGRES_");
    reveal_with_fuel(upper_snake, 16);
    assert("PGRES_FATAL_ERROR"@ =~= "PGRES_"@ + upper_snake("FatalError"@));
}

proof fn lemma_pgres_copy_both()
    ensures
        "PGRES_COPY_BOTH"@ == "PGRES_"@ + upper_snake("CopyBoth"@),
{
    reveal_strlit("CopyBoth");
    reveal_strlit("PGRES_COPY_BOTH");
    reveal_strlit("PGRES_");
    reveal_with_fuel(upper_snake, 16);
    assert("PGRES_COPY_BOTH"@ =~= "PGRES_"@ + upper_snake("CopyBoth"@));
}

proof fn lemma_pgres_single_tuple()
    ensures
        "PGRES_SINGLE_TUPLE"@ == "PGRES_"@ + upper_snake("SingleTuple"@),
{
    reveal_strlit("SingleTuple");
    reveal_strlit("PGRES_SINGLE_TUPLE");
    reveal_strlit("PGRES_");
    reveal_with_fuel(upper_snake, 16);
    assert("PGRES_SINGLE_TUPLE"@ =~= "PGRES_"@ + upper_snake("SingleTuple"@));
}

proof fn lemma_pgres_pipeline_sync()
    ensures
        "PGRES_PIPELINE_SYNC"@ == "PGRES_"@ + upper_snake("PipelineSync"@),
{
    reveal_strlit("PipelineSync");
    reveal_strlit("PGRES_PIPELINE_SYNC");
    reveal_strlit("PGRES_");
    reveal_with_fuel(upper_snake, 16);
    assert("PGRES_PIPELINE_SYNC"@ =~= "PGRES_"@ + upper_snake("PipelineSync"@));
}

proof fn lemma_pgres_pipeline_aborted()
    ensures
        "PGRES_PIPELINE_ABORTED"@ == "PGRES_"@ + upper_snake("PipelineAborted"@),
{
    reveal_strlit("PipelineAborted");
    reveal_strlit("PGRES_PIPELINE_ABORTED");
    reveal_strlit("PGRES_");
    reveal_with_fuel(upper_snake, 16);
    assert("PGRES_PIPELINE_ABORTED"@ =~= "PGRES_"@ + upper_snake("PipelineAborted"@));
}

/// A result status is LibPQ's status of the same name: its code is the value
/// of the `ExecStatusType` constant LibPQ names it by, and that constant is
/// `PGRES_` followed by the status's own (`{:?}`) name in upper snake case
/// (`FatalError` is `PGRES_FATAL_ERROR`, whose value is 7).
pub proof fn response_status_names_law(s: ResponseStatus)
    ensures
        s.code_spec() < libpq_exec_statuses().len(),
        libpq_exec_statuses()[s.code_spec() as int] == s.libpq_name_spec(),
        s.libpq_name_spec() == "PGRES_"@ + upper_snake(s.name_spec()),
{
    match s {
        ResponseStatus::EmptyQuery => lemma_pgres_empty_query(),
        ResponseStatus::CommandOk => lemma_pgres_command_ok(),
        ResponseStatus::TuplesOk => lemma_pgres_tuples_ok(),
        ResponseStatus::CopyOut => lemma_pgres_copy_out(),
        ResponseStatus::CopyIn => lemma_pgres_copy_in(),
        ResponseStatus::BadResponse => lemma_pgres_bad_response(),
        ResponseStatus::NonfatalError => lemma_pgres_nonfatal_error(),
        ResponseStatus::FatalError => lemma_pgres_fatal_error(),
        ResponseStatus::CopyBoth => lemma_pgres_copy_both(),
        ResponseStatus::SingleTuple => lemma_pgres_single_tuple(),
        ResponseStatus::PipelineSync => lemma_pgres_pipeline_sync(),
        ResponseStatus::PipelineAborted => lemma_pgres_pipeline_aborted(),
    }
}

/// What `Connection::pq_get_result` reports: `"DONE"` when there are no
/// more results, else `"RESULT STATUS "` and LibPQ's name of the status.
pub fn result_status_line(status: Option<ResponseStatus>) -> (r: String)
    ensures
        status is None ==> r@ == "DONE"@,
        status matches Some(s) ==> r@ == "RESULT STATUS "@ + s.libpq_name_spec(),
{
    match status {
        None => String::from_str("DONE"),
        Some(s) => {
            let mut line = String::from_str("RESULT STATUS ");
            let name = s.libpq_name();
            line.append(name.as_str());
            line
        },
    }
}

/// The error when a result could not be had.
pub fn missing_result_error() -> (e: PQError)
    ensures
        e.message@ == "Unable to create connection"@,
{
    PQError::from_text("Unable to create connection")
}

/// The text of optional bytes decoded lossily: nothing for null.
pub open spec fn lossy_text(raw: Option<Vec<u8>>) -> Option<Seq<char>> {
    match raw {
        None => None,
        Some(b) => Some(utf8_lossy(b@)),
    }
}

/// Returns the error message associated with the command, if any, from the
/// bytes of `PQresultErrorMessage` (`None` when null): trimmed, and nothing
/// when that leaves it empty.
///
/// See [`PQresultErrorMessage`](https://www.postgresql.org/docs/current/libpq-exec.html#LIBPQ-PQRESULTERRORMESSAGE)
pub fn pq_result_error_message(raw: Option<Vec<u8>>) -> (r: Option<String>)
    ensures
        lossy_text(raw) is None ==> r is None,
        lossy_text(raw) matches Some(t) ==> (if trim(t).len() == 0 {
            r is None
        } else {
            r matches Some(s) && s@ == trim(t)
        }),
{
    match raw {
        None => None,
        Some(bytes) => {
            let text = to_string_lossy(bytes.as_slice());
            let trimmed = trim_string(text.as_str());
            if trimmed.as_str().is_empty() {
                None
            } else {
                Some(trimmed)
            }
        },
    }
}

/// Returns the command status tag from the SQL command that generated the
/// result, from the bytes of `PQcmdStatus` (empty when null).
///
/// See [`PQcmdStatus`](https://www.postgresql.org/docs/current/libpq-exec.html#LIBPQ-PQCMDSTATUS)
pub fn pq_cmd_status(raw: Option<Vec<u8>>) -> (r: String)
    ensures
        lossy_text(raw) is None ==> r@ == Seq::<char>::empty(),
        lossy_text(raw) matches Some(t) ==> r@ == t,
{
    match raw {
        None => String::new(),
        Some(bytes) => to_string_lossy(bytes.as_slice()),
    }
}

/// Returns the number of rows affected by the SQL command, from the bytes of
/// `PQcmdTuples` (`None` when null): `0` unless they read as an `i32`.
///
/// See [`PQcmdTuples`](https://www.postgresql.org/docs/current/libpq-exec.html#LIBPQ-PQCMDTUPLES)
pub fn pq_cmd_tuples(raw: Option<Vec<u8>>) -> (r: i32)
    ensures
        lossy_text(raw) is None ==> r == 0,
        lossy_text(raw) matches Some(t) ==> r == (match parse_i32_spec(t) {
            Some(n) => n,
            None => 0i32,
        }),
{
    match raw {
        None => 0,
        Some(bytes) => {
            let text = to_string_lossy(bytes.as_slice());
            match parse_i32(text.as_str()) {
                Some(n) => n,
                None => 0,
            }
        },
    }
}

/// Returns a single field value of one row of a result: nothing when the
/// field is null (as `PQgetisnull` said), else the bytes of `PQgetvalue`,
/// which must be valid UTF-8.
///
/// See [`PQgetvalue`](https://www.postgresql.org/docs/current/libpq-exec.html#LIBPQ-PQGETVALUE)
pub fn pq_getvalue(is_null: bool, value: &[u8]) -> (r: PQResult<Option<String>>)
    ensures
        is_null ==> r matches Ok(None),
        !is_null && valid_utf8(value@) ==> (r matches Ok(Some(s)) && s@ == decode_utf8(value@)),
        !is_null && !valid_utf8(value@) ==> (r matches Err(e) && e.message@
            == "Error decoding UTF-8 string"@),
{
    if is_null {
        Ok(None)
    } else {
        match to_string(value) {
            Ok(s) => Ok(Some(s)),
            Err(e) => Err(PQError::from_message(e)),
        }
    }
}

// ===== CONTENTS ==============================================================

/// A field (column) of a result: its name and the OID of its type.
#[derive(Debug)]
pub struct ResponseField {
    pub name: String,
    pub type_oid: u32,
}

/// The contents of a result, as handed to JavaScript: its status, command
/// tag, row count, fields, and rows (a null field is `None`).
#[derive(Debug)]
pub struct ResponseTable {
    pub status: String,
    pub command: String,
    pub row_count: i32,
    pub fields: Vec<ResponseField>,
    pub rows: Vec<Vec<Option<String>>>,
}

/// A field value as read: whether it is null, and its bytes.
pub open spec fn cell_ok(cell: (bool, Vec<u8>)) -> bool {
    cell.0 || valid_utf8(cell.1@)
}

/// What a field value becomes: nothing when null, else its text.
pub open spec fn cell_value(cell: (bool, Vec<u8>)) -> Option<Seq<char>> {
    if cell.0 {
        None
    } else {
        Some(decode_utf8(cell.1@))
    }
}

/// An optional string, seen as an optional sequence.
pub open spec fn opt_view(o: Option<String>) -> Option<Seq<char>> {
    match o {
        Some(s) => Some(s@),
        None => None,
    }
}

/// Whether every field value of the rows is null or valid UTF-8.
pub open spec fn cells_ok(cells: Seq<Vec<(bool, Vec<u8>)>>) -> bool {
    forall|r: int, c: int|
        0 <= r < cells.len() && 0 <= c < cells[r].len() ==> #[trigger] cell_ok(cells[r]@[c])
}

fn read_row(row: &Vec<(bool, Vec<u8>)>) -> (r: PQResult<Vec<Option<String>>>)
    ensures
        r is Ok <==> forall|c: int| 0 <= c < row.len() ==> #[trigger] cell_ok(row@[c]),
        r matches Ok(v) ==> v.len() == row.len() && forall|c: int|
            0 <= c < row.len() ==> opt_view(#[trigger] v@[c]) == cell_value(row@[c]),
        r matches Err(e) ==> e.message@ == "Error decoding UTF-8 string"@,
{
    let mut values: Vec<Option<String>> = Vec::new();
    let n = row.len();
    let mut c: usize = 0;
    while c < n
        invariant
            n == row.len(),
            c <= n,
            values.len() == c,
            forall|k: int| 0 <= k < c ==> #[trigger] cell_ok(row@[k]),
            forall|k: int| 0 <= k < c ==> opt_view(#[trigger] values@[k]) == cell_value(row@[k]),
        decreases n - c,
    {
        let value = pq_getvalue(row[c].0, row[c].1.as_slice());
        match value {
            Ok(v) => {
                values.push(v);
            },
            Err(e) => {
                assert(!cell_ok(row@[c as int]));
                return Err(e);
            },
        }
        c = c + 1;
    }
    Ok(values)
}

/// Gathers the contents of a result: its status, the bytes of its command
/// tag and of its row count (`None` when null), each field's name and type
/// OID, and each row's field values (whether null, and the bytes). Every
/// field must have a name; a non-null value that is not UTF-8 fails with
/// `"Error decoding UTF-8 string"`.
pub fn response_table(
    status: ResponseStatus,
    cmd_status: Option<Vec<u8>>,
    cmd_tuples: Option<Vec<u8>>,
    fields: &Vec<(Option<Vec<u8>>, u32)>,
    cells: &Vec<Vec<(bool, Vec<u8>)>>,
) -> (r: PQResult<ResponseTable>)
    requires
        forall|i: int| 0 <= i < fields.len() ==> (#[trigger] fields@[i]).0 is Some,
    ensures
        r is Ok <==> cells_ok(cells@),
        r matches Err(e) ==> e.message@ == "Error decoding UTF-8 string"@,
        r matches Ok(t) ==> {
            &&& t.status@ == status.name_spec()
            &&& lossy_text(cmd_status) is None ==> t.command@ == Seq::<char>::empty()
            &&& lossy_text(cmd_status) matches Some(x) ==> t.command@ == x
            &&& lossy_text(cmd_tuples) is None ==> t.row_count == 0
            &&& lossy_text(cmd_tuples) matches Some(x) ==> t.row_count == (match parse_i32_spec(
                x,
            ) {
                Some(n) => n,
                None => 0i32,
            })
            &&& t.fields.len() == fields.len()
            &&& forall|i: int|
                0 <= i < fields.len() ==> (#[trigger] t.fields@[i]).name@ == utf8_lossy(
                    fields@[i].0->Some_0@,
                ) && t.fields@[i].type_oid == fields@[i].1
            &&& t.rows.len() == cells.len()
            &&& forall|r: int|
                0 <= r < cells.len() ==> (#[trigger] t.rows@[r]).len() == cells@[r].len()
            &&& forall|r: int, c: int|
                0 <= r < cells.len() && 0 <= c < cells@[r].len() ==> opt_view(
                    #[trigger] t.rows@[r]@[c],
                ) == cell_value(cells@[r]@[c])
        },
{
    let status_name = status.name();
    let command = pq_cmd_status(cmd_status);
    let row_count = pq_cmd_tuples(cmd_tuples);
    let mut names: Vec<ResponseField> = Vec::new();
    let nf = fields.len();
    let mut i: usize = 0;
    while i < nf
        invariant
            nf == fields.len(),
            i <= nf,
            names.len() == i,
            forall|k: int| 0 <= k < fields.len() ==> (#[trigger] fields@[k]).0 is Some,
            forall|k: int|
                0 <= k < i ==> (#[trigger] names@[k]).name@ == utf8_lossy(fields@[k].0->Some_0@)
                    && names@[k].type_oid == fields@[k].1,
        decreases nf - i,
    {
        let name = match &fields[i].0 {
            Some(bytes) => to_string_lossy(bytes.as_slice()),
            None => {
                assert(fields@[i as int].0 is Some);
                String::new()
            },
        };
        names.push(ResponseField { name, type_oid: fields[i].1 });
        i = i + 1;
    }
    let mut rows: Vec<Vec<Option<String>>> = Vec::new();
    let nr = cells.len();
    let mut r: usize = 0;
    while r < nr
        invariant
            nr == cells.len(),
            r <= nr,
            rows.len() == r,
            forall|k: int, c: int|
                0 <= k < r && 0 <= c < cells@[k].len() ==> #[trigger] cell_ok(cells@[k]@[c]),
            forall|k: int| 0 <= k < r ==> (#[trigger] rows@[k]).len() == cells@[k].len(),
            forall|k: int, c: int|
                0 <= k < r && 0 <= c < cells@[k].len() ==> opt_view(#[trigger] rows@[k]@[c])
                    == cell_value(cells@[k]@[c]),
        decreases nr - r,
    {
        match read_row(&cells[r]) {
            Ok(row) => {
                rows.push(row);
            },
            Err(e) => {
                assert(!cells_ok(cells@)) by {
                    let c = choose|c: int| 0 <= c < cells@[r as int].len() && !cell_ok(
                        cells@[r as int]@[c],
                    );
                    assert(!cell_ok(cells@[r as int]@[c]));
                }
                return Err(e);
            },
        }
        r = r + 1;
    }
    Ok(ResponseTable { status: status_name, command, row_count, fields: names, rows })
}

} // verus!
