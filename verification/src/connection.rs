//! What the library makes of LibPQ's answers about a connection (`PGconn`):
//! statuses, return codes and error messages.

use vstd::prelude::*;
use vstd::string::*;
use vstd::utf8::*;
use crate::conninfo::pairs_view;
use crate::errors::{message_or_unknown, PQError, PQResult};
use crate::ffi::{to_string};
use crate::text::{ascii_upper_all, begins, trim, trim_string, upper_snake};

verus! {

// ===== CONNECTION STATUS =====================================================

/// Status of a PostgreSQL connection.
///
/// As we establish connections in a _blocking_ fashion, the only two statuses
/// we'll ever see are `CONNECTION_OK` and `CONNECTION_BAD`; all other values
/// are returned _only_ when establishing connections asynchronously.
///
/// See [PQconnectStartParams](https://www.postgresql.org/docs/current/libpq-connect.html#LIBPQ-PQCONNECTSTARTPARAMS)
#[derive(Debug, Copy, Clone, PartialEq, Eq, Structural)]
pub enum ConnectionStatus {
    /// Connection succesful.
    Okay,
    /// Connection failed.
    Bad,
    /// Waiting for connection to be made.
    Started,
    /// Connection OK; waiting to send.
    Made,
    /// Waiting for a response from the server.
    AwaitingResponse,
    /// Received authentication; waiting for backend start-up to finish.
    AuthOk,
    /// Negotiating environment-driven parameter settings.
    Setenv,
    /// Negotiating SSL encryption.
    SslStartup,
    /// **Internal state**: `connect()` needed.
    Needed,
    /// Checking if connection is able to handle write transactions.
    CheckWritable,
    /// Consuming any remaining response messages on connection.
    Consume,
    /// Negotiating GSSAPI.
    GssStartup,
    /// _Internal state: checking target server properties_.
    CheckTarget,
    /// Checking if server is in standby mode.
    CheckStandby,
}

impl ConnectionStatus {
    /// LibPQ's code for this status (`CONNECTION_OK` is 0, ...).
    pub open spec fn code_spec(self) -> u32 {
        match self {
            ConnectionStatus::Okay => 0,
            ConnectionStatus::Bad => 1,
            ConnectionStatus::Started => 2,
            ConnectionStatus::Made => 3,
            ConnectionStatus::AwaitingResponse => 4,
            ConnectionStatus::AuthOk => 5,
            ConnectionStatus::Setenv => 6,
            ConnectionStatus::SslStartup => 7,
            ConnectionStatus::Needed => 8,
            ConnectionStatus::CheckWritable => 9,
            ConnectionStatus::Consume => 10,
            ConnectionStatus::GssStartup => 11,
            ConnectionStatus::CheckTarget => 12,
            ConnectionStatus::CheckStandby => 13,
        }
    }

    /// LibPQ's code for this status.
    pub fn code(&self) -> (c: u32)
        ensures
            c == self.code_spec(),
    {
        match self {
            ConnectionStatus::Okay => 0,
            ConnectionStatus::Bad => 1,
            ConnectionStatus::Started => 2,
            ConnectionStatus::Made => 3,
            ConnectionStatus::AwaitingResponse => 4,
            ConnectionStatus::AuthOk => 5,
            ConnectionStatus::Setenv => 6,
            ConnectionStatus::SslStartup => 7,
            ConnectionStatus::Needed => 8,
            ConnectionStatus::CheckWritable => 9,
            ConnectionStatus::Consume => 10,
            ConnectionStatus::GssStartup => 11,
            ConnectionStatus::CheckTarget => 12,
            ConnectionStatus::CheckStandby => 13,
        }
    }

    /// The status with LibPQ's code `code` (what `PQstatus` returned), if
    /// there is one.
    pub fn from_code(code: u32) -> (r: Option<ConnectionStatus>)
        ensures
            code < 14 ==> (r matches Some(s) && s.code_spec() == code),
            code >= 14 ==> r is None,
    {
        match code {
            0 => Some(ConnectionStatus::Okay),
            1 => Some(ConnectionStatus::Bad),
            2 => Some(ConnectionStatus::Started),
            3 => Some(ConnectionStatus::Made),
            4 => Some(ConnectionStatus::AwaitingResponse),
            5 => Some(ConnectionStatus::AuthOk),
            6 => Some(ConnectionStatus::Setenv),
            7 => Some(ConnectionStatus::SslStartup),
            8 => Some(ConnectionStatus::Needed),
            9 => Some(ConnectionStatus::CheckWritable),
            10 => Some(ConnectionStatus::Consume),
            11 => Some(ConnectionStatus::GssStartup),
            12 => Some(ConnectionStatus::CheckTarget),
            13 => Some(ConnectionStatus::CheckStandby),
            _ => None,
        }
    }

    /// The status for LibPQ's code `code`; a code with no status here (LibPQ's newer internal states
    /// `CONNECTION_ALLOCATED` and `CONNECTION_AUTHENTICATING`, in which the
    /// connection cannot be used yet) reads as `Bad`.
    pub fn from_libpq(code: u32) -> (s: ConnectionStatus)
        ensures
            code < 14 ==> s.code_spec() == code,
            code >= 14 ==> s == ConnectionStatus::Bad,
    {
        match ConnectionStatus::from_code(code) {
            Some(s) => s,
            None => ConnectionStatus::Bad,
        }
    }

    /// The name of this status, as `{:?}` writes it.
    pub open spec fn name_spec(self) -> Seq<char> {
        match self {
            ConnectionStatus::Okay => "Ok"@,
            ConnectionStatus::Bad => "Bad"@,
            ConnectionStatus::Started => "Started"@,
            ConnectionStatus::Made => "Made"@,
            ConnectionStatus::AwaitingResponse => "AwaitingResponse"@,
            ConnectionStatus::AuthOk => "AuthOk"@,
            ConnectionStatus::Setenv => "Setenv"@,
            ConnectionStatus::SslStartup => "SslStartup"@,
            ConnectionStatus::Needed => "Needed"@,
            ConnectionStatus::CheckWritable => "CheckWritable"@,
            ConnectionStatus::Consume => "Consume"@,
            ConnectionStatus::GssStartup => "GssStartup"@,
            ConnectionStatus::CheckTarget => "CheckTarget"@,
            ConnectionStatus::CheckStandby => "CheckStandby"@,
        }
    }

    /// The name of this status, as `{:?}` writes it.
    pub fn name(&self) -> (s: String)
        ensures
            s@ == self.name_spec(),
    {
        match self {
            ConnectionStatus::Okay => String::from_str("Ok"),
            ConnectionStatus::Bad => String::from_str("Bad"),
            ConnectionStatus::Started => String::from_str("Started"),
            ConnectionStatus::Made => String::from_str("Made"),
            ConnectionStatus::AwaitingResponse => String::from_str("AwaitingResponse"),
            ConnectionStatus::AuthOk => String::from_str("AuthOk"),
            ConnectionStatus::Setenv => String::from_str("Setenv"),
            ConnectionStatus::SslStartup => String::from_str("SslStartup"),
            ConnectionStatus::Needed => String::from_str("Needed"),
            ConnectionStatus::CheckWritable => String::from_str("CheckWritable"),
            ConnectionStatus::Consume => String::from_str("Consume"),
            ConnectionStatus::GssStartup => String::from_str("GssStartup"),
            ConnectionStatus::CheckTarget => String::from_str("CheckTarget"),
            ConnectionStatus::CheckStandby => String::from_str("CheckStandby"),
        }
    }
}

// ===== TRANSACTION STATUS ====================================================

/// The current in-transaction status of the server.
///
/// See [`PQtransactionStatus`](https://www.postgresql.org/docs/current/libpq-status.html#LIBPQ-PQTRANSACTIONSTATUS)
#[derive(Debug, Copy, Clone, PartialEq, Eq, Structural)]
pub enum TransactionStatus {
    /// Currently idle.
    Idle,
    /// A command is in progress.
    Active,
    /// Idle, in a valid transaction block.
    InTransaction,
    /// Idle, in a failed transaction block
    InError,
    /// Reported if the connection is bad.
    Unknown,
}

impl TransactionStatus {
    /// LibPQ's code for this status (`PQTRANS_IDLE` is 0, ...).
    pub open spec fn code_spec(self) -> u32 {
        match self {
            TransactionStatus::Idle => 0,
            TransactionStatus::Active => 1,
            TransactionStatus::InTransaction => 2,
            TransactionStatus::InError => 3,
            TransactionStatus::Unknown => 4,
        }
    }

    /// LibPQ's code for this status.
    pub fn code(&self) -> (c: u32)
        ensures
            c == self.code_spec(),
    {
        match self {
            TransactionStatus::Idle => 0,
            TransactionStatus::Active => 1,
            TransactionStatus::InTransaction => 2,
            TransactionStatus::InError => 3,
            TransactionStatus::Unknown => 4,
        }
    }

    /// The status with LibPQ's code `code` (what `PQtransactionStatus`
    /// returned), if there is one.
    pub fn from_code(code: u32) -> (r: Option<TransactionStatus>)
        ensures
            code < 5 ==> (r matches Some(s) && s.code_spec() == code),
            code >= 5 ==> r is None,
    {
        match code {
            0 => Some(TransactionStatus::Idle),
            1 => Some(TransactionStatus::Active),
            2 => Some(TransactionStatus::InTransaction),
            3 => Some(TransactionStatus::InError),
            4 => Some(TransactionStatus::Unknown),
            _ => None,
        }
    }

    /// The status for LibPQ's code `code`; a code with no status here reads as `Unknown`.
    pub fn from_libpq(code: u32) -> (s: TransactionStatus)
        ensures
            code < 5 ==> s.code_spec() == code,
            code >= 5 ==> s == TransactionStatus::Unknown,
    {
        match TransactionStatus::from_code(code) {
            Some(s) => s,
            None => TransactionStatus::Unknown,
        }
    }

    /// The name of this status, as `{:?}` writes it.
    pub open spec fn name_spec(self) -> Seq<char> {
        match self {
            TransactionStatus::Idle => "Idle"@,
            TransactionStatus::Active => "Active"@,
            TransactionStatus::InTransaction => "InTransaction"@,
            TransactionStatus::InError => "InError"@,
            TransactionStatus::Unknown => "Unknown"@,
        }
    }

    /// The name of this status, as `{:?}` writes it.
    pub fn name(&self) -> (s: String)
        ensures
            s@ == self.name_spec(),
    {
        match self {
            TransactionStatus::Idle => String::from_str("Idle"),
            TransactionStatus::Active => String::from_str("Active"),
            TransactionStatus::InTransaction => String::from_str("InTransaction"),
            TransactionStatus::InError => String::from_str("InError"),
            TransactionStatus::Unknown => String::from_str("Unknown"),
        }
    }
}

// ===== PIPELINE STATUS =======================================================

/// The current pipeline mode status of the libpq connection.
///
/// See [`PQpipelineStatus`](https://www.postgresql.org/docs/current/libpq-pipeline-mode.html#LIBPQ-PQPIPELINESTATUS)
#[derive(Debug, Copy, Clone, PartialEq, Eq, Structural)]
pub enum PipelineStatus {
    /// The connection is _not_ in pipeline mode.
    Off,
    /// The connection is in pipeline mode.
    On,
    /// The libpq connection is in pipeline mode and an error occurred while
    /// processing the current pipeline.
    Aborted,
}

impl PipelineStatus {
    /// LibPQ's code for this status (`PQ_PIPELINE_OFF` is 0, ...).
    pub open spec fn code_spec(self) -> u32 {
        match self {
            PipelineStatus::Off => 0,
            PipelineStatus::On => 1,
            PipelineStatus::Aborted => 2,
        }
    }

    /// LibPQ's code for this status.
    pub fn code(&self) -> (c: u32)
        ensures
            c == self.code_spec(),
    {
        match self {
            PipelineStatus::Off => 0,
            PipelineStatus::On => 1,
            PipelineStatus::Aborted => 2,
        }
    }

    /// The status with LibPQ's code `code` (what `PQpipelineStatus`
    /// returned), if there is one.
    pub fn from_code(code: u32) -> (r: Option<PipelineStatus>)
        ensures
            code < 3 ==> (r matches Some(s) && s.code_spec() == code),
            code >= 3 ==> r is None,
    {
        match code {
            0 => Some(PipelineStatus::Off),
            1 => Some(PipelineStatus::On),
            2 => Some(PipelineStatus::Aborted),
            _ => None,
        }
    }

    /// The status for LibPQ's code `code`; a code with no status here reads as `Aborted`.
    pub fn from_libpq(code: u32) -> (s: PipelineStatus)
        ensures
            code < 3 ==> s.code_spec() == code,
            code >= 3 ==> s == PipelineStatus::Aborted,
    {
        match PipelineStatus::from_code(code) {
            Some(s) => s,
            None => PipelineStatus::Aborted,
        }
    }
}

/// Polling interest for a connection's socket.
#[derive(Debug, Copy, Clone, PartialEq, Eq, Structural)]
pub enum PollingInterest {
    /// Wait until the connection is writable.
    Writable,
    /// Wait until the connection is readable.
    Readable,
}

/// Every status has exactly one code and every code below the number of
/// statuses has exactly one status.
pub proof fn status_codes_law(c: ConnectionStatus, t: TransactionStatus, p: PipelineStatus)
    ensures
        c.code_spec() < 14,
        t.code_spec() < 5,
        p.code_spec() < 3,
        forall|d: ConnectionStatus| d.code_spec() == c.code_spec() ==> d == c,
        forall|u: TransactionStatus| u.code_spec() == t.code_spec() ==> u == t,
        forall|q: PipelineStatus| q.code_spec() == p.code_spec() ==> q == p,
{
}

proof fn lemma_connection_okay()
    ensures
        "CONNECTION_OK"@ == "CONNECTION_"@ + upper_snake("Ok"@),
{
    reveal_strlit("Ok");
    reveal_strlit("CONNECTION_OK");
    reveal_strlit("CONNECTION_");
    reveal_with_fuel(upper_snake, 18);
    assert("CONNECTION_OK"@ =~= "CONNECTION_"@ + upper_snake("Ok"@));
}

proof fn lemma_connection_bad()
    ensures
        "CONNECTION_BAD"@ == "CONNECTION_"@ + upper_snake("Bad"@),
{
    reveal_strlit("Bad");
    reveal_strlit("CONNECTION_BAD");
    reveal_strlit("CONNECTION_");
    reveal_with_fuel(upper_snake, 18);
    assert("CONNECTION_BAD"@ =~= "CONNECTION_"@ + upper_snake("Bad"@));
}

proof fn lemma_connection_started()
    ensures
        "CONNECTION_STARTED"@ == "CONNECTION_"@ + upper_snake("Started"@),
{
    reveal_strlit("Started");
    reveal_strlit("CONNECTION_STARTED");
    reveal_strlit("CONNECTION_");
    reveal_with_fuel(upper_snake, 18);
    assert("CONNECTION_STARTED"@ =~= "CONNECTION_"@ + upper_snake("Started"@));
}

proof fn lemma_connection_made()
    ensures
        "CONNECTION_MADE"@ == "CONNECTION_"@ + upper_snake("Made"@),
{
    reveal_strlit("Made");
    reveal_strlit("CONNECTION_MADE");
    reveal_strlit("CONNECTION_");
    reveal_with_fuel(upper_snake, 18);
    assert("CONNECTION_MADE"@ =~= "CONNECTION_"@ + upper_snake("Made"@));
}

proof fn lemma_connection_awaiting_response()
    ensures
        "CONNECTION_AWAITING_RESPONSE"@ == "CONNECTION_"@ + upper_snake("AwaitingResponse"@),
{
    reveal_strlit("AwaitingResponse");
    reveal_strlit("CONNECTION_AWAITING_RESPONSE");
    reveal_strlit("CONNECTION_");
    reveal_with_fuel(upper_snake, 18);
    assert("CONNECTION_AWAITING_RESPONSE"@ =~= "CONNECTION_"@ + upper_snake("AwaitingResponse"@));
}

proof fn lemma_connection_auth_ok()
    ensures
        "CONNECTION_AUTH_OK"@ == "CONNECTION_"@ + upper_snake("AuthOk"@),
{
    reveal_strlit("AuthOk");
    reveal_strlit("CONNECTION_AUTH_OK");
    reveal_strlit("CONNECTION_");
    reveal_with_fuel(upper_snake, 18);
    assert("CONNECTION_AUTH_OK"@ =~= "CONNECTION_"@ + upper_snake("AuthOk"@));
}

proof fn lemma_connection_setenv()
    ensures
        "CONNECTION_SETENV"@ == "CONNECTION_"@ + upper_snake("Setenv"@),
{
    reveal_strlit("Setenv");
    reveal_strlit("CONNECTION_SETENV");
    reveal_strlit("CONNECTION_");
    reveal_with_fuel(upper_snake, 18);
    assert("CONNECTION_SETENV"@ =~= "CONNECTION_"@ + upper_snake("Setenv"@));
}

proof fn lemma_connection_ssl_startup()
    ensures
        "CONNECTION_SSL_STARTUP"@ == "CONNECTION_"@ + upper_snake("SslStartup"@),
{
    reveal_strlit("SslStartup");
    reveal_strlit("CONNECTION_SSL_STARTUP");
    reveal_strlit("CONNECTION_");
    reveal_with_fuel(upper_snake, 18);
    assert("CONNECTION_SSL_STARTUP"@ =~= "CONNECTION_"@ + upper_snake("SslStartup"@));
}

proof fn lemma_connection_needed()
    ensures
        "CONNECTION_NEEDED"@ == "CONNECTION_"@ + upper_snake("Needed"@),
{
    reveal_strlit("Needed");
    reveal_strlit("CONNECTION_NEEDED");
    reveal_strlit("CONNECTION_");
    reveal_with_fuel(upper_snake, 18);
    assert("CONNECTION_NEEDED"@ =~= "CONNECTION_"@ + upper_snake("Needed"@));
}

proof fn lemma_connection_check_writable()
    ensures
        "CONNECTION_CHECK_WRITABLE"@ == "CONNECTION_"@ + upper_snake("CheckWritable"@),
{
    reveal_strlit("CheckWritable");
    reveal_strlit("CONNECTION_CHECK_WRITABLE");
    reveal_strlit("CONNECTION_");
    reveal_with_fuel(upper_snake, 18);
    assert("CONNECTION_CHECK_WRITABLE"@ =~= "CONNECTION_"@ + upper_snake("CheckWritable"@));
}

proof fn lemma_connection_consume()
    ensures
        "CONNECTION_CONSUME"@ == "CONNECTION_"@ + upper_snake("Consume"@),
{
    reveal_strlit("Consume");
    reveal_strlit("CONNECTION_CONSUME");
    reveal_strlit("CONNECTION_");
    reveal_with_fuel(upper_snake, 18);
    assert("CONNECTION_CONSUME"@ =~= "CONNECTION_"@ + upper_snake("Consume"@));
}

proof fn lemma_connection_gss_startup()
    ensures
        "CONNECTION_GSS_STARTUP"@ == "CONNECTION_"@ + upper_snake("GssStartup"@),
{
    reveal_strlit("GssStartup");
    reveal_strlit("CONNECTION_GSS_STARTUP");
    reveal_strlit("CONNECTION_");
    reveal_with_fuel(upper_snake, 18);
    assert("CONNECTION_GSS_STARTUP"@ =~= "CONNECTION_"@ + upper_snake("GssStartup"@));
}

proof fn lemma_connection_check_target()
    ensures
        "CONNECTION_CHECK_TARGET"@ == "CONNECTION_"@ + upper_snake("CheckTarget"@),
{
    reveal_strlit("CheckTarget");
    reveal_strlit("CONNECTION_CHECK_TARGET");
    reveal_strlit("CONNECTION_");
    reveal_with_fuel(upper_snake, 18);
    assert("CONNECTION_CHECK_TARGET"@ =~= "CONNECTION_"@ + upper_snake("CheckTarget"@));
}

proof fn lemma_connection_check_standby()
    ensures
        "CONNECTION_CHECK_STANDBY"@ == "CONNECTION_"@ + upper_snake("CheckStandby"@),
{
    reveal_strlit("CheckStandby");
    reveal_strlit("CONNECTION_CHECK_STANDBY");
    reveal_strlit("CONNECTION_");
    reveal_with_fuel(upper_snake, 18);
    assert("CONNECTION_CHECK_STANDBY"@ =~= "CONNECTION_"@ + upper_snake("CheckStandby"@));
}

/// LibPQ's `ConnStatusType` constants in the order `libpq-fe.h` declares
/// them, so that each constant's value is its position.
pub open spec fn libpq_connection_statuses() -> Seq<Seq<char>> {
    seq![
        "CONNECTION_OK"@,
        "CONNECTION_BAD"@,
        "CONNECTION_STARTED"@,
        "CONNECTION_MADE"@,
        "CONNECTION_AWAITING_RESPONSE"@,
        "CONNECTION_AUTH_OK"@,
        "CONNECTION_SETENV"@,
        "CONNECTION_SSL_STARTUP"@,
        "CONNECTION_NEEDED"@,
        "CONNECTION_CHECK_WRITABLE"@,
        "CONNECTION_CONSUME"@,
        "CONNECTION_GSS_STARTUP"@,
        "CONNECTION_CHECK_TARGET"@,
        "CONNECTION_CHECK_STANDBY"@,
        "CONNECTION_ALLOCATED"@,
        "CONNECTION_AUTHENTICATING"@,
    ]
}

/// A connection status is LibPQ's status of the same name: its code is the
/// value of the `ConnStatusType` constant `CONNECTION_` followed by the
/// status's (`{:?}`) name in upper snake case (`Bad` is `CONNECTION_BAD`,
/// whose value is 1).
pub proof fn connection_status_names_law(s: ConnectionStatus)
    ensures
        s.code_spec() < libpq_connection_statuses().len(),
        libpq_connection_statuses()[s.code_spec() as int] == "CONNECTION_"@ + upper_snake(
            s.name_spec(),
        ),
{
    match s {
        ConnectionStatus::Okay => lemma_connection_okay(),
        ConnectionStatus::Bad => lemma_connection_bad(),
        ConnectionStatus::Started => lemma_connection_started(),
        ConnectionStatus::Made => lemma_connection_made(),
        ConnectionStatus::AwaitingResponse => lemma_connection_awaiting_response(),
        ConnectionStatus::AuthOk => lemma_connection_auth_ok(),
        ConnectionStatus::Setenv => lemma_connection_setenv(),
        ConnectionStatus::SslStartup => lemma_connection_ssl_startup(),
        ConnectionStatus::Needed => lemma_connection_needed(),
        ConnectionStatus::CheckWritable => lemma_connection_check_writable(),
        ConnectionStatus::Consume => lemma_connection_consume(),
        ConnectionStatus::GssStartup => lemma_connection_gss_startup(),
        ConnectionStatus::CheckTarget => lemma_connection_check_target(),
        ConnectionStatus::CheckStandby => lemma_connection_check_standby(),
    }
}

proof fn lemma_transaction_idle()
    ensures
        begins("PQTRANS_"@, "PQTRANS_IDLE"@),
        "PQTRANS_IDLE"@.len() > 8,
        begins("PQTRANS_IDLE"@.subrange(8, "PQTRANS_IDLE"@.len() as int), ascii_upper_all("Idle"@)),
{
    reveal_strlit("Idle");
    reveal_strlit("PQTRANS_IDLE");
    reveal_strlit("PQTRANS_");
    assert("PQTRANS_IDLE"@.subrange(0, 8) =~= "PQTRANS_"@);
    assert(ascii_upper_all("Idle"@).subrange(0, 4) =~= "PQTRANS_IDLE"@.subrange(8, 12));
}

proof fn lemma_transaction_active()
    ensures
        begins("PQTRANS_"@, "PQTRANS_ACTIVE"@),
        "PQTRANS_ACTIVE"@.len() > 8,
        begins("PQTRANS_ACTIVE"@.subrange(8, "PQTRANS_ACTIVE"@.len() as int), ascii_upper_all("Active"@)),
{
    reveal_strlit("Active");
    reveal_strlit("PQTRANS_ACTIVE");
    reveal_strlit("PQTRANS_");
    assert("PQTRANS_ACTIVE"@.subrange(0, 8) =~= "PQTRANS_"@);
    assert(ascii_upper_all("Active"@).subrange(0, 6) =~= "PQTRANS_ACTIVE"@.subrange(8, 14));
}

proof fn lemma_transaction_in_transaction()
    ensures
        begins("PQTRANS_"@, "PQTRANS_INTRANS"@),
        "PQTRANS_INTRANS"@.len() > 8,
        begins("PQTRANS_INTRANS"@.subrange(8, "PQTRANS_INTRANS"@.len() as int), ascii_upper_all("InTransaction"@)),
{
    reveal_strlit("InTransaction");
    reveal_strlit("PQTRANS_INTRANS");
    reveal_strlit("PQTRANS_");
    assert("PQTRANS_INTRANS"@.subrange(0, 8) =~= "PQTRANS_"@);
    assert(ascii_upper_all("InTransaction"@).subrange(0, 7) =~= "PQTRANS_INTRANS"@.subrange(8, 15));
}

proof fn lemma_transaction_in_error()
    ensures
        begins("PQTRANS_"@, "PQTRANS_INERROR"@),
        "PQTRANS_INERROR"@.len() > 8,
        begins("PQTRANS_INERROR"@.subrange(8, "PQTRANS_INERROR"@.len() as int), ascii_upper_all("InError"@)),
{
    reveal_strlit("InError");
    reveal_strlit("PQTRANS_INERROR");
    reveal_strlit("PQTRANS_");
    assert("PQTRANS_INERROR"@.subrange(0, 8) =~= "PQTRANS_"@);
    assert(ascii_upper_all("InError"@).subrange(0, 7) =~= "PQTRANS_INERROR"@.subrange(8, 15));
}

proof fn lemma_transaction_unknown()
    ensures
        begins("PQTRANS_"@, "PQTRANS_UNKNOWN"@),
        "PQTRANS_UNKNOWN"@.len() > 8,
        begins("PQTRANS_UNKNOWN"@.subrange(8, "PQTRANS_UNKNOWN"@.len() as int), ascii_upper_all("Unknown"@)),
{
    reveal_strlit("Unknown");
    reveal_strlit("PQTRANS_UNKNOWN");
    reveal_strlit("PQTRANS_");
    assert("PQTRANS_UNKNOWN"@.subrange(0, 8) =~= "PQTRANS_"@);
    assert(ascii_upper_all("Unknown"@).subrange(0, 7) =~= "PQTRANS_UNKNOWN"@.subrange(8, 15));
}

/// LibPQ's `PGTransactionStatusType` constants in the order `libpq-fe.h`
/// declares them, so that each constant's value is its position.
pub open spec fn libpq_transaction_statuses() -> Seq<Seq<char>> {
    seq![
        "PQTRANS_IDLE"@,
        "PQTRANS_ACTIVE"@,
        "PQTRANS_INTRANS"@,
        "PQTRANS_INERROR"@,
        "PQTRANS_UNKNOWN"@,
    ]
}

/// A transaction status is LibPQ's status of that name: its code is the
/// value of the `PGTransactionStatusType` constant `PQTRANS_` followed by an
/// abbreviation that begins the status's (`{:?}`) name, in upper case
/// (`Idle` is `PQTRANS_IDLE`, whose value is 0; `InTransaction` is
/// `PQTRANS_INTRANS`).
pub proof fn transaction_status_names_law(t: TransactionStatus)
    ensures
        t.code_spec() < libpq_transaction_statuses().len(),
        ({
            let constant = libpq_transaction_statuses()[t.code_spec() as int];
            &&& begins("PQTRANS_"@, constant)
            &&& constant.len() > 8
            &&& begins(constant.subrange(8, constant.len() as int), ascii_upper_all(t.name_spec()))
        }),
{
    reveal_strlit("PQTRANS_");
    match t {
        TransactionStatus::Idle => lemma_transaction_idle(),
        TransactionStatus::Active => lemma_transaction_active(),
        TransactionStatus::InTransaction => lemma_transaction_in_transaction(),
        TransactionStatus::InError => lemma_transaction_in_error(),
        TransactionStatus::Unknown => lemma_transaction_unknown(),
    }
}

// ===== RETURN CODES ==========================================================

/// Interprets a LibPQ boolean-like return code, where `1` means `true` (as
/// `PQisBusy`, `PQisnonblocking`, `PQenterPipelineMode`, `PQexitPipelineMode`,
/// `PQpipelineSync`, `PQsendFlushRequest`, `PQsetSingleRowMode` and
/// `PQgetisnull` return).
pub fn pq_true(code: i32) -> (r: bool)
    ensures
        r == (code == 1),
{
    code == 1
}

/// Interprets `PQsslInUse`: anything but `0` means that SSL is in use.
pub fn ssl_in_use(code: i32) -> (r: bool)
    ensures
        r == (code != 0),
{
    code != 0
}

/// The outcome of `PQconsumeInput`: `1` is success, anything else fails with
/// the connection's error message.
///
/// See [`PQconsumeInput`](https://www.postgresql.org/docs/current/libpq-async.html#LIBPQ-PQCONSUMEINPUT)
pub fn consume_input_outcome(code: i32, message: Option<String>) -> (r: PQResult<()>)
    ensures
        code == 1 ==> r is Ok,
        code != 1 ==> (r matches Err(e) && e.message@ == message_or_unknown(message)),
{
    if code == 1 {
        Ok(())
    } else {
        Err(PQError::from_option(message))
    }
}

/// The outcome of `PQsetnonblocking`: `0` is success, anything else fails
/// with the connection's error message.
///
/// See [`PQsetnonblocking`](https://www.postgresql.org/docs/current/libpq-async.html#LIBPQ-PQSETNONBLOCKING)
pub fn setnonblocking_outcome(code: i32, message: Option<String>) -> (r: PQResult<()>)
    ensures
        code == 0 ==> r is Ok,
        code != 0 ==> (r matches Err(e) && e.message@ == message_or_unknown(message)),
{
    if code == 0 {
        Ok(())
    } else {
        Err(PQError::from_option(message))
    }
}

/// The outcome of `PQflush`: `Ok(true)` when all data was flushed (`0`),
/// `Ok(false)` when some is left (`1`), else the connection's error.
///
/// See [`PQflush`](https://www.postgresql.org/docs/current/libpq-async.html#LIBPQ-PQFLUSH)
pub fn flush_outcome(code: i32, message: Option<String>) -> (r: PQResult<bool>)
    ensures
        code == 0 ==> r == Ok::<bool, PQError>(true),
        code == 1 ==> r == Ok::<bool, PQError>(false),
        code != 0 && code != 1 ==> (r matches Err(e) && e.message@ == message_or_unknown(message)),
{
    if code == 0 {
        Ok(true)
    } else if code == 1 {
        Ok(false)
    } else {
        Err(PQError::from_option(message))
    }
}

/// The outcome of `PQsendQuery` and `PQsendQueryParams`: `1` is success,
/// anything else fails with the connection's error message.
///
/// See [`PQsendQuery`](https://www.postgresql.org/docs/current/libpq-async.html#LIBPQ-PQSENDQUERY)
pub fn send_outcome(code: i32, message: Option<String>) -> (r: PQResult<()>)
    ensures
        code == 1 ==> r is Ok,
        code != 1 ==> (r matches Err(e) && e.message@ == message_or_unknown(message)),
{
    if code == 1 {
        Ok(())
    } else {
        Err(PQError::from_option(message))
    }
}

/// The number of parameters handed to `PQsendQueryParams`.
pub fn param_count(len: usize) -> (r: i32)
    requires
        len <= i32::MAX,
    ensures
        r == len,
{
    len as i32
}

/// The outcome of opening a connection, from its status once `PQconnectdbParams`
/// returned: anything but `Ok` fails with the connection's error message.
pub fn connect_outcome(status: ConnectionStatus, message: Option<String>) -> (r: PQResult<()>)
    ensures
        status == ConnectionStatus::Okay ==> r is Ok,
        status != ConnectionStatus::Okay ==> (r matches Err(e) && e.message@ == message_or_unknown(message)),
{
    match status {
        ConnectionStatus::Okay => Ok(()),
        _ => Err(PQError::from_option(message)),
    }
}

/// The error when `PQconnectdbParams` could not even allocate a connection.
pub fn creation_error() -> (e: PQError)
    ensures
        e.message@ == "Unable to create connection"@,
{
    PQError::from_text("Unable to create connection")
}

/// The outcome of asking for non-blocking mode, from what `PQisnonblocking`
/// said afterwards.
pub fn nonblocking_outcome(is_nonblocking: bool) -> (r: PQResult<()>)
    ensures
        is_nonblocking ==> r is Ok,
        !is_nonblocking ==> (r matches Err(e) && e.message@
            == "Unable to set non-blocking status"@),
{
    if is_nonblocking {
        Ok(())
    } else {
        Err(PQError::from_text("Unable to set non-blocking status"))
    }
}

// ===== ERROR MESSAGE =========================================================

/// Optional bytes, seen as a sequence.
pub open spec fn bytes_view(raw: Option<Vec<u8>>) -> Option<Seq<u8>> {
    match raw {
        Some(b) => Some(b@),
        None => None,
    }
}

/// What becomes of the bytes of `PQerrorMessage`: a null message or an empty
/// one is no message; one that is not UTF-8 reads `"Unable to decode error
/// message"`; any other is trimmed.
pub open spec fn error_message_spec(raw: Option<Seq<u8>>) -> Option<Seq<char>> {
    match raw {
        None => None,
        Some(bytes) => {
            let text = if valid_utf8(bytes) {
                decode_utf8(bytes)
            } else {
                "Unable to decode error message"@
            };
            if text.len() == 0 {
                None
            } else {
                Some(trim(text))
            }
        },
    }
}

/// Returns the error message most recently generated by an operation on the
/// connection, from the bytes of `PQerrorMessage` (`None` when null).
///
/// See [`PQerrorMessage`](https://www.postgresql.org/docs/current/libpq-status.html#LIBPQ-PQERRORMESSAGE)
pub fn pq_error_message(raw: Option<Vec<u8>>) -> (r: Option<String>)
    ensures
        r is Some <==> error_message_spec(bytes_view(raw)) is Some,
        r matches Some(s) ==> Some(s@) == error_message_spec(bytes_view(raw)),
{
    match raw {
        None => None,
        Some(bytes) => {
            let text = match to_string(bytes.as_slice()) {
                Ok(s) => s,
                Err(_) => String::from_str("Unable to decode error message"),
            };
            if text.as_str().is_empty() {
                None
            } else {
                Some(trim_string(text.as_str()))
            }
        },
    }
}

// ===== SSL ATTRIBUTES ========================================================

/// What the SSL attributes of a connection (for each name, its bytes and,
/// unless it is null, its value's bytes) become: the pairs with a value,
/// in order; nothing when a kept name or value is not UTF-8.
pub open spec fn ssl_attributes_spec(entries: Seq<(Vec<u8>, Option<Vec<u8>>)>) -> Option<
    Seq<(Seq<char>, Seq<char>)>,
>
    decreases entries.len(),
{
    if entries.len() == 0 {
        Some(seq![])
    } else {
        match ssl_attributes_spec(entries.drop_last()) {
            None => None,
            Some(rest) => match entries.last().1 {
                None => Some(rest),
                Some(v) => if valid_utf8(entries.last().0@) && valid_utf8(v@) {
                    Some(rest.push((decode_utf8(entries.last().0@), decode_utf8(v@))))
                } else {
                    None
                },
            },
        }
    }
}

proof fn lemma_ssl_attributes_fail(entries: Seq<(Vec<u8>, Option<Vec<u8>>)>, i: int)
    requires
        0 <= i <= entries.len(),
        ssl_attributes_spec(entries.subrange(0, i)) is None,
    ensures
        ssl_attributes_spec(entries) is None,
    decreases entries.len() - i,
{
    if i < entries.len() {
        assert(entries.subrange(0, i + 1).drop_last() =~= entries.subrange(0, i));
        lemma_ssl_attributes_fail(entries, i + 1);
    } else {
        assert(entries.subrange(0, i) =~= entries);
    }
}

/// Returns SSL-related information about the connection: the names with a
/// value and their values, in order, from what `PQsslAttributeNames` and
/// `PQsslAttribute` gave (a null value is `None`). A name or value that is
/// not UTF-8 fails with `"Error decoding UTF-8 string"`.
///
/// See [`PQsslAttribute`](https://www.postgresql.org/docs/current/libpq-status.html#LIBPQ-PQSSLATTRIBUTE)
pub fn pq_ssl_attributes(entries: &Vec<(Vec<u8>, Option<Vec<u8>>)>) -> (r: PQResult<Vec<(String, String)>>)
    ensures
        r is Ok <==> ssl_attributes_spec(entries@) is Some,
        r matches Ok(v) ==> Some(pairs_view(v@)) == ssl_attributes_spec(entries@),
        r matches Err(e) ==> e.message@ == "Error decoding UTF-8 string"@,
{
    let mut strings: Vec<(String, String)> = Vec::new();
    let n = entries.len();
    let mut i: usize = 0;
    while i < n
        invariant
            n == entries.len(),
            i <= n,
            ssl_attributes_spec(entries@.subrange(0, i as int)) == Some(pairs_view(strings@)),
        decreases n - i,
    {
        assert(entries@.subrange(0, i + 1).drop_last() =~= entries@.subrange(0, i as int));
        let ghost before = strings@;
        match &entries[i].1 {
            None => {},
            Some(value) => {
                let key = match to_string(entries[i].0.as_slice()) {
                    Ok(k) => k,
                    Err(e) => {
                        proof {
                            lemma_ssl_attributes_fail(entries@, i + 1);
                        }
                        return Err(PQError::from_message(e));
                    },
                };
                let val = match to_string(value.as_slice()) {
                    Ok(v) => v,
                    Err(e) => {
                        proof {
                            lemma_ssl_attributes_fail(entries@, i + 1);
                        }
                        return Err(PQError::from_message(e));
                    },
                };
                strings.push((key, val));
                assert(pairs_view(strings@) =~= pairs_view(before).push((key@, val@)));
            },
        }
        i = i + 1;
    }
    assert(entries@.subrange(0, n as int) =~= entries@);
    Ok(strings)
}

} // verus!
