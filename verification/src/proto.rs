//! Shapes of the query-service protocol messages. Every response carries a
//! status code and a list of issues; a non-success status is always an
//! error the client surfaces.

use vstd::prelude::*;

use crate::text::str_eq;
use crate::value::{RawColumn, RawResultSet, RawTypedValue};

verus! {

/// One human-readable issue message attached to a response.
#[derive(Clone, Debug, PartialEq)]
pub struct IssueMessage {
    pub issue_code: u32,
    pub message: String,
    pub severity: u32,
}

/// Operation deadline parameters attached to unary requests, in
/// milliseconds.
#[derive(Clone, Copy, Debug, PartialEq, Eq, Structural)]
pub struct OperationParams {
    pub operation_timeout_ms: Option<u64>,
    pub cancel_after_ms: Option<u64>,
}

#[derive(Clone, Debug, PartialEq)]
pub struct CreateSessionRequest {}

#[derive(Clone, Debug, PartialEq)]
pub struct CreateSessionResponse {
    pub status: i32,
    pub issues: Vec<IssueMessage>,
    pub session_id: String,
    pub node_id: i64,
}

#[derive(Clone, Debug, PartialEq)]
pub struct DeleteSessionRequest {
    pub session_id: String,
}

#[derive(Clone, Debug, PartialEq)]
pub struct DeleteSessionResponse {
    pub status: i32,
    pub issues: Vec<IssueMessage>,
}

#[derive(Clone, Debug, PartialEq)]
pub struct AttachSessionRequest {
    pub session_id: String,
}

/// One message of the session-health stream an attached session reports
/// on.
#[derive(Clone, Debug, PartialEq)]
pub struct SessionState {
    pub status: i32,
    pub issues: Vec<IssueMessage>,
}

#[derive(Clone, Debug, PartialEq)]
pub struct SerializableModeSettings {}

#[derive(Clone, Debug, PartialEq)]
pub struct OnlineModeSettings {
    pub allow_inconsistent_reads: bool,
}

#[derive(Clone, Debug, PartialEq)]
pub struct StaleModeSettings {}

#[derive(Clone, Debug, PartialEq)]
pub struct SnapshotModeSettings {}

/// The isolation mode a transaction is opened in.
#[derive(Clone, Debug, PartialEq)]
pub enum TxMode {
    SerializableReadWrite(SerializableModeSettings),
    OnlineReadOnly(OnlineModeSettings),
    StaleReadOnly(StaleModeSettings),
    SnapshotReadOnly(SnapshotModeSettings),
}

#[derive(Clone, Debug, PartialEq)]
pub struct TransactionSettings {
    pub tx_mode: Option<TxMode>,
}

/// Per-statement transaction control: whether to commit in the same round
/// trip, and which transaction the statement belongs to.
#[derive(Clone, Debug, PartialEq)]
pub struct TransactionControl {
    pub commit_tx: bool,
    pub tx_selector: Option<TxSelector>,
}

/// Either an already-open transaction, named by its identifier, or a
/// request to begin one with the given settings.
#[derive(Clone, Debug, PartialEq)]
pub enum TxSelector {
    TxId(String),
    BeginTx(TransactionSettings),
}

#[derive(Clone, Debug, PartialEq)]
pub struct BeginTransactionRequest {
    pub session_id: String,
    pub tx_settings: Option<TransactionSettings>,
}

#[derive(Clone, Debug, PartialEq)]
pub struct TransactionMeta {
    pub id: String,
}

#[derive(Clone, Debug, PartialEq)]
pub struct BeginTransactionResponse {
    pub status: i32,
    pub issues: Vec<IssueMessage>,
    pub tx_meta: Option<TransactionMeta>,
}

#[derive(Clone, Debug, PartialEq)]
pub struct CommitTransactionRequest {
    pub session_id: String,
    pub tx_id: String,
}

#[derive(Clone, Debug, PartialEq)]
pub struct CommitTransactionResponse {
    pub status: i32,
    pub issues: Vec<IssueMessage>,
}

#[derive(Clone, Debug, PartialEq)]
pub struct RollbackTransactionRequest {
    pub session_id: String,
    pub tx_id: String,
}

#[derive(Clone, Debug, PartialEq)]
pub struct RollbackTransactionResponse {
    pub status: i32,
    pub issues: Vec<IssueMessage>,
}

/// Query text together with the syntax it is written in.
#[derive(Clone, Debug, PartialEq)]
pub struct QueryContent {
    pub syntax: i32,
    pub text: String,
}

/// The query payload of an execute request.
#[derive(Clone, Debug, PartialEq)]
pub enum Query {
    QueryContent(QueryContent),
}

#[derive(Clone, Debug, PartialEq)]
pub struct ExecuteQueryRequest {
    pub session_id: String,
    pub exec_mode: i32,
    pub tx_control: Option<TransactionControl>,
    pub parameters: Vec<(String, RawTypedValue)>,
    pub stats_mode: i32,
    pub concurrent_result_sets: bool,
    pub query: Option<Query>,
}

#[derive(Clone, Debug, PartialEq)]
pub struct ResultSetMeta {
    pub columns: Vec<RawColumn>,
}

/// One chunk of a streaming execute response.
#[derive(Clone, Debug, PartialEq)]
pub struct ExecuteQueryResponsePart {
    pub status: i32,
    pub issues: Vec<IssueMessage>,
    pub result_set_index: i64,
    pub result_set: Option<RawResultSet>,
    pub tx_meta: Option<TransactionMeta>,
}

#[derive(Clone, Debug, PartialEq)]
pub struct ExecuteScriptRequest {
    pub operation_params: Option<OperationParams>,
    pub exec_mode: i32,
    pub script_content: Option<QueryContent>,
    pub parameters: Vec<(String, RawTypedValue)>,
    pub stats_mode: i32,
    pub results_ttl_ms: Option<i64>,
}

#[derive(Clone, Debug, PartialEq)]
pub struct ExecuteScriptMetadata {
    pub execution_id: String,
    pub exec_status: i32,
    pub script_content: Option<QueryContent>,
    pub result_sets_meta: Vec<ResultSetMeta>,
    pub exec_mode: i32,
}

#[derive(Clone, Debug, PartialEq)]
pub struct FetchScriptResultsRequest {
    pub operation_id: String,
    pub result_set_index: i64,
    pub fetch_token: String,
    pub rows_limit: i64,
}

#[derive(Clone, Debug, PartialEq)]
pub struct FetchScriptResultsResponse {
    pub status: i32,
    pub issues: Vec<IssueMessage>,
    pub result_set_index: i64,
    pub result_set: Option<RawResultSet>,
    pub next_fetch_token: String,
}

#[derive(Clone, Debug, PartialEq)]
pub struct Script {
    pub script_content: Option<QueryContent>,
}

/// The syntax a query's text is written in.
#[derive(Clone, Copy, Debug, PartialEq, Eq, Structural)]
pub enum Syntax {
    Unspecified,
    YqlV1,
    Pg,
}

impl Syntax {
    /// The numeric value each variant has on the wire.
    pub open spec fn spec_code(self) -> i32 {
        match self {
            Syntax::Unspecified => 0,
            Syntax::YqlV1 => 1,
            Syntax::Pg => 2,
        }
    }

    pub fn code(self) -> (r: i32)
        ensures
            r == self.spec_code(),
    {
        match self {
            Syntax::Unspecified => 0,
            Syntax::YqlV1 => 1,
            Syntax::Pg => 2,
        }
    }

    pub open spec fn spec_str_name(self) -> Seq<char> {
        match self {
            Syntax::Unspecified => "SYNTAX_UNSPECIFIED"@,
            Syntax::YqlV1 => "SYNTAX_YQL_V1"@,
            Syntax::Pg => "SYNTAX_PG"@,
        }
    }

    /// The stable field name of the variant in the protocol definition.
    pub fn as_str_name(&self) -> (r: &'static str)
        ensures
            r@ == self.spec_str_name(),
    {
        match self {
            Syntax::Unspecified => "SYNTAX_UNSPECIFIED",
            Syntax::YqlV1 => "SYNTAX_YQL_V1",
            Syntax::Pg => "SYNTAX_PG",
        }
    }

    pub open spec fn spec_from_str_name(value: Seq<char>) -> Option<Syntax> {
        if value == "SYNTAX_UNSPECIFIED"@ {
            Some(Syntax::Unspecified)
        } else if value == "SYNTAX_YQL_V1"@ {
            Some(Syntax::YqlV1)
        } else if value == "SYNTAX_PG"@ {
            Some(Syntax::Pg)
        } else {
            None
        }
    }

    /// The variant a stable field name stands for, if any.
    pub fn from_str_name(value: &str) -> (r: Option<Syntax>)
        ensures
            r == Syntax::spec_from_str_name(value@),
    {
        if str_eq(value, "SYNTAX_UNSPECIFIED") {
            Some(Syntax::Unspecified)
        } else if str_eq(value, "SYNTAX_YQL_V1") {
            Some(Syntax::YqlV1)
        } else if str_eq(value, "SYNTAX_PG") {
            Some(Syntax::Pg)
        } else {
            None
        }
    }
}

/// What an execute call does with the query: parse, validate, explain or
/// run it.
#[derive(Clone, Copy, Debug, PartialEq, Eq, Structural)]
pub enum ExecMode {
    Unspecified,
    Parse,
    Validate,
    Explain,
    Execute,
}

impl ExecMode {
    /// The numeric value each variant has on the wire.
    pub open spec fn spec_code(self) -> i32 {
        match self {
            ExecMode::Unspecified => 0,
            ExecMode::Parse => 10,
            ExecMode::Validate => 20,
            ExecMode::Explain => 30,
            ExecMode::Execute => 50,
        }
    }

    pub fn code(self) -> (r: i32)
        ensures
            r == self.spec_code(),
    {
        match self {
            ExecMode::Unspecified => 0,
            ExecMode::Parse => 10,
            ExecMode::Validate => 20,
            ExecMode::Explain => 30,
            ExecMode::Execute => 50,
        }
    }

    pub open spec fn spec_str_name(self) -> Seq<char> {
        match self {
            ExecMode::Unspecified => "EXEC_MODE_UNSPECIFIED"@,
            ExecMode::Parse => "EXEC_MODE_PARSE"@,
            ExecMode::Validate => "EXEC_MODE_VALIDATE"@,
            ExecMode::Explain => "EXEC_MODE_EXPLAIN"@,
            ExecMode::Execute => "EXEC_MODE_EXECUTE"@,
        }
    }

    /// The stable field name of the variant in the protocol definition.
    pub fn as_str_name(&self) -> (r: &'static str)
        ensures
            r@ == self.spec_str_name(),
    {
        match self {
            ExecMode::Unspecified => "EXEC_MODE_UNSPECIFIED",
            ExecMode::Parse => "EXEC_MODE_PARSE",
            ExecMode::Validate => "EXEC_MODE_VALIDATE",
            ExecMode::Explain => "EXEC_MODE_EXPLAIN",
            ExecMode::Execute => "EXEC_MODE_EXECUTE",
        }
    }

    pub open spec fn spec_from_str_name(value: Seq<char>) -> Option<ExecMode> {
        if value == "EXEC_MODE_UNSPECIFIED"@ {
            Some(ExecMode::Unspecified)
        } else if value == "EXEC_MODE_PARSE"@ {
            Some(ExecMode::Parse)
        } else if value == "EXEC_MODE_VALIDATE"@ {
            Some(ExecMode::Validate)
        } else if value == "EXEC_MODE_EXPLAIN"@ {
            Some(ExecMode::Explain)
        } else if value == "EXEC_MODE_EXECUTE"@ {
            Some(ExecMode::Execute)
        } else {
            None
        }
    }

    /// The variant a stable field name stands for, if any.
    pub fn from_str_name(value: &str) -> (r: Option<ExecMode>)
        ensures
            r == ExecMode::spec_from_str_name(value@),
    {
        if str_eq(value, "EXEC_MODE_UNSPECIFIED") {
            Some(ExecMode::Unspecified)
        } else if str_eq(value, "EXEC_MODE_PARSE") {
            Some(ExecMode::Parse)
        } else if str_eq(value, "EXEC_MODE_VALIDATE") {
            Some(ExecMode::Validate)
        } else if str_eq(value, "EXEC_MODE_EXPLAIN") {
            Some(ExecMode::Explain)
        } else if str_eq(value, "EXEC_MODE_EXECUTE") {
            Some(ExecMode::Execute)
        } else {
            None
        }
    }
}

/// How much execution statistics the server collects for a call.
#[derive(Clone, Copy, Debug, PartialEq, Eq, Structural)]
pub enum StatsMode {
    Unspecified,
    Disabled,
    Basic,
    Full,
    Profile,
}

impl StatsMode {
    /// The numeric value each variant has on the wire.
    pub open spec fn spec_code(self) -> i32 {
        match self {
            StatsMode::Unspecified => 0,
            StatsMode::Disabled => 10,
            StatsMode::Basic => 20,
            StatsMode::Full => 30,
            StatsMode::Profile => 40,
        }
    }

    pub fn code(self) -> (r: i32)
        ensures
            r == self.spec_code(),
    {
        match self {
            StatsMode::Unspecified => 0,
            StatsMode::Disabled => 10,
            StatsMode::Basic => 20,
            StatsMode::Full => 30,
            StatsMode::Profile => 40,
        }
    }

    pub open spec fn spec_str_name(self) -> Seq<char> {
        match self {
            StatsMode::Unspecified => "STATS_MODE_UNSPECIFIED"@,
            StatsMode::Disabled => "STATS_MODE_NONE"@,
            StatsMode::Basic => "STATS_MODE_BASIC"@,
            StatsMode::Full => "STATS_MODE_FULL"@,
            StatsMode::Profile => "STATS_MODE_PROFILE"@,
        }
    }

    /// The stable field name of the variant in the protocol definition.
    pub fn as_str_name(&self) -> (r: &'static str)
        ensures
            r@ == self.spec_str_name(),
    {
        match self {
            StatsMode::Unspecified => "STATS_MODE_UNSPECIFIED",
            StatsMode::Disabled => "STATS_MODE_NONE",
            StatsMode::Basic => "STATS_MODE_BASIC",
            StatsMode::Full => "STATS_MODE_FULL",
            StatsMode::Profile => "STATS_MODE_PROFILE",
        }
    }

    pub open spec fn spec_from_str_name(value: Seq<char>) -> Option<StatsMode> {
        if value == "STATS_MODE_UNSPECIFIED"@ {
            Some(StatsMode::Unspecified)
        } else if value == "STATS_MODE_NONE"@ {
            Some(StatsMode::Disabled)
        } else if value == "STATS_MODE_BASIC"@ {
            Some(StatsMode::Basic)
        } else if value == "STATS_MODE_FULL"@ {
            Some(StatsMode::Full)
        } else if value == "STATS_MODE_PROFILE"@ {
            Some(StatsMode::Profile)
        } else {
            None
        }
    }

    /// The variant a stable field name stands for, if any.
    pub fn from_str_name(value: &str) -> (r: Option<StatsMode>)
        ensures
            r == StatsMode::spec_from_str_name(value@),
    {
        if str_eq(value, "STATS_MODE_UNSPECIFIED") {
            Some(StatsMode::Unspecified)
        } else if str_eq(value, "STATS_MODE_NONE") {
            Some(StatsMode::Disabled)
        } else if str_eq(value, "STATS_MODE_BASIC") {
            Some(StatsMode::Basic)
        } else if str_eq(value, "STATS_MODE_FULL") {
            Some(StatsMode::Full)
        } else if str_eq(value, "STATS_MODE_PROFILE") {
            Some(StatsMode::Profile)
        } else {
            None
        }
    }
}

/// The lifecycle state of a long-running script execution.
#[derive(Clone, Copy, Debug, PartialEq, Eq, Structural)]
pub enum ExecStatus {
    Unspecified,
    Starting,
    Aborted,
    Cancelled,
    Completed,
    Failed,
}

impl ExecStatus {
    /// The numeric value each variant has on the wire.
    pub open spec fn spec_code(self) -> i32 {
        match self {
            ExecStatus::Unspecified => 0,
            ExecStatus::Starting => 10,
            ExecStatus::Aborted => 20,
            ExecStatus::Cancelled => 30,
            ExecStatus::Completed => 40,
            ExecStatus::Failed => 50,
        }
    }

    pub fn code(self) -> (r: i32)
        ensures
            r == self.spec_code(),
    {
        match self {
            ExecStatus::Unspecified => 0,
            ExecStatus::Starting => 10,
            ExecStatus::Aborted => 20,
            ExecStatus::Cancelled => 30,
            ExecStatus::Completed => 40,
            ExecStatus::Failed => 50,
        }
    }

    pub open spec fn spec_str_name(self) -> Seq<char> {
        match self {
            ExecStatus::Unspecified => "EXEC_STATUS_UNSPECIFIED"@,
            ExecStatus::Starting => "EXEC_STATUS_STARTING"@,
            ExecStatus::Aborted => "EXEC_STATUS_ABORTED"@,
            ExecStatus::Cancelled => "EXEC_STATUS_CANCELLED"@,
            ExecStatus::Completed => "EXEC_STATUS_COMPLETED"@,
            ExecStatus::Failed => "EXEC_STATUS_FAILED"@,
        }
    }

    /// The stable field name of the variant in the protocol definition.
    pub fn as_str_name(&self) -> (r: &'static str)
        ensures
            r@ == self.spec_str_name(),
    {
        match self {
            ExecStatus::Unspecified => "EXEC_STATUS_UNSPECIFIED",
            ExecStatus::Starting => "EXEC_STATUS_STARTING",
            ExecStatus::Aborted => "EXEC_STATUS_ABORTED",
            ExecStatus::Cancelled => "EXEC_STATUS_CANCELLED",
            ExecStatus::Completed => "EXEC_STATUS_COMPLETED",
            ExecStatus::Failed => "EXEC_STATUS_FAILED",
        }
    }

    pub open spec fn spec_from_str_name(value: Seq<char>) -> Option<ExecStatus> {
        if value == "EXEC_STATUS_UNSPECIFIED"@ {
            Some(ExecStatus::Unspecified)
        } else if value == "EXEC_STATUS_STARTING"@ {
            Some(ExecStatus::Starting)
        } else if value == "EXEC_STATUS_ABORTED"@ {
            Some(ExecStatus::Aborted)
        } else if value == "EXEC_STATUS_CANCELLED"@ {
            Some(ExecStatus::Cancelled)
        } else if value == "EXEC_STATUS_COMPLETED"@ {
            Some(ExecStatus::Completed)
        } else if value == "EXEC_STATUS_FAILED"@ {
            Some(ExecStatus::Failed)
        } else {
            None
        }
    }

    /// The variant a stable field name stands for, if any.
    pub fn from_str_name(value: &str) -> (r: Option<ExecStatus>)
        ensures
            r == ExecStatus::spec_from_str_name(value@),
    {
        if str_eq(value, "EXEC_STATUS_UNSPECIFIED") {
            Some(ExecStatus::Unspecified)
        } else if str_eq(value, "EXEC_STATUS_STARTING") {
            Some(ExecStatus::Starting)
        } else if str_eq(value, "EXEC_STATUS_ABORTED") {
            Some(ExecStatus::Aborted)
        } else if str_eq(value, "EXEC_STATUS_CANCELLED") {
            Some(ExecStatus::Cancelled)
        } else if str_eq(value, "EXEC_STATUS_COMPLETED") {
            Some(ExecStatus::Completed)
        } else if str_eq(value, "EXEC_STATUS_FAILED") {
            Some(ExecStatus::Failed)
        } else {
            None
        }
    }
}

} // verus!
