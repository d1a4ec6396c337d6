//! Shapes of the table-service protocol messages the client issues:
//! data/scheme/scan queries, bulk upsert, table copies, keepalive and
//! transaction control.

use vstd::prelude::*;

use crate::proto::{IssueMessage, OperationParams, TransactionControl, TransactionMeta};
use crate::value::{RawResultSet, RawTypedValue};

verus! {

/// How much statistics the table service collects for a call.
#[derive(Clone, Copy, Debug, PartialEq, Eq, Structural)]
pub enum CollectStatsMode {
    Unspecified,
    Disabled,
    Basic,
    Full,
    Profile,
}

impl CollectStatsMode {
    /// The numeric value each variant has on the wire.
    pub open spec fn spec_code(self) -> i32 {
        match self {
            CollectStatsMode::Unspecified => 0,
            CollectStatsMode::Disabled => 1,
            CollectStatsMode::Basic => 2,
            CollectStatsMode::Full => 3,
            CollectStatsMode::Profile => 4,
        }
    }

    pub fn code(self) -> (r: i32)
        ensures
            r == self.spec_code(),
    {
        match self {
            CollectStatsMode::Unspecified => 0,
            CollectStatsMode::Disabled => 1,
            CollectStatsMode::Basic => 2,
            CollectStatsMode::Full => 3,
            CollectStatsMode::Profile => 4,
        }
    }
}

/// The health a keepalive probe reports for a session.
#[derive(Clone, Copy, Debug, PartialEq, Eq, Structural)]
pub enum SessionStatus {
    Unspecified,
    Ready,
    Busy,
}

/// The query payload of a table-service call: inline text or a prepared
/// query's identifier.
#[derive(Clone, Debug, PartialEq)]
pub enum QueryVariant {
    YqlText(String),
    Id(String),
}

/// A table-service query.
#[derive(Clone, Debug, PartialEq)]
pub struct Query {
    pub query: Option<QueryVariant>,
}

/// An ExecuteDataQuery request.
#[derive(Clone, Debug, PartialEq)]
pub struct RawExecuteDataQueryRequest {
    pub session_id: String,
    pub tx_control: Option<TransactionControl>,
    pub yql_text: String,
    pub params: Vec<(String, RawTypedValue)>,
    pub keep_in_cache: bool,
    pub operation_params: OperationParams,
    pub collect_stats: i32,
}

/// What an ExecuteDataQuery response carries once its operation envelope
/// has been checked: the result sets and the transaction in effect.
#[derive(Clone, Debug, PartialEq)]
pub struct RawExecuteDataQueryResult {
    pub result_sets: Vec<RawResultSet>,
    pub tx_meta: TransactionMeta,
}

/// A CommitTransaction request of the table service.
#[derive(Clone, Debug, PartialEq)]
pub struct RawCommitTransactionRequest {
    pub session_id: String,
    pub tx_id: String,
    pub operation_params: OperationParams,
    pub collect_stats: i32,
}

/// A RollbackTransaction request of the table service.
#[derive(Clone, Debug, PartialEq)]
pub struct RawRollbackTransactionRequest {
    pub session_id: String,
    pub tx_id: String,
    pub operation_params: OperationParams,
}

/// An ExecuteSchemeQuery request: DDL text run outside any transaction.
#[derive(Clone, Debug, PartialEq)]
pub struct RawExecuteSchemeQueryRequest {
    pub session_id: String,
    pub yql_text: String,
    pub operation_params: OperationParams,
}

/// A BulkUpsert request: rows for a table, already in wire form.
#[derive(Clone, Debug, PartialEq)]
pub struct RawBulkUpsertRequest {
    pub table: String,
    pub rows: RawTypedValue,
    pub operation_params: OperationParams,
}

/// A KeepAlive request.
#[derive(Clone, Debug, PartialEq)]
pub struct RawKeepAliveRequest {
    pub operation_params: OperationParams,
    pub session_id: String,
}

/// What a KeepAlive response reports.
#[derive(Clone, Copy, Debug, PartialEq, Eq, Structural)]
pub struct RawKeepAliveResult {
    pub session_status: SessionStatus,
}

/// A CopyTable request.
#[derive(Clone, Debug, PartialEq)]
pub struct RawCopyTableRequest {
    pub session_id: String,
    pub source_path: String,
    pub destination_path: String,
    pub operation_params: OperationParams,
}

/// One source/destination pair of a batch table copy.
#[derive(Clone, Debug, PartialEq)]
pub struct CopyTableItem {
    pub source_path: String,
    pub destination_path: String,
    pub omit_indexes: bool,
}

/// A CopyTables request: a batch of copies in one call.
#[derive(Clone, Debug, PartialEq)]
pub struct RawCopyTablesRequest {
    pub operation_params: OperationParams,
    pub session_id: String,
    pub tables: Vec<CopyTableItem>,
}

/// What a scan query does: explain or execute.
#[derive(Clone, Copy, Debug, PartialEq, Eq, Structural)]
pub enum ScanQueryMode {
    Unspecified,
    Explain,
    Exec,
}

impl ScanQueryMode {
    /// The numeric value each variant has on the wire.
    pub open spec fn spec_code(self) -> i32 {
        match self {
            ScanQueryMode::Unspecified => 0,
            ScanQueryMode::Explain => 1,
            ScanQueryMode::Exec => 2,
        }
    }

    pub fn code(self) -> (r: i32)
        ensures
            r == self.spec_code(),
    {
        match self {
            ScanQueryMode::Unspecified => 0,
            ScanQueryMode::Explain => 1,
            ScanQueryMode::Exec => 2,
        }
    }
}

/// An ExecuteScanQuery request; its response is a stream of partial
/// results.
#[derive(Clone, Debug, PartialEq)]
pub struct ExecuteScanQueryRequest {
    pub query: Option<Query>,
    pub parameters: Vec<(String, RawTypedValue)>,
    pub mode: i32,
}

/// The payload wrapper of a scan-query response chunk.
#[derive(Clone, Debug, PartialEq)]
pub struct ExecuteScanQueryPartialResult {
    pub result_set: Option<RawResultSet>,
}

/// One chunk of a streaming scan-query response.
#[derive(Clone, Debug, PartialEq)]
pub struct ExecuteScanQueryPartialResponse {
    pub status: i32,
    pub issues: Vec<IssueMessage>,
    pub result: Option<ExecuteScanQueryPartialResult>,
}

} // verus!
