//! Sessions: one stateful server-side conversation handle per value.
//! Every request a session prepares carries the session's own
//! identifier; every response runs through a single error funnel that
//! marks the session non-poolable when the server has discarded it.

use vstd::prelude::*;

use core::marker::PhantomData;

use crate::errors::{YdbError, YdbResult};
use crate::proto;
use crate::proto::{OperationParams, TransactionSettings, TxMode};
use crate::query::{spec_params_to_wire, spec_params_wf, Query};
use crate::table;
use crate::table::{
    CollectStatsMode, CopyTableItem, RawBulkUpsertRequest, RawCopyTableRequest,
    RawCopyTablesRequest, RawExecuteDataQueryRequest, RawExecuteSchemeQueryRequest,
    RawKeepAliveRequest, RawKeepAliveResult, ScanQueryMode, SessionStatus,
};
use crate::types::{spec_to_wire, wf_value, Value};

verus! {

/// The default per-operation deadline, in milliseconds.
pub const DEFAULT_OPERATION_TIMEOUT_MS: u64 = 1000;

/// Per-call deadline settings a session attaches to every unary request.
#[derive(Clone, Copy, Debug, PartialEq, Eq, Structural)]
pub struct TimeoutSettings {
    pub operation_timeout_ms: u64,
}

impl Default for TimeoutSettings {
    /// The default deadline settings.
    fn default() -> (r: Self)
        ensures
            r.operation_timeout_ms == DEFAULT_OPERATION_TIMEOUT_MS,
    {
        Self { operation_timeout_ms: DEFAULT_OPERATION_TIMEOUT_MS }
    }
}

impl TimeoutSettings {
    /// The operation deadline parameters these settings stand for.
    pub open spec fn spec_operation_params(&self) -> OperationParams {
        OperationParams {
            operation_timeout_ms: Some(self.operation_timeout_ms),
            cancel_after_ms: None,
        }
    }

    pub fn operation_params(&self) -> (r: OperationParams)
        ensures
            r == self.spec_operation_params(),
    {
        OperationParams {
            operation_timeout_ms: Some(self.operation_timeout_ms),
            cancel_after_ms: None,
        }
    }
}

/// A tracing-correlation counter owned by one client instance: each call
/// takes the next request number. Owning the counter per instance keeps
/// correlation ids without process-wide shared state.
#[derive(Clone, Copy, Debug, PartialEq, Eq, Structural)]
pub struct RequestCounter {
    next: i64,
}

impl RequestCounter {
    pub closed spec fn spec_next(&self) -> i64 {
        self.next
    }

    pub fn new() -> (r: Self)
        ensures
            r.spec_next() == 0,
    {
        Self { next: 0 }
    }

    /// The next correlation number; numbers are handed out in order,
    /// each exactly once.
    pub fn req_number(&mut self) -> (r: i64)
        requires
            old(self).spec_next() < i64::MAX,
        ensures
            r == old(self).spec_next(),
            final(self).spec_next() == old(self).spec_next() + 1,
    {
        let n = self.next;
        self.next = self.next + 1;
        n
    }
}

/// Marker trait for the two service flavors a session can speak to.
pub trait Client {

}

/// The table-service flavor.
pub struct TableSessionClient;

impl Client for TableSessionClient {

}

/// The query-service flavor.
pub struct QueryServiceSessionClient;

impl Client for QueryServiceSessionClient {

}

/// What must happen when a session lease is released. Hooks fire in
/// reverse registration order.
#[derive(Clone, Copy, Debug, PartialEq, Eq, Structural)]
pub enum DropHook {
    /// Hand the session back to its pool, which recycles or discards it.
    ReturnToPool,
    /// Delete the remote session outright.
    DeleteSession,
}

/// One session: its server-assigned identifier, whether it may be
/// recycled to the pool, the release hooks, and its deadline settings.
pub struct Session<C: Client> {
    pub(crate) id: String,
    pub(crate) can_pooled: bool,
    on_drop_hooks: Vec<DropHook>,
    timeouts: TimeoutSettings,
    marker: PhantomData<C>,
}

/// A session speaking to the table service.
pub type TableSession = Session<TableSessionClient>;

/// A session speaking to the query service.
pub type QueryServiceSession = Session<QueryServiceSessionClient>;

impl<C: Client> Session<C> {
    pub closed spec fn spec_id(&self) -> Seq<char> {
        self.id@
    }

    pub closed spec fn spec_can_pooled(&self) -> bool {
        self.can_pooled
    }

    pub closed spec fn spec_hooks(&self) -> Seq<DropHook> {
        self.on_drop_hooks@
    }

    pub closed spec fn spec_timeouts(&self) -> TimeoutSettings {
        self.timeouts
    }

    /// Whether this session may still be recycled to the pool.
    pub fn can_pooled(&self) -> (r: bool)
        ensures
            r == self.spec_can_pooled(),
    {
        self.can_pooled
    }

    /// Gives the session up, keeping only its identifier.
    pub fn into_id(self) -> (r: String)
        ensures
            r@ == self.spec_id(),
    {
        self.id
    }

    /// A fresh session under the given server-assigned identifier; it
    /// starts poolable and without release hooks.
    pub fn new(id: String, timeouts: TimeoutSettings) -> (r: Self)
        ensures
            r.spec_id() == id@,
            r.spec_can_pooled(),
            r.spec_hooks() == Seq::<DropHook>::empty(),
            r.spec_timeouts() == timeouts,
    {
        Self {
            id,
            can_pooled: true,
            on_drop_hooks: Vec::new(),
            timeouts,
            marker: PhantomData,
        }
    }

    /// The single error funnel's side effect: an error that means the
    /// server discarded this session makes it non-poolable; any other
    /// error leaves it as it was.
    pub fn handle_error(&mut self, err: &YdbError)
        ensures
            final(self).spec_can_pooled() == (old(self).spec_can_pooled()
                && !err.spec_is_session_fatal()),
            final(self).spec_id() == old(self).spec_id(),
            final(self).spec_hooks() == old(self).spec_hooks(),
            final(self).spec_timeouts() == old(self).spec_timeouts(),
    {
        if let YdbError::YdbStatusError(status_err) = err {
            match crate::errors::StatusCode::from_i32(status_err.operation_status) {
                Some(status) => {
                    if status == crate::errors::StatusCode::BadSession || status
                        == crate::errors::StatusCode::SessionExpired {
                        self.can_pooled = false;
                    }
                },
                None => {},
            }
        }
    }

    /// Runs a call's outcome through the error funnel: the outcome is
    /// returned unchanged, and a session-fatal error marks the session
    /// non-poolable on the way through.
    pub fn handle_raw_result<T>(&mut self, res: YdbResult<T>) -> (r: YdbResult<T>)
        ensures
            r == res,
            final(self).spec_can_pooled() == (old(self).spec_can_pooled() && !(match res {
                Err(e) => e.spec_is_session_fatal(),
                Ok(_) => false,
            })),
            final(self).spec_id() == old(self).spec_id(),
            final(self).spec_hooks() == old(self).spec_hooks(),
            final(self).spec_timeouts() == old(self).spec_timeouts(),
    {
        match res {
            Ok(v) => Ok(v),
            Err(e) => {
                self.handle_error(&e);
                Err(e)
            },
        }
    }

    /// A copy of this session without its release hooks.
    pub fn clone_without_ondrop(&self) -> (r: Self)
        ensures
            r.spec_id() == self.spec_id(),
            r.spec_can_pooled() == self.spec_can_pooled(),
            r.spec_hooks() == Seq::<DropHook>::empty(),
            r.spec_timeouts() == self.spec_timeouts(),
    {
        Self {
            id: self.id.clone(),
            can_pooled: self.can_pooled,
            on_drop_hooks: Vec::new(),
            timeouts: self.timeouts,
            marker: PhantomData,
        }
    }

    /// This session with other deadline settings.
    pub fn with_timeouts(self, timeouts: TimeoutSettings) -> (r: Self)
        ensures
            r.spec_id() == self.spec_id(),
            r.spec_can_pooled() == self.spec_can_pooled(),
            r.spec_hooks() == self.spec_hooks(),
            r.spec_timeouts() == timeouts,
    {
        let mut s = self;
        s.timeouts = timeouts;
        s
    }

    /// Registers a release hook; hooks fire in reverse registration
    /// order when the lease is released.
    pub fn on_drop(&mut self, hook: DropHook)
        ensures
            final(self).spec_hooks() == old(self).spec_hooks().push(hook),
            final(self).spec_id() == old(self).spec_id(),
            final(self).spec_can_pooled() == old(self).spec_can_pooled(),
            final(self).spec_timeouts() == old(self).spec_timeouts(),
    {
        self.on_drop_hooks.push(hook);
    }

    /// Takes the most recently registered hook, so that release runs the
    /// hooks in reverse registration order.
    pub fn pop_drop_hook(&mut self) -> (r: Option<DropHook>)
        ensures
            old(self).spec_hooks().len() == 0 ==> r is None && final(self).spec_hooks() == old(
                self,
            ).spec_hooks(),
            old(self).spec_hooks().len() > 0 ==> (r == Some(old(self).spec_hooks().last())
                && final(self).spec_hooks() == old(self).spec_hooks().drop_last()),
            final(self).spec_id() == old(self).spec_id(),
            final(self).spec_can_pooled() == old(self).spec_can_pooled(),
            final(self).spec_timeouts() == old(self).spec_timeouts(),
    {
        self.on_drop_hooks.pop()
    }
}

impl TableSession {
    /// The CommitTransaction request for this session and transaction.
    pub fn commit_transaction_request(&self, tx_id: String) -> (r:
        table::RawCommitTransactionRequest)
        ensures
            r.session_id@ == self.spec_id(),
            r.tx_id == tx_id,
            r.operation_params == self.spec_timeouts().spec_operation_params(),
            r.collect_stats == CollectStatsMode::Disabled.spec_code(),
    {
        table::RawCommitTransactionRequest {
            session_id: self.id.clone(),
            tx_id,
            operation_params: self.timeouts.operation_params(),
            collect_stats: CollectStatsMode::Disabled.code(),
        }
    }

    /// The RollbackTransaction request for this session and transaction.
    pub fn rollback_transaction_request(&self, tx_id: String) -> (r:
        table::RawRollbackTransactionRequest)
        ensures
            r.session_id@ == self.spec_id(),
            r.tx_id == tx_id,
            r.operation_params == self.spec_timeouts().spec_operation_params(),
    {
        table::RawRollbackTransactionRequest {
            session_id: self.id.clone(),
            tx_id,
            operation_params: self.timeouts.operation_params(),
        }
    }

    /// The KeepAlive request for this session.
    pub fn keepalive_request(&self) -> (r: RawKeepAliveRequest)
        ensures
            r.session_id@ == self.spec_id(),
            r.operation_params == self.spec_timeouts().spec_operation_params(),
    {
        RawKeepAliveRequest {
            operation_params: self.timeouts.operation_params(),
            session_id: self.id.clone(),
        }
    }

    /// Interprets a keepalive outcome: the error funnel runs first, and
    /// a session that does not report itself ready fails the probe.
    pub fn handle_keepalive_result(&mut self, res: YdbResult<RawKeepAliveResult>) -> (r: YdbResult<
        (),
    >)
        ensures
            final(self).spec_id() == old(self).spec_id(),
            final(self).spec_hooks() == old(self).spec_hooks(),
            final(self).spec_timeouts() == old(self).spec_timeouts(),
            final(self).spec_can_pooled() == (old(self).spec_can_pooled() && !(match res {
                Err(e) => e.spec_is_session_fatal(),
                Ok(_) => false,
            })),
            match res {
                Ok(ka) => if ka.session_status is Ready {
                    r is Ok
                } else {
                    r matches Err(e) && e matches YdbError::Custom(m) && m@
                        == "bad status while session ping"@
                },
                Err(e) => r == Err::<(), YdbError>(e),
            },
    {
        let res = match self.handle_raw_result(res) {
            Ok(v) => v,
            Err(e) => {
                return Err(e);
            },
        };
        if let SessionStatus::Ready = res.session_status {
            Ok(())
        } else {
            let err = YdbError::from_str("bad status while session ping");
            self.handle_error(&err);
            Err(err)
        }
    }

    /// The ExecuteSchemeQuery request running this DDL text in this
    /// session.
    pub fn execute_schema_query_request(&self, query: String) -> (r:
        RawExecuteSchemeQueryRequest)
        ensures
            r.session_id@ == self.spec_id(),
            r.yql_text == query,
            r.operation_params == self.spec_timeouts().spec_operation_params(),
    {
        RawExecuteSchemeQueryRequest {
            session_id: self.id.clone(),
            yql_text: query,
            operation_params: self.timeouts.operation_params(),
        }
    }

    /// The BulkUpsert request writing these rows; fails when the rows
    /// value cannot be carried on the wire.
    pub fn bulk_upsert_request(&self, table_path: String, rows: Value) -> (r: YdbResult<
        RawBulkUpsertRequest,
    >)
        ensures
            wf_value(rows) ==> (r matches Ok(req) && req.table == table_path && req.rows
                == spec_to_wire(rows) && req.operation_params
                == self.spec_timeouts().spec_operation_params()),
            !wf_value(rows) ==> r is Err,
    {
        let typed = match rows.to_typed_value() {
            Ok(tv) => tv,
            Err(e) => {
                return Err(e);
            },
        };
        Ok(
            RawBulkUpsertRequest {
                table: table_path,
                rows: typed,
                operation_params: self.timeouts.operation_params(),
            },
        )
    }

    /// Substitutes this session's identifier and deadline parameters
    /// into a data-query request, leaving the rest of it as given: no
    /// request leaves a session without the session's own identifier.
    pub fn prepare_execute_data_query(&self, req: RawExecuteDataQueryRequest) -> (r:
        RawExecuteDataQueryRequest)
        ensures
            r.session_id@ == self.spec_id(),
            r.operation_params == self.spec_timeouts().spec_operation_params(),
            r.tx_control == req.tx_control,
            r.yql_text == req.yql_text,
            r.params == req.params,
            r.keep_in_cache == req.keep_in_cache,
            r.collect_stats == req.collect_stats,
    {
        RawExecuteDataQueryRequest {
            session_id: self.id.clone(),
            operation_params: self.timeouts.operation_params(),
            ..req
        }
    }

    /// Interprets a data-query outcome: the error funnel runs first,
    /// then the raw result becomes a `QueryResult` under the given
    /// truncation policy: with it enabled, the first truncated result
    /// set turns into an error naming its position; otherwise every set
    /// is converted in order.
    pub fn finish_execute_data_query(
        &mut self,
        error_on_truncated: bool,
        res: YdbResult<crate::table::RawExecuteDataQueryResult>,
    ) -> (r: YdbResult<crate::result::QueryResult>)
        ensures
            final(self).spec_id() == old(self).spec_id(),
            final(self).spec_hooks() == old(self).spec_hooks(),
            final(self).spec_timeouts() == old(self).spec_timeouts(),
            final(self).spec_can_pooled() == (old(self).spec_can_pooled() && !(match res {
                Err(e) => e.spec_is_session_fatal(),
                Ok(_) => false,
            })),
            res matches Err(e) ==> r == Err::<crate::result::QueryResult, YdbError>(e),
            res matches Ok(raw) ==> ({
                &&& (!error_on_truncated || forall|i: int|
                    0 <= i < raw.result_sets@.len() ==> !(#[trigger] raw.result_sets@[i].truncated))
                    ==> (r matches Ok(qr) && qr.spec_tx_id() == raw.tx_meta.id@
                    && qr.spec_results().len() == raw.result_sets@.len() && forall|i: int|
                    0 <= i < raw.result_sets@.len() ==> ({
                        let rs = #[trigger] qr.spec_results()[i];
                        &&& rs.spec_columns() == crate::result::spec_columns_of(
                            raw.result_sets@[i].columns@,
                        )
                        &&& rs.spec_rows() == raw.result_sets@[i].rows@
                        &&& rs.spec_truncated() == raw.result_sets@[i].truncated
                    }))
                &&& error_on_truncated ==> forall|i: int|
                    (0 <= i < raw.result_sets@.len() && (#[trigger] raw.result_sets@[i].truncated)
                        && (forall|j: int|
                        0 <= j < i ==> !(#[trigger] raw.result_sets@[j].truncated))) ==> (
                    r matches Err(e) && e matches YdbError::TruncatedResult {
                        result_set_index,
                    } && result_set_index == i)
            }),
    {
        let raw = match self.handle_raw_result(res) {
            Ok(raw) => raw,
            Err(e) => {
                return Err(e);
            },
        };
        crate::result::QueryResult::from_raw_result(error_on_truncated, raw)
    }

    /// The CopyTable request for this session.
    pub fn copy_table_request(&self, source_path: String, destination_path: String) -> (r:
        RawCopyTableRequest)
        ensures
            r.session_id@ == self.spec_id(),
            r.source_path == source_path,
            r.destination_path == destination_path,
            r.operation_params == self.spec_timeouts().spec_operation_params(),
    {
        RawCopyTableRequest {
            session_id: self.id.clone(),
            source_path,
            destination_path,
            operation_params: self.timeouts.operation_params(),
        }
    }

    /// The CopyTables request copying this batch in one call.
    pub fn copy_tables_request(&self, tables: Vec<CopyTableItem>) -> (r: RawCopyTablesRequest)
        ensures
            r.session_id@ == self.spec_id(),
            r.tables == tables,
            r.operation_params == self.spec_timeouts().spec_operation_params(),
    {
        RawCopyTablesRequest {
            operation_params: self.timeouts.operation_params(),
            session_id: self.id.clone(),
            tables,
        }
    }
}

/// The ExecuteScanQuery request running this query in execute mode; a
/// scan query is issued outside any session. Fails when some parameter
/// cannot be carried on the wire.
pub fn scan_query_request(query: Query) -> (r: YdbResult<table::ExecuteScanQueryRequest>)
    ensures
        spec_params_wf(query.spec_params()) ==> (r matches Ok(req) && (req.query matches Some(q)
            && q.query matches Some(v) && v matches table::QueryVariant::YqlText(t) && t@
            == query.spec_text())
            && req.parameters@ == spec_params_to_wire(query.spec_params()) && req.mode
            == ScanQueryMode::Exec.spec_code()),
        !spec_params_wf(query.spec_params()) ==> r is Err,
{
    let query_proto = query.query_to_table_proto();
    let params = match query.params_to_proto() {
        Ok(p) => p,
        Err(e) => {
            return Err(e);
        },
    };
    Ok(
        table::ExecuteScanQueryRequest {
            query: Some(query_proto),
            parameters: params,
            mode: ScanQueryMode::Exec.code(),
        },
    )
}

impl QueryServiceSession {
    /// The BeginTransaction request opening a transaction in this mode.
    pub fn begin_transaction_request(&self, tx_mode: TxMode) -> (r:
        proto::BeginTransactionRequest)
        ensures
            r.session_id@ == self.spec_id(),
            r.tx_settings == Some(TransactionSettings { tx_mode: Some(tx_mode) }),
    {
        proto::BeginTransactionRequest {
            session_id: self.id.clone(),
            tx_settings: Some(TransactionSettings { tx_mode: Some(tx_mode) }),
        }
    }

    /// The CommitTransaction request for this session and transaction.
    pub fn commit_transaction_request(&self, tx_id: String) -> (r:
        proto::CommitTransactionRequest)
        ensures
            r.session_id@ == self.spec_id(),
            r.tx_id == tx_id,
    {
        proto::CommitTransactionRequest { session_id: self.id.clone(), tx_id }
    }

    /// The RollbackTransaction request for this session and transaction.
    pub fn rollback_transaction_request(&self, tx_id: String) -> (r:
        proto::RollbackTransactionRequest)
        ensures
            r.session_id@ == self.spec_id(),
            r.tx_id == tx_id,
    {
        proto::RollbackTransactionRequest { session_id: self.id.clone(), tx_id }
    }

    /// The AttachSession request opening this session's health stream.
    pub fn attach_session_request(&self) -> (r: proto::AttachSessionRequest)
        ensures
            r.session_id@ == self.spec_id(),
    {
        proto::AttachSessionRequest { session_id: self.id.clone() }
    }

    /// The ExecuteQuery request running this query in this session: the
    /// session's identifier and the query's transaction control, text
    /// and parameters are all substituted in. Fails when some parameter
    /// cannot be carried on the wire.
    pub fn execute_query_request(&self, query: Query) -> (r: YdbResult<
        proto::ExecuteQueryRequest,
    >)
        ensures
            spec_params_wf(query.spec_params()) ==> (r matches Ok(req) && req.session_id@
                == self.spec_id() && req.tx_control == query.spec_tx_control() && (req.query
                matches Some(q) && q matches proto::Query::QueryContent(c) && c.syntax
                == proto::Syntax::YqlV1.spec_code() && c.text@ == query.spec_text())
                && req.parameters@ == spec_params_to_wire(query.spec_params()) && req.exec_mode
                == proto::ExecMode::Execute.spec_code() && req.stats_mode
                == proto::StatsMode::Unspecified.spec_code() && !req.concurrent_result_sets),
            !spec_params_wf(query.spec_params()) ==> r is Err,
    {
        let (tx_control, query_proto, params) = match query.into_wire_parts(
            proto::Syntax::YqlV1,
        ) {
            Ok(p) => p,
            Err(e) => {
                return Err(e);
            },
        };
        Ok(
            proto::ExecuteQueryRequest {
                session_id: self.id.clone(),
                exec_mode: proto::ExecMode::Execute.code(),
                tx_control,
                parameters: params,
                stats_mode: proto::StatsMode::Unspecified.code(),
                concurrent_result_sets: false,
                query: Some(query_proto),
            },
        )
    }
}

} // verus!
