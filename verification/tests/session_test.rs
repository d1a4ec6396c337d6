use ydb::errors::YdbStatusError;
use ydb::proto::{CreateSessionResponse, TransactionMeta, TxMode};
use ydb::raw_query_service::{RawBeginTransactionResult, RawCreateSessionResult};
use ydb::session::{
    DropHook, QueryServiceSession, Session, TableSession, TableSessionClient, TimeoutSettings,
};
use ydb::session_pool::{LendOutcome, SessionPool};
use ydb::table::{RawKeepAliveResult, SessionStatus};
use ydb::transaction::InteractiveTransaction;
use ydb::proto::BeginTransactionResponse;
use ydb::proto::TxSelector;
use ydb::table::RawExecuteDataQueryResult;
use ydb::value::{RawColumn, RawResultSet, RawType, RawValue};
use ydb::{StatusCode, YdbError};

fn bad_session_error() -> YdbError {
    YdbError::YdbStatusError(YdbStatusError {
        message: String::new(),
        operation_status: StatusCode::BadSession.code(),
        issues: vec![],
    })
}

fn expired_session_error() -> YdbError {
    YdbError::YdbStatusError(YdbStatusError {
        message: String::new(),
        operation_status: StatusCode::SessionExpired.code(),
        issues: vec![],
    })
}

fn table_session(id: &str) -> TableSession {
    Session::new(id.to_string(), TimeoutSettings::default())
}

fn query_session(id: &str) -> QueryServiceSession {
    Session::new(id.to_string(), TimeoutSettings::default())
}

#[test]
fn test_handle_error_marks_bad_session_unpoolable() {
    let mut s = table_session("s1");
    assert!(s.can_pooled());
    s.handle_error(&YdbError::Custom("other".to_string()));
    assert!(s.can_pooled());
    s.handle_error(&bad_session_error());
    assert!(!s.can_pooled());
}

#[test]
fn test_handle_error_marks_expired_session_unpoolable() {
    let mut s = table_session("s1");
    s.handle_error(&expired_session_error());
    assert!(!s.can_pooled());
}

#[test]
fn test_handle_raw_result_passes_outcome_through() {
    let mut s = table_session("s1");
    let r: Result<u32, YdbError> = s.handle_raw_result(Ok(7));
    assert_eq!(r.unwrap(), 7);
    let r: Result<u32, YdbError> = s.handle_raw_result(Err(bad_session_error()));
    assert!(r.is_err());
    assert!(!s.can_pooled());
}

#[test]
fn test_requests_carry_the_sessions_own_identifier() {
    let s = table_session("session-a");
    assert_eq!(s.commit_transaction_request("tx".to_string()).session_id, "session-a");
    assert_eq!(s.rollback_transaction_request("tx".to_string()).session_id, "session-a");
    assert_eq!(s.keepalive_request().session_id, "session-a");
    assert_eq!(s.execute_schema_query_request("CREATE TABLE t".to_string()).session_id, "session-a");
    assert_eq!(
        s.copy_table_request("/a".to_string(), "/b".to_string()).session_id,
        "session-a"
    );

    let q = query_session("session-b");
    assert_eq!(q.attach_session_request().session_id, "session-b");
    assert_eq!(q.commit_transaction_request("tx".to_string()).session_id, "session-b");
    assert_eq!(q.rollback_transaction_request("tx".to_string()).session_id, "session-b");
    let begin = q.begin_transaction_request(TxMode::SerializableReadWrite(
        ydb::proto::SerializableModeSettings {},
    ));
    assert_eq!(begin.session_id, "session-b");
    assert!(begin.tx_settings.is_some());
}

#[test]
fn test_execute_query_request_substitutes_everything() {
    let q = query_session("session-c");
    let query = ydb::Query::new("SELECT 1").with_tx_control(true, None);
    let req = q.execute_query_request(query).unwrap();
    assert_eq!(req.session_id, "session-c");
    assert!(req.tx_control.is_some());
    assert!(req.query.is_some());
    assert!(!req.concurrent_result_sets);
}

#[test]
fn test_keepalive_requires_ready_status() {
    let mut s = table_session("s1");
    assert!(s
        .handle_keepalive_result(Ok(RawKeepAliveResult { session_status: SessionStatus::Ready }))
        .is_ok());
    let r = s.handle_keepalive_result(Ok(RawKeepAliveResult {
        session_status: SessionStatus::Busy,
    }));
    match r {
        Err(YdbError::Custom(m)) => assert_eq!(m, "bad status while session ping"),
        other => panic!("expected the ping error, got {:?}", other),
    }
}

#[test]
fn test_drop_hooks_fire_in_reverse_registration_order() {
    let mut s = table_session("s1");
    s.on_drop(DropHook::ReturnToPool);
    s.on_drop(DropHook::DeleteSession);
    assert_eq!(s.pop_drop_hook(), Some(DropHook::DeleteSession));
    assert_eq!(s.pop_drop_hook(), Some(DropHook::ReturnToPool));
    assert_eq!(s.pop_drop_hook(), None);
}

#[test]
fn test_clone_without_ondrop_clears_hooks() {
    let mut s = table_session("s1");
    s.on_drop(DropHook::ReturnToPool);
    let mut c = s.clone_without_ondrop();
    assert!(c.can_pooled());
    assert_eq!(c.pop_drop_hook(), None);
}

#[test]
fn test_pool_never_lends_more_than_the_maximum() {
    let mut pool: SessionPool<TableSessionClient> =
        SessionPool::new().with_max_active_sessions(1);
    // First lend reserves the only slot.
    assert!(matches!(pool.try_acquire(), LendOutcome::MustCreate));
    // At capacity the request waits.
    assert!(matches!(pool.try_acquire(), LendOutcome::AtCapacity));
    // A return frees the slot and the next lend proceeds.
    let returned = table_session("s1");
    assert!(pool.return_session(returned).is_none());
    match pool.try_acquire() {
        LendOutcome::Reuse(s) => assert!(s.can_pooled()),
        _ => panic!("expected to reuse the returned session"),
    }
}

#[test]
fn test_bad_session_is_never_recycled() {
    let mut pool: SessionPool<TableSessionClient> =
        SessionPool::new().with_max_active_sessions(2);
    assert!(matches!(pool.try_acquire(), LendOutcome::MustCreate));
    let mut s = table_session("bad-one");
    s.handle_error(&bad_session_error());
    // The pool refuses it and hands its identifier back for deletion.
    assert_eq!(pool.return_session(s).as_deref(), Some("bad-one"));
    // The next draw finds no idle session: the bad one is gone for good.
    assert!(matches!(pool.try_acquire(), LendOutcome::MustCreate));
}

#[test]
fn test_failed_creation_releases_the_slot() {
    let mut pool: SessionPool<TableSessionClient> =
        SessionPool::new().with_max_active_sessions(1);
    assert!(matches!(pool.try_acquire(), LendOutcome::MustCreate));
    pool.cancel_pending();
    assert!(matches!(pool.try_acquire(), LendOutcome::MustCreate));
}

#[test]
fn test_create_session_result_requires_identifier() {
    let resp = CreateSessionResponse {
        status: StatusCode::Success.code(),
        issues: vec![],
        session_id: String::new(),
        node_id: 0,
    };
    assert!(RawCreateSessionResult::try_from(resp).is_err());
    let resp = CreateSessionResponse {
        status: StatusCode::Success.code(),
        issues: vec![],
        session_id: "s-9".to_string(),
        node_id: 0,
    };
    assert_eq!(RawCreateSessionResult::try_from(resp).unwrap().session_id, "s-9");
}

#[test]
fn test_begin_transaction_result_requires_tx_id() {
    let resp = BeginTransactionResponse {
        status: StatusCode::Success.code(),
        issues: vec![],
        tx_meta: None,
    };
    assert!(RawBeginTransactionResult::try_from(resp).is_err());
    let resp = BeginTransactionResponse {
        status: StatusCode::Success.code(),
        issues: vec![],
        tx_meta: Some(TransactionMeta { id: "tx-7".to_string() }),
    };
    assert_eq!(RawBeginTransactionResult::try_from(resp).unwrap().tx_id, "tx-7");
}

#[test]
fn test_finish_execute_data_query_runs_funnel_and_converts() {
    let mut s = table_session("s1");
    // An error runs through the funnel: a session-fatal one unpools.
    let r = s.finish_execute_data_query(false, Err(bad_session_error()));
    assert!(r.is_err());
    assert!(!s.can_pooled());

    // A raw result converts; truncation policy applies per set.
    let mut s = table_session("s2");
    let raw = RawExecuteDataQueryResult {
        result_sets: vec![RawResultSet {
            columns: vec![RawColumn { name: "x".to_string(), v_type: RawType::Int64 }],
            rows: vec![vec![RawValue::Int64(1)]],
            truncated: true,
        }],
        tx_meta: TransactionMeta { id: "tx".to_string() },
    };
    match s.finish_execute_data_query(true, Ok(raw)) {
        Err(YdbError::TruncatedResult { result_set_index }) => assert_eq!(result_set_index, 0),
        other => panic!("expected a truncation error, got {:?}", other),
    }
    assert!(s.can_pooled());
}

#[test]
fn test_interactive_transaction_identifier_lifecycle() {
    let mut tx = InteractiveTransaction::new();
    // The first statement must open a transaction.
    assert!(matches!(tx.selector_for_next_statement(), TxSelector::BeginTx(_)));
    // Finishing before any statement is a caller error.
    assert!(tx.finish_tx_id().is_err());
    // The first response's identifier is captured...
    tx.note_response_tx_id("tx-1".to_string());
    match tx.selector_for_next_statement() {
        TxSelector::TxId(id) => assert_eq!(id, "tx-1"),
        other => panic!("expected the captured identifier, got {:?}", other),
    }
    // ...and later identifiers do not displace it.
    tx.note_response_tx_id("tx-2".to_string());
    assert_eq!(tx.finish_tx_id().unwrap(), "tx-1");
}
