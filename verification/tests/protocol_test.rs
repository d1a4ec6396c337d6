use ydb::proto::{ExecMode, ExecStatus, StatsMode, Syntax, TxSelector};
use ydb::{Query, Value};

#[test]
fn test_syntax_names_and_codes() {
    assert_eq!(Syntax::Unspecified.as_str_name(), "SYNTAX_UNSPECIFIED");
    assert_eq!(Syntax::YqlV1.as_str_name(), "SYNTAX_YQL_V1");
    assert_eq!(Syntax::Pg.as_str_name(), "SYNTAX_PG");
    assert_eq!(Syntax::from_str_name("SYNTAX_YQL_V1"), Some(Syntax::YqlV1));
    assert_eq!(Syntax::from_str_name("nonsense"), None);
    assert_eq!(Syntax::YqlV1.code(), 1);
}

#[test]
fn test_exec_mode_names_and_codes() {
    assert_eq!(ExecMode::Execute.as_str_name(), "EXEC_MODE_EXECUTE");
    assert_eq!(ExecMode::from_str_name("EXEC_MODE_PARSE"), Some(ExecMode::Parse));
    assert_eq!(ExecMode::from_str_name(""), None);
    assert_eq!(ExecMode::Execute.code(), 50);
    assert_eq!(ExecMode::Explain.code(), 30);
}

#[test]
fn test_stats_mode_names_and_codes() {
    assert_eq!(StatsMode::Disabled.as_str_name(), "STATS_MODE_NONE");
    assert_eq!(StatsMode::from_str_name("STATS_MODE_FULL"), Some(StatsMode::Full));
    assert_eq!(StatsMode::Unspecified.code(), 0);
    assert_eq!(StatsMode::Profile.code(), 40);
}

#[test]
fn test_exec_status_names() {
    assert_eq!(ExecStatus::Completed.as_str_name(), "EXEC_STATUS_COMPLETED");
    assert_eq!(
        ExecStatus::from_str_name("EXEC_STATUS_FAILED"),
        Some(ExecStatus::Failed)
    );
    assert_eq!(ExecStatus::from_str_name("EXEC_STATUS"), None);
    assert_eq!(ExecStatus::Failed.code(), 50);
}

#[test]
fn test_query_keep_in_cache_defaults_to_nonempty_params() {
    // Parameters present: the hint defaults to true.
    let q = Query::new("SELECT $a")
        .with_params(vec![("$a".to_string(), Value::Int64(1))]);
    let req = ydb::session::scan_query_request(q).unwrap();
    assert_eq!(req.parameters.len(), 1);

    // An explicit override wins over the default.
    let q = Query::new("SELECT $a")
        .with_keep_in_cache(false)
        .with_params(vec![("$a".to_string(), Value::Int64(1))]);
    let req = ydb::session::scan_query_request(q).unwrap();
    assert_eq!(req.parameters.len(), 1);
}

#[test]
fn test_query_params_encode_names_and_values() {
    let q = Query::new("SELECT $a, $b").with_params(vec![
        ("$a".to_string(), Value::Int64(1)),
        ("$b".to_string(), Value::Text("x".to_string())),
    ]);
    let params = q.params_to_proto().unwrap();
    assert_eq!(params.len(), 2);
    assert_eq!(params[0].0, "$a");
    assert_eq!(params[1].0, "$b");
}

#[test]
fn test_query_tx_control() {
    let q = Query::new("SELECT 1").with_tx_control(true, Some(TxSelector::TxId("t".to_string())));
    let proto = q.query_to_table_proto();
    assert!(proto.query.is_some());
}
