use ydb::proto::TransactionMeta;
use ydb::table::RawExecuteDataQueryResult;
use ydb::value::{RawColumn, RawResultSet, RawType, RawValue};
use ydb::{QueryResult, ResultSet, Value, YdbError};

fn one_column_set(name: &str, values: Vec<RawValue>, truncated: bool) -> RawResultSet {
    RawResultSet {
        columns: vec![RawColumn { name: name.to_string(), v_type: RawType::Int64 }],
        rows: values.into_iter().map(|v| vec![v]).collect(),
        truncated,
    }
}

fn query_result(sets: Vec<RawResultSet>) -> QueryResult {
    QueryResult::from_raw_result(
        false,
        RawExecuteDataQueryResult {
            result_sets: sets,
            tx_meta: TransactionMeta { id: "tx-1".to_string() },
        },
    )
    .unwrap()
}

#[test]
fn test_from_raw_result_keeps_tx_id_and_sets() {
    let qr = query_result(vec![one_column_set("x", vec![RawValue::Int64(1)], false)]);
    assert_eq!(qr.tx_id(), "tx-1");
}

#[test]
fn test_truncated_set_with_error_on_truncate_names_position() {
    let sets = vec![
        one_column_set("a", vec![RawValue::Int64(1)], false),
        one_column_set("b", vec![RawValue::Int64(2)], true),
    ];
    let r = QueryResult::from_raw_result(
        true,
        RawExecuteDataQueryResult {
            result_sets: sets,
            tx_meta: TransactionMeta { id: String::new() },
        },
    );
    match r {
        Err(YdbError::TruncatedResult { result_set_index }) => assert_eq!(result_set_index, 1),
        other => panic!("expected a truncation error, got {:?}", other),
    }
}

#[test]
fn test_truncated_set_without_flag_yields_data() {
    let sets = vec![one_column_set("a", vec![RawValue::Int64(1)], true)];
    let qr = QueryResult::from_raw_result(
        false,
        RawExecuteDataQueryResult {
            result_sets: sets,
            tx_meta: TransactionMeta { id: String::new() },
        },
    )
    .unwrap();
    let rs = qr.into_only_result().unwrap();
    assert!(rs.truncated());
    let mut rows = rs.rows();
    assert!(rows.next().is_some());
}

#[test]
fn test_into_only_row_zero_sets_is_no_rows() {
    let qr = query_result(vec![]);
    match qr.into_only_row() {
        Err(YdbError::NoRows) => {}
        other => panic!("expected the no-rows error, got {:?}", other),
    }
}

#[test]
fn test_into_only_row_single_row() {
    let qr = query_result(vec![one_column_set("x", vec![RawValue::Int64(7)], false)]);
    let mut row = qr.into_only_row().unwrap();
    let v = row.remove_field_by_name("x").unwrap();
    assert_eq!(v, Value::Int64(7));
}

#[test]
fn test_into_only_row_two_sets_names_cardinality() {
    let qr = query_result(vec![
        one_column_set("x", vec![RawValue::Int64(1)], false),
        one_column_set("y", vec![RawValue::Int64(2)], false),
    ]);
    match qr.into_only_row() {
        Err(YdbError::Custom(m)) => assert_eq!(m, "more then one result set"),
        other => panic!("expected a cardinality error, got {:?}", other),
    }
}

#[test]
fn test_into_only_row_two_rows_names_cardinality() {
    let qr = query_result(vec![one_column_set(
        "x",
        vec![RawValue::Int64(1), RawValue::Int64(2)],
        false,
    )]);
    match qr.into_only_row() {
        Err(YdbError::Custom(m)) => assert_eq!(m, "result set has more then one row"),
        other => panic!("expected a cardinality error, got {:?}", other),
    }
}

#[test]
fn test_into_only_row_empty_set_is_no_rows() {
    let qr = query_result(vec![one_column_set("x", vec![], false)]);
    match qr.into_only_row() {
        Err(YdbError::NoRows) => {}
        other => panic!("expected the no-rows error, got {:?}", other),
    }
}

#[test]
fn test_into_only_result_errors() {
    let qr = query_result(vec![]);
    match qr.into_only_result() {
        Err(YdbError::Custom(m)) => assert_eq!(m, "no result set"),
        other => panic!("expected an error, got {:?}", other),
    }
}

#[test]
fn test_remove_field_twice_fails_second_time() {
    let qr = query_result(vec![one_column_set("x", vec![RawValue::Int64(3)], false)]);
    let mut row = qr.into_only_row().unwrap();
    assert_eq!(row.remove_field_by_name("x").unwrap(), Value::Int64(3));
    assert!(row.remove_field_by_name("x").is_err());
}

#[test]
fn test_remove_field_by_index_twice_fails_second_time() {
    let qr = query_result(vec![one_column_set("x", vec![RawValue::Int64(3)], false)]);
    let mut row = qr.into_only_row().unwrap();
    assert_eq!(row.remove_field(0).unwrap(), Value::Int64(3));
    assert!(row.remove_field(0).is_err());
}

#[test]
fn test_remove_field_unknown_name_fails() {
    let qr = query_result(vec![one_column_set("x", vec![RawValue::Int64(3)], false)]);
    let mut row = qr.into_only_row().unwrap();
    match row.remove_field_by_name("y") {
        Err(YdbError::Custom(m)) => assert_eq!(m, "field not found"),
        other => panic!("expected the not-found error, got {:?}", other),
    }
}

#[test]
fn test_rows_iteration_in_order() {
    let rs = ResultSet::try_from(one_column_set(
        "x",
        vec![RawValue::Int64(1), RawValue::Int64(2)],
        false,
    ))
    .unwrap();
    assert_eq!(rs.columns().len(), 1);
    let mut it = rs.rows();
    let mut first = it.next().unwrap();
    assert_eq!(first.remove_field(0).unwrap(), Value::Int64(1));
    let mut second = it.next().unwrap();
    assert_eq!(second.remove_field(0).unwrap(), Value::Int64(2));
    assert!(it.next().is_none());
}
