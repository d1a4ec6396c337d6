use ydb::proto::{ExecuteQueryResponsePart, IssueMessage};
use ydb::result::handle_stream_part;
use ydb::table::{ExecuteScanQueryPartialResponse, ExecuteScanQueryPartialResult};
use ydb::value::{RawColumn, RawResultSet, RawType, RawValue};
use ydb::{StatusCode, YdbError};

fn issue(text: &str) -> IssueMessage {
    IssueMessage { issue_code: 1, message: text.to_string(), severity: 1 }
}

fn fragment() -> RawResultSet {
    RawResultSet {
        columns: vec![RawColumn { name: "x".to_string(), v_type: RawType::Bool }],
        rows: vec![vec![RawValue::Bool(true)]],
        truncated: false,
    }
}

#[test]
fn test_stream_end_without_message_is_empty_response() {
    let r = handle_stream_part::<ExecuteQueryResponsePart>(None);
    assert!(matches!(r, Err(YdbError::EmptyResponse)));
}

#[test]
fn test_non_success_chunk_joins_issue_texts_and_keeps_status() {
    let part = ExecuteQueryResponsePart {
        status: StatusCode::BadSession.code(),
        issues: vec![issue("first issue"), issue("second issue")],
        result_set_index: 0,
        result_set: None,
        tx_meta: None,
    };
    match handle_stream_part(Some(part)) {
        Err(YdbError::YdbStatusError(se)) => {
            assert_eq!(se.message, "first issue, second issue");
            assert_eq!(se.operation_status, StatusCode::BadSession.code());
            assert_eq!(se.issues.len(), 2);
            assert_eq!(se.issues[0].message, "first issue");
        }
        other => panic!("expected a status error, got {:?}", other),
    }
}

#[test]
fn test_success_chunk_without_fragment_yields_none_without_ending() {
    let part = ExecuteQueryResponsePart {
        status: StatusCode::Success.code(),
        issues: vec![],
        result_set_index: 0,
        result_set: None,
        tx_meta: None,
    };
    let r = handle_stream_part(Some(part)).unwrap();
    assert!(r.is_none());
}

#[test]
fn test_success_chunk_with_fragment_yields_result_set() {
    let part = ExecuteQueryResponsePart {
        status: StatusCode::Success.code(),
        issues: vec![],
        result_set_index: 0,
        result_set: Some(fragment()),
        tx_meta: None,
    };
    let rs = handle_stream_part(Some(part)).unwrap().unwrap();
    assert_eq!(rs.columns().len(), 1);
    assert!(!rs.truncated());
}

#[test]
fn test_scan_chunk_without_result_wrapper_is_malformed() {
    let part = ExecuteScanQueryPartialResponse {
        status: StatusCode::Success.code(),
        issues: vec![],
        result: None,
    };
    assert!(handle_stream_part(Some(part)).is_err());
}

#[test]
fn test_scan_chunk_cases() {
    let part = ExecuteScanQueryPartialResponse {
        status: StatusCode::Success.code(),
        issues: vec![],
        result: Some(ExecuteScanQueryPartialResult { result_set: None }),
    };
    assert!(handle_stream_part(Some(part)).unwrap().is_none());

    let part = ExecuteScanQueryPartialResponse {
        status: StatusCode::Success.code(),
        issues: vec![],
        result: Some(ExecuteScanQueryPartialResult { result_set: Some(fragment()) }),
    };
    assert!(handle_stream_part(Some(part)).unwrap().is_some());

    let part = ExecuteScanQueryPartialResponse {
        status: StatusCode::Overloaded.code(),
        issues: vec![issue("overloaded")],
        result: Some(ExecuteScanQueryPartialResult { result_set: Some(fragment()) }),
    };
    match handle_stream_part(Some(part)) {
        Err(YdbError::YdbStatusError(se)) => {
            assert_eq!(se.message, "overloaded");
            assert_eq!(se.operation_status, StatusCode::Overloaded.code());
        }
        other => panic!("expected a status error, got {:?}", other),
    }
}
