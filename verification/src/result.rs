//! Query results: ordered result sets, shared column metadata, rows with
//! consuming field extraction, and the per-chunk checking of streamed
//! responses.

use vstd::prelude::*;

use std::sync::Arc;

use crate::errors::{StatusCode, YdbError, YdbIssue, YdbResult, YdbStatusError};
use crate::proto;
use crate::proto::IssueMessage;
use crate::table;
use crate::table::RawExecuteDataQueryResult;
use crate::text::{join_comma, spec_join_comma, str_eq};
use crate::types::{spec_from_wire, Column, Value};
use crate::value::{RawColumn, RawResultSet, RawTypedValue, RawValue};

verus! {

/// Relies on std's Arc::clone: the returned handle refers to the same
/// shared column metadata.
#[verifier::external_body]
fn arc_clone_columns(v: &Arc<Vec<Column>>) -> (res: Arc<Vec<Column>>)
    ensures
        res == *v,
{
    v.clone()
}

/// The native column metadata a wire result set's columns carry.
pub open spec fn spec_columns_of(raw: Seq<RawColumn>) -> Seq<Column> {
    raw.map_values(|c: RawColumn| Column { name: c.name, v_type: c.v_type })
}

/// One result set: column metadata and raw row data, plus the server's
/// truncation flag.
#[derive(Debug)]
pub struct ResultSet {
    columns: Vec<Column>,
    rows: Vec<Vec<RawValue>>,
    truncated: bool,
}

impl ResultSet {
    pub closed spec fn spec_columns(&self) -> Seq<Column> {
        self.columns@
    }

    pub closed spec fn spec_rows(&self) -> Seq<Vec<RawValue>> {
        self.rows@
    }

    pub closed spec fn spec_truncated(&self) -> bool {
        self.truncated
    }

    pub fn columns(&self) -> (r: &Vec<Column>)
        ensures
            r@ == self.spec_columns(),
    {
        &self.columns
    }

    pub fn truncated(&self) -> (r: bool)
        ensures
            r == self.spec_truncated(),
    {
        self.truncated
    }

    /// Builds a result set from its wire form, converting each column's
    /// metadata and keeping rows and the truncation flag as they came.
    #[verifier::loop_isolation(false)]
    pub fn try_from(value: RawResultSet) -> (r: YdbResult<ResultSet>)
        ensures
            r matches Ok(rs) && rs.spec_columns() == spec_columns_of(value.columns@)
                && rs.spec_rows() == value.rows@ && rs.spec_truncated() == value.truncated,
    {
        let RawResultSet { columns, rows, truncated } = value;
        let ghost orig = columns@;
        let mut rest = columns;
        let mut out: Vec<Column> = Vec::new();
        while rest.len() > 0
            invariant
                out@.len() + rest@.len() == orig.len(),
                rest@ == orig.skip(out@.len() as int),
                forall|j: int|
                    0 <= j < out@.len() ==> out@[j] == (Column {
                        name: #[trigger] orig[j].name,
                        v_type: orig[j].v_type,
                    }),
            decreases rest.len(),
        {
            let c = rest.remove(0);
            proof {
                assert(orig.skip(out@.len() as int)[0] == orig[out@.len() as int]);
            }
            out.push(Column { name: c.name, v_type: c.v_type });
            proof {
                assert(rest@ =~= orig.skip(out@.len() as int));
            }
        }
        proof {
            assert(out@ =~= spec_columns_of(orig));
        }
        Ok(ResultSet { columns: out, rows, truncated })
    }

    /// Hands the rows out as an iterator that shares the column metadata
    /// by reference count instead of copying it per row.
    pub fn rows(self) -> (r: ResultSetRowsIter)
        ensures
            r.spec_columns() == self.spec_columns(),
            r.spec_remaining() == self.spec_rows(),
    {
        ResultSetRowsIter { columns: Arc::new(self.columns), rows: self.rows }
    }
}

/// Pull-based iteration over a result set's rows. Each produced row
/// clones the shared column metadata handle, not the metadata itself.
pub struct ResultSetRowsIter {
    columns: Arc<Vec<Column>>,
    rows: Vec<Vec<RawValue>>,
}

impl ResultSetRowsIter {
    pub closed spec fn spec_columns(&self) -> Seq<Column> {
        self.columns@
    }

    pub closed spec fn spec_remaining(&self) -> Seq<Vec<RawValue>> {
        self.rows@
    }

    /// The next row, with every field still present, or `None` when the
    /// rows are exhausted.
    pub fn next(&mut self) -> (r: Option<Row>)
        ensures
            final(self).spec_columns() == old(self).spec_columns(),
            old(self).spec_remaining().len() == 0 ==> r is None && final(self).spec_remaining()
                == old(self).spec_remaining(),
            old(self).spec_remaining().len() > 0 ==> (r matches Some(row)
                && row.spec_columns() == old(self).spec_columns()
                && row.spec_values() == old(self).spec_remaining()[0]@.map_values(
                    |v: RawValue| Some(v))
                && final(self).spec_remaining() == old(self).spec_remaining().skip(1)),
    {
        if self.rows.len() == 0 {
            return None;
        }
        let raw = self.rows.remove(0);
        proof {
            assert(self.rows@ =~= old(self).spec_remaining().skip(1));
        }
        let values = wrap_values(raw);
        Some(Row { columns: arc_clone_columns(&self.columns), values })
    }
}

/// Wraps each raw field in `Some`, the not-yet-consumed state of a row.
#[verifier::loop_isolation(false)]
fn wrap_values(raw: Vec<RawValue>) -> (r: Vec<Option<RawValue>>)
    ensures
        r@ == raw@.map_values(|v: RawValue| Some(v)),
{
    let ghost orig = raw@;
    let mut rest = raw;
    let mut out: Vec<Option<RawValue>> = Vec::new();
    while rest.len() > 0
        invariant
            out@.len() + rest@.len() == orig.len(),
            rest@ == orig.skip(out@.len() as int),
            forall|j: int| 0 <= j < out@.len() ==> out@[j] == Some(#[trigger] orig[j]),
        decreases rest.len(),
    {
        let v = rest.remove(0);
        proof {
            assert(orig.skip(out@.len() as int)[0] == orig[out@.len() as int]);
        }
        out.push(Some(v));
        proof {
            assert(rest@ =~= orig.skip(out@.len() as int));
        }
    }
    proof {
        assert(out@ =~= orig.map_values(|v: RawValue| Some(v)));
    }
    out
}

/// Whether a row still holds a field at this index.
pub open spec fn spec_row_has_field(
    cols: Seq<Column>,
    vals: Seq<Option<RawValue>>,
    index: int,
) -> bool {
    0 <= index < vals.len() && vals[index] is Some && index < cols.len()
}

/// Whether `i` is the first column with this name.
pub open spec fn spec_first_column_match(cols: Seq<Column>, name: Seq<char>, i: int) -> bool {
    0 <= i < cols.len() && cols[i].name@ == name && forall|j: int|
        0 <= j < i ==> #[trigger] cols[j].name@ != name
}

/// A field extracted once is gone: after a successful extraction leaves
/// `None` at an index, that index no longer holds a field, so a second
/// extraction there fails.
pub proof fn lemma_extracted_field_is_consumed(
    cols: Seq<Column>,
    vals: Seq<Option<RawValue>>,
    index: int,
)
    requires
        spec_row_has_field(cols, vals, index),
    ensures
        !spec_row_has_field(cols, vals.update(index, None), index),
{
}

/// One row. Field extraction consumes the field: each field can be read
/// at most once, and a second read of the same field is an error.
#[derive(Debug)]
pub struct Row {
    columns: Arc<Vec<Column>>,
    values: Vec<Option<RawValue>>,
}

impl Row {
    pub closed spec fn spec_columns(&self) -> Seq<Column> {
        self.columns@
    }

    pub closed spec fn spec_values(&self) -> Seq<Option<RawValue>> {
        self.values@
    }

    /// Extracts the field at this index, removing it from the row; a
    /// second extraction of the same index fails.
    pub fn remove_field(&mut self, index: usize) -> (r: YdbResult<Value>)
        ensures
            final(self).spec_columns() == old(self).spec_columns(),
            spec_row_has_field(old(self).spec_columns(), old(self).spec_values(), index as int)
                ==> ({
                let tv = RawTypedValue {
                    v_type: old(self).spec_columns()[index as int].v_type,
                    value: old(self).spec_values()[index as int].unwrap(),
                };
                &&& final(self).spec_values() == old(self).spec_values().update(
                    index as int,
                    None,
                )
                &&& match spec_from_wire(tv) {
                    Some(v) => r == Ok::<Value, YdbError>(v),
                    None => r is Err,
                }
            }),
            !spec_row_has_field(old(self).spec_columns(), old(self).spec_values(), index as int)
                ==> r is Err && final(self).spec_values() == old(self).spec_values(),
    {
        if index >= self.values.len() {
            return Err(YdbError::from_str("it has no the field"));
        }
        if self.values[index].is_none() {
            return Err(YdbError::from_str("it has no the field"));
        }
        let cols = arc_clone_columns(&self.columns);
        if index >= cols.len() {
            return Err(YdbError::from_str("it has no the field"));
        }
        let taken = self.values.remove(index);
        self.values.insert(index, None);
        proof {
            assert(self.values@ =~= old(self).spec_values().update(index as int, None));
        }
        let v_type = (*cols)[index].v_type.clone();
        let raw = match taken {
            Some(raw) => raw,
            None => {
                return Err(YdbError::from_str("it has no the field"));
            },
        };
        Value::try_from(RawTypedValue { v_type, value: raw })
    }

    /// Extracts the first field with this name, removing it from the
    /// row; fails when no column has the name or the field was already
    /// consumed.
    #[verifier::loop_isolation(false)]
    pub fn remove_field_by_name(&mut self, name: &str) -> (r: YdbResult<Value>)
        ensures
            final(self).spec_columns() == old(self).spec_columns(),
            (forall|j: int|
                0 <= j < old(self).spec_columns().len()
                    ==> #[trigger] old(self).spec_columns()[j].name@ != name@) ==> r is Err
                && final(self).spec_values() == old(self).spec_values(),
            forall|i: int|
                spec_first_column_match(old(self).spec_columns(), name@, i) ==> ({
                    &&& spec_row_has_field(
                        old(self).spec_columns(),
                        old(self).spec_values(),
                        i,
                    ) ==> ({
                        let tv = RawTypedValue {
                            v_type: old(self).spec_columns()[i].v_type,
                            value: old(self).spec_values()[i].unwrap(),
                        };
                        &&& final(self).spec_values() == old(self).spec_values().update(i, None)
                        &&& match spec_from_wire(tv) {
                            Some(v) => r == Ok::<Value, YdbError>(v),
                            None => r is Err,
                        }
                    })
                    &&& !spec_row_has_field(
                        old(self).spec_columns(),
                        old(self).spec_values(),
                        i,
                    ) ==> r is Err && final(self).spec_values() == old(self).spec_values()
                }),
    {
        let cols = arc_clone_columns(&self.columns);
        let mut i: usize = 0;
        while i < cols.len()
            invariant
                0 <= i <= cols@.len(),
                forall|j: int| 0 <= j < i ==> #[trigger] cols@[j].name@ != name@,
                *self == *old(self),
            decreases cols@.len() - i,
        {
            if str_eq((*cols)[i].name.as_str(), name) {
                proof {
                    assert(spec_first_column_match(old(self).spec_columns(), name@, i as int));
                }
                return self.remove_field(i);
            }
            i = i + 1;
        }
        Err(YdbError::from_str("field not found"))
    }
}

/// The results of a query: an ordered sequence of result sets plus the
/// transaction identifier in effect.
#[derive(Debug)]
pub struct QueryResult {
    pub(crate) results: Vec<ResultSet>,
    pub(crate) tx_id: String,
}

impl QueryResult {
    pub closed spec fn spec_results(&self) -> Seq<ResultSet> {
        self.results@
    }

    pub closed spec fn spec_tx_id(&self) -> Seq<char> {
        self.tx_id@
    }

    /// The transaction identifier in effect for these results.
    pub fn tx_id(&self) -> (r: &String)
        ensures
            r@ == self.spec_tx_id(),
    {
        &self.tx_id
    }

    /// Builds a query result from a raw response. With "error on
    /// truncate" in effect, the first truncated result set turns into an
    /// error naming its position; otherwise every set is converted in
    /// order and the transaction identifier is kept.
    #[verifier::loop_isolation(false)]
    pub fn from_raw_result(error_on_truncate: bool, raw_res: RawExecuteDataQueryResult) -> (r:
        YdbResult<QueryResult>)
        ensures
            (!error_on_truncate || forall|i: int|
                0 <= i < raw_res.result_sets@.len()
                    ==> !(#[trigger] raw_res.result_sets@[i].truncated)) ==> (r matches Ok(qr)
                && qr.spec_tx_id() == raw_res.tx_meta.id@ && qr.spec_results().len()
                == raw_res.result_sets@.len() && forall|i: int|
                0 <= i < raw_res.result_sets@.len() ==> ({
                    let rs = #[trigger] qr.spec_results()[i];
                    &&& rs.spec_columns() == spec_columns_of(raw_res.result_sets@[i].columns@)
                    &&& rs.spec_rows() == raw_res.result_sets@[i].rows@
                    &&& rs.spec_truncated() == raw_res.result_sets@[i].truncated
                })),
            error_on_truncate ==> forall|i: int|
                (0 <= i < raw_res.result_sets@.len() && (#[trigger] raw_res.result_sets@[i].truncated)
                    && (forall|j: int|
                    0 <= j < i ==> !(#[trigger] raw_res.result_sets@[j].truncated))) ==> (
                r matches Err(e) && e matches YdbError::TruncatedResult {
                    result_set_index,
                } && result_set_index == i),
    {
        let RawExecuteDataQueryResult { result_sets, tx_meta } = raw_res;
        let ghost orig = result_sets@;
        let mut rest = result_sets;
        let mut results: Vec<ResultSet> = Vec::new();
        while rest.len() > 0
            invariant
                results@.len() + rest@.len() == orig.len(),
                rest@ == orig.skip(results@.len() as int),
                forall|j: int| 0 <= j < results@.len() ==> !(#[trigger] orig[j].truncated)
                    || !error_on_truncate,
                forall|j: int|
                    0 <= j < results@.len() ==> ({
                        let rs = #[trigger] results@[j];
                        &&& rs.spec_columns() == spec_columns_of(orig[j].columns@)
                        &&& rs.spec_rows() == orig[j].rows@
                        &&& rs.spec_truncated() == orig[j].truncated
                    }),
            decreases rest.len(),
        {
            let ghost k = results@.len() as int;
            let current_set = rest.remove(0);
            proof {
                assert(orig.skip(k)[0] == orig[k]);
            }
            if error_on_truncate && current_set.truncated {
                return Err(YdbError::TruncatedResult { result_set_index: results.len() });
            }
            let result_set = match ResultSet::try_from(current_set) {
                Ok(rs) => rs,
                Err(e) => {
                    return Err(e);
                },
            };
            results.push(result_set);
            proof {
                assert(rest@ =~= orig.skip(results@.len() as int));
            }
        }
        Ok(QueryResult { results, tx_id: tx_meta.id })
    }

    /// The single result set of this result; an error names the violated
    /// cardinality when there are none or several.
    pub fn into_only_result(self) -> (r: YdbResult<ResultSet>)
        ensures
            self.spec_results().len() == 1 ==> r == Ok::<ResultSet, YdbError>(
                self.spec_results()[0],
            ),
            self.spec_results().len() == 0 ==> (r matches Err(e) && e matches YdbError::Custom(m)
                && m@ == "no result set"@),
            self.spec_results().len() > 1 ==> (r matches Err(e) && e matches YdbError::Custom(m)
                && m@ == "more then one result set"@),
    {
        let mut results = self.results;
        if results.len() == 0 {
            Err(YdbError::from_str("no result set"))
        } else if results.len() > 1 {
            Err(YdbError::from_str("more then one result set"))
        } else {
            Ok(results.remove(0))
        }
    }

    /// The single row of the single result set. No result set or no row
    /// gives the "no rows" error; several sets or several rows give an
    /// error naming the violated cardinality.
    pub fn into_only_row(self) -> (r: YdbResult<Row>)
        ensures
            self.spec_results().len() == 0 ==> (r matches Err(e) && e is NoRows),
            self.spec_results().len() > 1 ==> (r matches Err(e) && e matches YdbError::Custom(m)
                && m@ == "more then one result set"@),
            self.spec_results().len() == 1 ==> ({
                let rs = self.spec_results()[0];
                &&& rs.spec_rows().len() == 0 ==> (r matches Err(e) && e is NoRows)
                &&& rs.spec_rows().len() == 1 ==> (r matches Ok(row) && row.spec_columns()
                    == rs.spec_columns() && row.spec_values() == rs.spec_rows()[0]@.map_values(
                    |v: RawValue| Some(v),
                ))
                &&& rs.spec_rows().len() > 1 ==> (r matches Err(e) && e matches YdbError::Custom(
                    m,
                ) && m@ == "result set has more then one row"@)
            }),
    {
        if self.results.len() == 0 {
            return Err(YdbError::NoRows);
        }
        let result_set = match self.into_only_result() {
            Ok(rs) => rs,
            Err(e) => {
                return Err(e);
            },
        };
        let mut rows = result_set.rows();
        match rows.next() {
            Some(first_row) => {
                if rows.next().is_none() {
                    Ok(first_row)
                } else {
                    Err(YdbError::from_str("result set has more then one row"))
                }
            },
            None => Err(YdbError::NoRows),
        }
    }
}

/// The native form of one wire issue message.
pub open spec fn spec_issue_to_ydb(m: IssueMessage) -> YdbIssue {
    YdbIssue { issue_code: m.issue_code, message: m.message, severity: m.severity }
}

/// Converts wire issue messages to the client's issue type, in order.
#[verifier::loop_isolation(false)]
pub fn proto_issues_to_ydb_issues(issues: &Vec<IssueMessage>) -> (r: Vec<YdbIssue>)
    ensures
        r@ == issues@.map_values(|m: IssueMessage| spec_issue_to_ydb(m)),
{
    let mut out: Vec<YdbIssue> = Vec::new();
    let mut i: usize = 0;
    while i < issues.len()
        invariant
            0 <= i <= issues@.len(),
            out@.len() == i,
            forall|j: int| 0 <= j < i ==> out@[j] == spec_issue_to_ydb(#[trigger] issues@[j]),
        decreases issues@.len() - i,
    {
        let m = &issues[i];
        out.push(
            YdbIssue {
                issue_code: m.issue_code,
                message: m.message.clone(),
                severity: m.severity,
            },
        );
        i = i + 1;
    }
    proof {
        assert(out@ =~= issues@.map_values(|m: IssueMessage| spec_issue_to_ydb(m)));
    }
    out
}

/// The issue texts alone, in order.
#[verifier::loop_isolation(false)]
fn issue_texts(issues: &Vec<IssueMessage>) -> (r: Vec<String>)
    ensures
        r.deep_view() == issues@.map_values(|m: IssueMessage| m.message@),
{
    let mut out: Vec<String> = Vec::new();
    let mut i: usize = 0;
    while i < issues.len()
        invariant
            0 <= i <= issues@.len(),
            out@.len() == i,
            forall|j: int| 0 <= j < i ==> out@[j]@ == #[trigger] issues@[j].message@,
        decreases issues@.len() - i,
    {
        out.push(issues[i].message.clone());
        i = i + 1;
    }
    proof {
        assert(out.deep_view() =~= issues@.map_values(|m: IssueMessage| m.message@));
    }
    out
}

/// What a response chunk of a streamed call exposes: its status code,
/// its issues, and the embedded result-set fragment, where a malformed
/// chunk has no readable fragment at all.
pub trait StreamResultTrait where Self: core::marker::Sized {
    spec fn spec_status(&self) -> i32;

    spec fn spec_issues(&self) -> Seq<IssueMessage>;

    /// `None` when the chunk is malformed; otherwise the optional
    /// fragment.
    spec fn spec_fragment(&self) -> Option<Option<RawResultSet>>;

    fn status(&self) -> (r: i32)
        ensures
            r == self.spec_status(),
    ;

    fn issues(&self) -> (r: &Vec<IssueMessage>)
        ensures
            r@ == self.spec_issues(),
    ;

    fn result_set(self) -> (r: YdbResult<Option<ResultSet>>)
        ensures
            self.spec_fragment() is None ==> r is Err,
            self.spec_fragment() matches Some(frag) ==> match frag {
                None => r matches Ok(o) && o is None,
                Some(raw) => (r matches Ok(o) && o matches Some(rs) && rs.spec_columns()
                    == spec_columns_of(raw.columns@) && rs.spec_rows() == raw.rows@
                    && rs.spec_truncated() == raw.truncated),
            },
    ;
}

impl StreamResultTrait for proto::ExecuteQueryResponsePart {
    open spec fn spec_status(&self) -> i32 {
        self.status
    }

    open spec fn spec_issues(&self) -> Seq<IssueMessage> {
        self.issues@
    }

    open spec fn spec_fragment(&self) -> Option<Option<RawResultSet>> {
        Some(self.result_set)
    }

    fn status(&self) -> (r: i32) {
        self.status
    }

    fn issues(&self) -> (r: &Vec<IssueMessage>) {
        &self.issues
    }

    fn result_set(self) -> (r: YdbResult<Option<ResultSet>>) {
        let Some(proto_result_set) = self.result_set else {
            return Ok(None);
        };
        let result_set = match ResultSet::try_from(proto_result_set) {
            Ok(rs) => rs,
            Err(e) => {
                return Err(e);
            },
        };
        Ok(Some(result_set))
    }
}

impl StreamResultTrait for table::ExecuteScanQueryPartialResponse {
    open spec fn spec_status(&self) -> i32 {
        self.status
    }

    open spec fn spec_issues(&self) -> Seq<IssueMessage> {
        self.issues@
    }

    open spec fn spec_fragment(&self) -> Option<Option<RawResultSet>> {
        match self.result {
            Some(res) => Some(res.result_set),
            None => None,
        }
    }

    fn status(&self) -> (r: i32) {
        self.status
    }

    fn issues(&self) -> (r: &Vec<IssueMessage>) {
        &self.issues
    }

    fn result_set(self) -> (r: YdbResult<Option<ResultSet>>) {
        let proto_result_set = match self.result {
            Some(result) => result.result_set,
            None => {
                return Err(YdbError::InternalError(String::from_str("unexpected empty result")));
            },
        };
        let proto_result_set = match proto_result_set {
            Some(proto) => proto,
            None => {
                return Ok(None);
            },
        };
        let result_set = match ResultSet::try_from(proto_result_set) {
            Ok(rs) => rs,
            Err(e) => {
                return Err(e);
            },
        };
        Ok(Some(result_set))
    }
}

/// Checks one message pulled from a streamed response, as the stream
/// adapter does per call. No message at all is an error ending the
/// stream; a non-success status becomes a status error whose message is
/// the comma-joined issue texts; a success chunk yields its optional
/// fragment, where absence of a fragment does not end the stream.
pub fn handle_stream_part<T: StreamResultTrait>(part: Option<T>) -> (r: YdbResult<
    Option<ResultSet>,
>)
    ensures
        part is None ==> (r matches Err(e) && e is EmptyResponse),
        part matches Some(p) ==> ({
            &&& p.spec_status() != StatusCode::Success.spec_code() ==> (r matches Err(e)
                && e matches YdbError::YdbStatusError(se)
                && se.operation_status == p.spec_status()
                && se.message@ == spec_join_comma(
                    p.spec_issues().map_values(|m: IssueMessage| m.message@))
                && se.issues@ == p.spec_issues().map_values(
                    |m: IssueMessage| spec_issue_to_ydb(m)))
            &&& p.spec_status() == StatusCode::Success.spec_code() ==> ({
                &&& p.spec_fragment() is None ==> r is Err
                &&& p.spec_fragment() matches Some(frag) ==> match frag {
                    None => r matches Ok(o) && o is None,
                    Some(raw) => (r matches Ok(o) && o matches Some(rs) && rs.spec_columns()
                        == spec_columns_of(raw.columns@) && rs.spec_rows() == raw.rows@
                        && rs.spec_truncated() == raw.truncated),
                }
            })
        }),
{
    match part {
        None => Err(YdbError::EmptyResponse),
        Some(p) => {
            let status = p.status();
            if status != StatusCode::Success.code() {
                let issues = p.issues();
                let texts = issue_texts(issues);
                let message = join_comma(&texts);
                let converted = proto_issues_to_ydb_issues(issues);
                Err(
                    YdbError::YdbStatusError(
                        YdbStatusError { message, operation_status: status, issues: converted },
                    ),
                )
            } else {
                p.result_set()
            }
        },
    }
}

} // verus!
