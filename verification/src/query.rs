//! The Query object: text, named parameters, the server-cache hint, and
//! an optional transaction-control descriptor. Immutable once executed.

use vstd::prelude::*;

use crate::errors::YdbResult;
use crate::proto;
use crate::proto::{QueryContent, Syntax, TransactionControl, TxSelector};
use crate::table;
use crate::table::QueryVariant;
use crate::types::{spec_to_wire, wf_value, Value};
use crate::value::RawTypedValue;

verus! {

/// Whether every parameter value is well-formed for the wire.
pub open spec fn spec_params_wf(params: Seq<(String, Value)>) -> bool {
    forall|i: int| 0 <= i < params.len() ==> wf_value(#[trigger] params[i].1)
}

/// The wire form of a parameter list.
pub open spec fn spec_params_to_wire(params: Seq<(String, Value)>) -> Seq<(String, RawTypedValue)> {
    params.map_values(|p: (String, Value)| (p.0, spec_to_wire(p.1)))
}

/// A query: its text, named parameters, the "keep in cache" hint
/// (defaulting to true exactly when parameters are non-empty, unless
/// overridden), and an optional transaction-control descriptor.
#[derive(Debug)]
pub struct Query {
    pub(crate) text: String,
    pub(crate) parameters: Vec<(String, Value)>,
    pub(crate) keep_in_cache: bool,
    pub(crate) tx_control: Option<TransactionControl>,
    force_keep_in_cache: bool,
}

impl Query {
    pub closed spec fn spec_text(&self) -> Seq<char> {
        self.text@
    }

    pub closed spec fn spec_params(&self) -> Seq<(String, Value)> {
        self.parameters@
    }

    pub closed spec fn spec_keep_in_cache(&self) -> bool {
        self.keep_in_cache
    }

    pub closed spec fn spec_force_keep_in_cache(&self) -> bool {
        self.force_keep_in_cache
    }

    pub closed spec fn spec_tx_control(&self) -> Option<TransactionControl> {
        self.tx_control
    }

    /// A query with the given text, no parameters, and no transaction
    /// control.
    pub fn new(query: &str) -> (r: Query)
        ensures
            r.spec_text() == query@,
            r.spec_params() == Seq::<(String, Value)>::empty(),
            !r.spec_keep_in_cache(),
            !r.spec_force_keep_in_cache(),
            r.spec_tx_control() is None,
    {
        Query {
            text: String::from_str(query),
            parameters: Vec::new(),
            keep_in_cache: false,
            force_keep_in_cache: false,
            tx_control: None,
        }
    }

    /// Replaces the parameter list. Unless the cache hint was forced, the
    /// hint becomes true exactly when the new list is non-empty.
    pub fn with_params(self, params: Vec<(String, Value)>) -> (r: Query)
        ensures
            r.spec_text() == self.spec_text(),
            r.spec_params() == params@,
            r.spec_force_keep_in_cache() == self.spec_force_keep_in_cache(),
            r.spec_tx_control() == self.spec_tx_control(),
            r.spec_keep_in_cache() == if self.spec_force_keep_in_cache() {
                self.spec_keep_in_cache()
            } else {
                params@.len() != 0
            },
    {
        let mut q = self;
        let keep = if q.force_keep_in_cache {
            q.keep_in_cache
        } else {
            params.len() != 0
        };
        q.parameters = params;
        q.keep_in_cache = keep;
        q
    }

    /// Forces the server-cache hint to the given value.
    pub fn with_keep_in_cache(self, val: bool) -> (r: Query)
        ensures
            r.spec_text() == self.spec_text(),
            r.spec_params() == self.spec_params(),
            r.spec_force_keep_in_cache(),
            r.spec_keep_in_cache() == val,
            r.spec_tx_control() == self.spec_tx_control(),
    {
        let mut q = self;
        q.force_keep_in_cache = true;
        q.keep_in_cache = val;
        q
    }

    /// Attaches a transaction-control descriptor: the commit flag and the
    /// transaction selector.
    pub fn with_tx_control(self, commit_tx: bool, tx_control: Option<TxSelector>) -> (r: Query)
        ensures
            r.spec_text() == self.spec_text(),
            r.spec_params() == self.spec_params(),
            r.spec_keep_in_cache() == self.spec_keep_in_cache(),
            r.spec_force_keep_in_cache() == self.spec_force_keep_in_cache(),
            r.spec_tx_control() == Some(
                TransactionControl { commit_tx, tx_selector: tx_control },
            ),
    {
        let mut q = self;
        q.tx_control = Some(TransactionControl { commit_tx, tx_selector: tx_control });
        q
    }

    /// The table-service query payload: the text as inline YQL.
    pub fn query_to_table_proto(&self) -> (r: table::Query)
        ensures
            r.query matches Some(q) && q matches QueryVariant::YqlText(t) && t@
                == self.spec_text(),
    {
        table::Query { query: Some(QueryVariant::YqlText(self.text.clone())) }
    }

    /// The query-service payload: the text with the given syntax tag.
    pub fn query_to_query_service_proto(&self, syntax: Syntax) -> (r: proto::Query)
        ensures
            r matches proto::Query::QueryContent(c) && c.syntax == syntax.spec_code() && c.text@
                == self.spec_text(),
    {
        proto::Query::QueryContent(
            QueryContent { syntax: syntax.code(), text: self.text.clone() },
        )
    }

    /// Splits the query into its wire pieces: its transaction control,
    /// its payload in the given syntax, and its encoded parameters.
    /// Fails when some parameter cannot be carried on the wire.
    pub fn into_wire_parts(self, syntax: Syntax) -> (r: YdbResult<
        (Option<TransactionControl>, proto::Query, Vec<(String, RawTypedValue)>),
    >)
        ensures
            spec_params_wf(self.spec_params()) ==> (r matches Ok(p) && p.0
                == self.spec_tx_control() && (p.1 matches proto::Query::QueryContent(c)
                && c.syntax == syntax.spec_code() && c.text@ == self.spec_text()) && p.2@
                == spec_params_to_wire(self.spec_params())),
            !spec_params_wf(self.spec_params()) ==> r is Err,
    {
        let query_proto = self.query_to_query_service_proto(syntax);
        let tx_control = self.tx_control;
        let params = match params_to_wire(self.parameters) {
            Ok(p) => p,
            Err(e) => {
                return Err(e);
            },
        };
        Ok((tx_control, query_proto, params))
    }

    /// Encodes the parameter list for the wire: every name is kept, every
    /// value is marshalled; fails when some value cannot be carried.
    pub fn params_to_proto(self) -> (r: YdbResult<Vec<(String, RawTypedValue)>>)
        ensures
            spec_params_wf(self.spec_params()) ==> (r matches Ok(v) && v@ == spec_params_to_wire(
                self.spec_params(),
            )),
            !spec_params_wf(self.spec_params()) ==> r is Err,
    {
        params_to_wire(self.parameters)
    }
}

/// Encodes a parameter list for the wire; the work behind
/// `Query::params_to_proto`.
#[verifier::loop_isolation(false)]
fn params_to_wire(params: Vec<(String, Value)>) -> (r: YdbResult<Vec<(String, RawTypedValue)>>)
    ensures
        spec_params_wf(params@) ==> (r matches Ok(v) && v@ == spec_params_to_wire(params@)),
        !spec_params_wf(params@) ==> r is Err,
{
    let ghost orig = params@;
    let mut rest = params;
    let mut out: Vec<(String, RawTypedValue)> = Vec::new();
    while rest.len() > 0
        invariant
            out@.len() + rest@.len() == orig.len(),
            rest@ == orig.skip(out@.len() as int),
            forall|j: int|
                0 <= j < out@.len() ==> wf_value(#[trigger] orig[j].1) && out@[j] == (
                orig[j].0,
                spec_to_wire(orig[j].1),
                ),
        decreases rest.len(),
    {
        let p = rest.remove(0);
        let ghost k = out@.len() as int;
        proof {
            assert(orig.skip(k)[0] == orig[k]);
        }
        match p.1.to_typed_value() {
            Ok(tv) => {
                out.push((p.0, tv));
                proof {
                    assert(rest@ =~= orig.skip(out@.len() as int));
                }
            },
            Err(e) => {
                proof {
                    assert(0 <= k < orig.len());
                    assert(p == orig[k]);
                    assert(!wf_value(orig[k].1));
                    assert(!spec_params_wf(orig));
                }
                return Err(e);
            },
        }
    }
    proof {
        assert(out@ =~= spec_params_to_wire(orig));
    }
    Ok(out)
}

} // verus!
