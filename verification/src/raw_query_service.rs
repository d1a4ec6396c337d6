//! Validation of query-service responses: a created session must carry an
//! identifier, and an opened transaction must carry a transaction
//! identifier.

use vstd::prelude::*;

use crate::errors::{YdbError, YdbResult};
use crate::proto::{BeginTransactionResponse, CreateSessionResponse};

verus! {

/// What a CreateSession response yields: the new session's identifier.
#[derive(Debug, PartialEq)]
pub struct RawCreateSessionResult {
    pub session_id: String,
}

impl RawCreateSessionResult {
    /// Accepts a CreateSession response; an empty session identifier is
    /// an error.
    pub fn try_from(resp: CreateSessionResponse) -> (r: YdbResult<RawCreateSessionResult>)
        ensures
            resp.session_id@.len() == 0 ==> (r matches Err(e) && e matches YdbError::Custom(m)
                && m@ == "empty session_id"@),
            resp.session_id@.len() > 0 ==> (r matches Ok(res) && res.session_id
                == resp.session_id),
    {
        let sid = resp.session_id;
        if sid.as_str().unicode_len() == 0 {
            return Err(YdbError::from_str("empty session_id"));
        }
        Ok(RawCreateSessionResult { session_id: sid })
    }
}

/// What a BeginTransaction response yields: the opened transaction's
/// identifier.
#[derive(Debug, PartialEq)]
pub struct RawBeginTransactionResult {
    pub tx_id: String,
}

impl RawBeginTransactionResult {
    /// Accepts a BeginTransaction response; a missing or empty
    /// transaction identifier is an error.
    pub fn try_from(resp: BeginTransactionResponse) -> (r: YdbResult<RawBeginTransactionResult>)
        ensures
            match resp.tx_meta {
                Some(meta) => {
                    &&& meta.id@.len() == 0 ==> (r matches Err(e) && e matches YdbError::Custom(
                        m,
                    ) && m@ == "empty tx_id"@)
                    &&& meta.id@.len() > 0 ==> (r matches Ok(res) && res.tx_id == meta.id)
                },
                None => r matches Err(e) && e matches YdbError::Custom(m) && m@ == "empty tx_id"@,
            },
    {
        let id = match resp.tx_meta {
            Some(meta) => meta.id,
            None => String::new(),
        };
        if id.as_str().unicode_len() == 0 {
            return Err(YdbError::from_str("empty tx_id"));
        }
        Ok(RawBeginTransactionResult { tx_id: id })
    }
}

} // verus!
