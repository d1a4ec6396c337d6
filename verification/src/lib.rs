//! Client-side core of a distributed SQL database's network protocol:
//! connection pooling over a multiplexed transport, server-side session
//! management, transaction control, retry orchestration, and typed result
//! streaming. Network transport and asynchronous plumbing are consumed as
//! fixed interfaces; everything decidable from plain values is verified.

pub mod client_query_service;
pub mod connection_pool;
pub mod errors;
pub mod proto;
pub mod query;
pub mod raw_query_service;
pub mod result;
pub mod retrier;
pub mod session;
pub mod session_pool;
pub mod table;
pub mod text;
pub mod topic;
pub mod transaction;
pub mod types;
pub mod value;

pub use errors::{NeedRetry, StatusCode, YdbError, YdbIssue, YdbResult, YdbStatusError};
pub use query::Query;
pub use result::{QueryResult, ResultSet, ResultSetRowsIter, Row};
pub use types::Value;
