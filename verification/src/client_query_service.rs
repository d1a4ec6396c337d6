//! The query-service client: per-clone configuration (copy-on-configure,
//! so reconfiguring one clone never affects another) and the retry
//! executor's decision logic.
//!
//! The executor invokes an operation, classifies a failure by its
//! retry-ability crossed with the client's idempotence flag, consults
//! the configured retry policy, and either gives up with the last error
//! or waits the computed time and re-invokes.

use vstd::prelude::*;

use crate::errors::{spec_need_retry, NeedRetry, YdbError, YdbResult};
use crate::retrier::{NoRetrier, Retry, RetryDecision, RetryParams, TimeoutRetrier};
use crate::session::TimeoutSettings;
use crate::session_pool::DEFAULT_SIZE_MAX_ACTIVE_SESSIONS;
use crate::transaction::TransactionOptions;

verus! {

/// The retry strategy a client is configured with.
#[derive(Clone, Copy, Debug, PartialEq, Eq, Structural)]
pub enum RetryPolicy {
    Timeout(TimeoutRetrier),
    No(NoRetrier),
}

impl RetryPolicy {
    pub open spec fn spec_decision(&self, params: RetryParams) -> RetryDecision {
        match self {
            RetryPolicy::Timeout(t) => t.spec_decision(params),
            RetryPolicy::No(n) => n.spec_decision(params),
        }
    }

    pub fn wait_duration(&self, params: RetryParams) -> (r: RetryDecision)
        ensures
            r == self.spec_decision(params),
    {
        match self {
            RetryPolicy::Timeout(t) => t.wait_duration(params),
            RetryPolicy::No(n) => n.wait_duration(params),
        }
    }
}

/// What the retry executor does after a failed attempt: return the
/// error, or wait the given time and try again.
#[derive(Clone, Copy, Debug, PartialEq, Eq, Structural)]
pub enum RetryVerdict {
    GiveUp,
    SleepThenRetry { wait_ms: u64 },
}

/// The query-service client's configuration. Every `clone_with_*`
/// copies the whole configuration, so a setting changed on one clone is
/// never seen by another.
#[derive(Clone, Copy, Debug, PartialEq, Eq, Structural)]
pub struct QueryClient {
    error_on_truncate: bool,
    max_active_sessions: usize,
    retrier: RetryPolicy,
    transaction_options: TransactionOptions,
    idempotent_operation: bool,
    timeouts: TimeoutSettings,
}

impl QueryClient {
    pub closed spec fn spec_error_on_truncate(&self) -> bool {
        self.error_on_truncate
    }

    pub closed spec fn spec_max_active_sessions(&self) -> usize {
        self.max_active_sessions
    }

    pub closed spec fn spec_retrier(&self) -> RetryPolicy {
        self.retrier
    }

    pub closed spec fn spec_transaction_options(&self) -> TransactionOptions {
        self.transaction_options
    }

    pub closed spec fn spec_idempotent_operation(&self) -> bool {
        self.idempotent_operation
    }

    pub closed spec fn spec_timeouts(&self) -> TimeoutSettings {
        self.timeouts
    }

    /// A client with the default configuration: truncation tolerated,
    /// the default session bound, the default time-bounded retrier,
    /// default transaction options, operations not assumed idempotent.
    pub fn new(timeouts: TimeoutSettings) -> (r: Self)
        ensures
            !r.spec_error_on_truncate(),
            r.spec_max_active_sessions() == DEFAULT_SIZE_MAX_ACTIVE_SESSIONS,
            r.spec_retrier() == RetryPolicy::Timeout(
                TimeoutRetrier { timeout_ms: crate::retrier::DEFAULT_RETRY_TIMEOUT_MS },
            ),
            r.spec_transaction_options() == (TransactionOptions {
                mode: crate::transaction::Mode::SerializableReadWrite,
                autocommit: false,
            }),
            !r.spec_idempotent_operation(),
            r.spec_timeouts() == timeouts,
    {
        Self {
            error_on_truncate: false,
            max_active_sessions: DEFAULT_SIZE_MAX_ACTIVE_SESSIONS,
            retrier: RetryPolicy::Timeout(TimeoutRetrier::default()),
            transaction_options: TransactionOptions::new(),
            idempotent_operation: false,
            timeouts,
        }
    }

    /// This client with another bound on outstanding sessions.
    pub fn with_max_active_sessions(self, size: usize) -> (r: Self)
        ensures
            r.spec_max_active_sessions() == size,
            r.spec_error_on_truncate() == self.spec_error_on_truncate(),
            r.spec_retrier() == self.spec_retrier(),
            r.spec_transaction_options() == self.spec_transaction_options(),
            r.spec_idempotent_operation() == self.spec_idempotent_operation(),
            r.spec_timeouts() == self.spec_timeouts(),
    {
        QueryClient { max_active_sessions: size, ..self }
    }

    /// This client with truncated result sets turned into errors or
    /// tolerated.
    pub fn with_error_on_truncate(self, error_on_truncate: bool) -> (r: Self)
        ensures
            r.spec_error_on_truncate() == error_on_truncate,
            r.spec_max_active_sessions() == self.spec_max_active_sessions(),
            r.spec_retrier() == self.spec_retrier(),
            r.spec_transaction_options() == self.spec_transaction_options(),
            r.spec_idempotent_operation() == self.spec_idempotent_operation(),
            r.spec_timeouts() == self.spec_timeouts(),
    {
        QueryClient { error_on_truncate, ..self }
    }

    /// A clone of this client with other deadline settings.
    pub fn clone_with_timeouts(&self, timeouts: TimeoutSettings) -> (r: Self)
        ensures
            r.spec_timeouts() == timeouts,
            r.spec_error_on_truncate() == self.spec_error_on_truncate(),
            r.spec_max_active_sessions() == self.spec_max_active_sessions(),
            r.spec_retrier() == self.spec_retrier(),
            r.spec_transaction_options() == self.spec_transaction_options(),
            r.spec_idempotent_operation() == self.spec_idempotent_operation(),
    {
        QueryClient { timeouts, ..*self }
    }

    /// A clone of this client whose retrier allows retries for the
    /// given time.
    pub fn clone_with_retry_timeout(&self, timeout_ms: u64) -> (r: Self)
        ensures
            r.spec_retrier() == RetryPolicy::Timeout(TimeoutRetrier { timeout_ms }),
            r.spec_error_on_truncate() == self.spec_error_on_truncate(),
            r.spec_max_active_sessions() == self.spec_max_active_sessions(),
            r.spec_transaction_options() == self.spec_transaction_options(),
            r.spec_idempotent_operation() == self.spec_idempotent_operation(),
            r.spec_timeouts() == self.spec_timeouts(),
    {
        QueryClient { retrier: RetryPolicy::Timeout(TimeoutRetrier { timeout_ms }), ..*self }
    }

    /// A clone of this client that never retries.
    pub fn clone_with_no_retry(&self) -> (r: Self)
        ensures
            r.spec_retrier() == RetryPolicy::No(NoRetrier {}),
            r.spec_error_on_truncate() == self.spec_error_on_truncate(),
            r.spec_max_active_sessions() == self.spec_max_active_sessions(),
            r.spec_transaction_options() == self.spec_transaction_options(),
            r.spec_idempotent_operation() == self.spec_idempotent_operation(),
            r.spec_timeouts() == self.spec_timeouts(),
    {
        QueryClient { retrier: RetryPolicy::No(NoRetrier {}), ..*self }
    }

    /// A clone of this client that treats operations as idempotent, so
    /// more errors become retryable.
    pub fn clone_with_idempotent_operations(&self, idempotent: bool) -> (r: Self)
        ensures
            r.spec_idempotent_operation() == idempotent,
            r.spec_error_on_truncate() == self.spec_error_on_truncate(),
            r.spec_max_active_sessions() == self.spec_max_active_sessions(),
            r.spec_retrier() == self.spec_retrier(),
            r.spec_transaction_options() == self.spec_transaction_options(),
            r.spec_timeouts() == self.spec_timeouts(),
    {
        QueryClient { idempotent_operation: idempotent, ..*self }
    }

    /// A clone of this client with other transaction options.
    pub fn clone_with_transaction_options(&self, opts: TransactionOptions) -> (r: Self)
        ensures
            r.spec_transaction_options() == opts,
            r.spec_error_on_truncate() == self.spec_error_on_truncate(),
            r.spec_max_active_sessions() == self.spec_max_active_sessions(),
            r.spec_retrier() == self.spec_retrier(),
            r.spec_idempotent_operation() == self.spec_idempotent_operation(),
            r.spec_timeouts() == self.spec_timeouts(),
    {
        QueryClient { transaction_options: opts, ..*self }
    }

    /// The executor's decision after a failed attempt: only an
    /// always-retryable error, or an idempotent-only error on a client
    /// configured idempotent, reaches the retry policy; the policy then
    /// allows a retry with its computed wait or denies it.
    pub open spec fn spec_retry_step(
        &self,
        err: YdbError,
        attempt: usize,
        time_from_start_ms: u64,
    ) -> RetryVerdict {
        let cls = spec_need_retry(err);
        if !(cls == NeedRetry::True || (cls == NeedRetry::IdempotentOnly
            && self.spec_idempotent_operation())) {
            RetryVerdict::GiveUp
        } else {
            let d = self.spec_retrier().spec_decision(
                RetryParams { attempt, time_from_start_ms },
            );
            if d.allow_retry {
                RetryVerdict::SleepThenRetry { wait_ms: d.wait_timeout_ms }
            } else {
                RetryVerdict::GiveUp
            }
        }
    }

    pub fn retry_step(&self, err: &YdbError, attempt: usize, time_from_start_ms: u64) -> (r:
        RetryVerdict)
        ensures
            r == self.spec_retry_step(*err, attempt, time_from_start_ms),
    {
        let cls = err.need_retry();
        let eligible = match cls {
            NeedRetry::True => true,
            NeedRetry::IdempotentOnly => self.idempotent_operation,
            NeedRetry::Never => false,
        };
        if !eligible {
            return RetryVerdict::GiveUp;
        }
        let d = self.retrier.wait_duration(RetryParams { attempt, time_from_start_ms });
        if d.allow_retry {
            RetryVerdict::SleepThenRetry { wait_ms: d.wait_timeout_ms }
        } else {
            RetryVerdict::GiveUp
        }
    }

    /// Replays the retry executor against a script: the outcome of each
    /// attempt and the clock reading after it. Returns the number of
    /// attempts made, the final outcome, and the waits that separated
    /// the attempts.
    #[verifier::loop_isolation(false)]
    pub fn run_retry_trace(&self, outcomes: Vec<YdbResult<()>>, clock_ms: Vec<u64>) -> (r: (
        usize,
        YdbResult<()>,
        Vec<u64>,
    ))
        requires
            outcomes@.len() == clock_ms@.len(),
            spec_trace_ends(*self, outcomes@, clock_ms@, 0),
        ensures
            r.0 as int == spec_trace_attempts(*self, outcomes@, clock_ms@, 0),
            1 <= r.0 <= outcomes@.len(),
            r.1 == outcomes@[r.0 - 1],
            r.2@.len() == r.0 - 1,
            forall|k: int|
                0 <= k < r.2@.len() ==> (#[trigger] outcomes@[k]) is Err
                    && self.spec_retry_step(outcomes@[k]->Err_0, (k + 1) as usize, clock_ms@[k])
                    == (RetryVerdict::SleepThenRetry { wait_ms: r.2@[k] }),
    {
        let total = outcomes.len();
        let ghost orig = outcomes@;
        let mut rest = outcomes;
        let mut attempts_made: usize = 0;
        let mut waits: Vec<u64> = Vec::new();
        while rest.len() > 0
            invariant
                orig.len() == total,
                attempts_made + rest@.len() == orig.len(),
                rest@ == orig.skip(attempts_made as int),
                waits@.len() == attempts_made,
                spec_trace_ends(*self, orig, clock_ms@, attempts_made as int),
                spec_trace_attempts(*self, orig, clock_ms@, 0) == attempts_made
                    + spec_trace_attempts(*self, orig, clock_ms@, attempts_made as int),
                forall|k: int|
                    0 <= k < waits@.len() ==> (#[trigger] orig[k]) is Err && self.spec_retry_step(
                        orig[k]->Err_0,
                        (k + 1) as usize,
                        clock_ms@[k],
                    ) == (RetryVerdict::SleepThenRetry { wait_ms: waits@[k] }),
            decreases rest.len(),
        {
            let ghost i = attempts_made as int;
            let out = rest.remove(0);
            proof {
                assert(orig.skip(i)[0] == orig[i]);
            }
            match out {
                Ok(u) => {
                    return (attempts_made + 1, Ok(u), waits);
                },
                Err(e) => {
                    let verdict = self.retry_step(&e, attempts_made + 1, clock_ms[attempts_made]);
                    match verdict {
                        RetryVerdict::GiveUp => {
                            return (attempts_made + 1, Err(e), waits);
                        },
                        RetryVerdict::SleepThenRetry { wait_ms } => {
                            waits.push(wait_ms);
                            attempts_made = attempts_made + 1;
                            proof {
                                assert(rest@ =~= orig.skip(attempts_made as int));
                            }
                        },
                    }
                },
            }
        }
        proof {
            assert(false);
        }
        vstd::pervasive::unreached()
    }
}

/// How many attempts the executor makes against a script, starting at
/// the given attempt index: one for the scripted outcome at that index,
/// plus the rest of the run when that outcome is a failure the
/// configuration lets it retry.
pub open spec fn spec_trace_attempts(
    client: QueryClient,
    outcomes: Seq<YdbResult<()>>,
    clock_ms: Seq<u64>,
    i: int,
) -> int
    decreases outcomes.len() - i,
{
    if i < 0 || i >= outcomes.len() || i >= clock_ms.len() {
        0
    } else {
        match outcomes[i] {
            Ok(_) => 1,
            Err(e) => if client.spec_retry_step(e, (i + 1) as usize, clock_ms[i]) is GiveUp {
                1
            } else {
                1 + spec_trace_attempts(client, outcomes, clock_ms, i + 1)
            },
        }
    }
}

/// Whether a script ends the run before it is exhausted: some attempt
/// succeeds, or some failure makes the executor give up.
pub open spec fn spec_trace_ends(
    client: QueryClient,
    outcomes: Seq<YdbResult<()>>,
    clock_ms: Seq<u64>,
    i: int,
) -> bool
    decreases outcomes.len() - i,
{
    if i < 0 || i >= outcomes.len() || i >= clock_ms.len() {
        false
    } else {
        match outcomes[i] {
            Ok(_) => true,
            Err(e) => client.spec_retry_step(e, (i + 1) as usize, clock_ms[i]) is GiveUp
                || spec_trace_ends(client, outcomes, clock_ms, i + 1),
        }
    }
}

/// Given a fatal (never-retry) error, exactly one attempt is made.
pub proof fn lemma_fatal_error_single_attempt(
    client: QueryClient,
    outcomes: Seq<YdbResult<()>>,
    clock_ms: Seq<u64>,
)
    requires
        outcomes.len() >= 1,
        clock_ms.len() == outcomes.len(),
        outcomes[0] is Err,
        spec_need_retry(outcomes[0]->Err_0) == NeedRetry::Never,
    ensures
        spec_trace_attempts(client, outcomes, clock_ms, 0) == 1,
{
}

/// Given an idempotent-only error on a client not configured as
/// idempotent, exactly one attempt is made.
pub proof fn lemma_idempotent_only_single_attempt(
    client: QueryClient,
    outcomes: Seq<YdbResult<()>>,
    clock_ms: Seq<u64>,
)
    requires
        outcomes.len() >= 1,
        clock_ms.len() == outcomes.len(),
        outcomes[0] is Err,
        spec_need_retry(outcomes[0]->Err_0) == NeedRetry::IdempotentOnly,
        !client.spec_idempotent_operation(),
    ensures
        spec_trace_attempts(client, outcomes, clock_ms, 0) == 1,
{
}

proof fn lemma_trace_attempts_from(
    client: QueryClient,
    outcomes: Seq<YdbResult<()>>,
    clock_ms: Seq<u64>,
    n: int,
    i: int,
)
    requires
        clock_ms.len() == outcomes.len(),
        0 <= i <= n < outcomes.len(),
        forall|k: int|
            i <= k < n ==> (#[trigger] outcomes[k]) is Err && !(client.spec_retry_step(
                outcomes[k]->Err_0,
                (k + 1) as usize,
                clock_ms[k],
            ) is GiveUp),
        outcomes[n] is Ok || (outcomes[n] is Err && client.spec_retry_step(
            outcomes[n]->Err_0,
            (n + 1) as usize,
            clock_ms[n],
        ) is GiveUp),
    ensures
        spec_trace_attempts(client, outcomes, clock_ms, i) == n + 1 - i,
    decreases n - i,
{
    if i == n {
    } else {
        lemma_trace_attempts_from(client, outcomes, clock_ms, n, i + 1);
    }
}

/// Given failures the configuration keeps retrying for the first `n`
/// attempts and a run-ending outcome at attempt `n + 1`, exactly
/// `n + 1` attempts are made: the initial attempt plus `n` retries.
pub proof fn lemma_retry_attempt_count(
    client: QueryClient,
    outcomes: Seq<YdbResult<()>>,
    clock_ms: Seq<u64>,
    n: int,
)
    requires
        clock_ms.len() == outcomes.len(),
        0 <= n < outcomes.len(),
        forall|k: int|
            0 <= k < n ==> (#[trigger] outcomes[k]) is Err && !(client.spec_retry_step(
                outcomes[k]->Err_0,
                (k + 1) as usize,
                clock_ms[k],
            ) is GiveUp),
        outcomes[n] is Ok || (outcomes[n] is Err && client.spec_retry_step(
            outcomes[n]->Err_0,
            (n + 1) as usize,
            clock_ms[n],
        ) is GiveUp),
    ensures
        spec_trace_attempts(client, outcomes, clock_ms, 0) == n + 1,
{
    lemma_trace_attempts_from(client, outcomes, clock_ms, n, 0);
}

} // verus!
