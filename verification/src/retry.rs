//! Bounded retry with exponential backoff.
//!
//! A remote call is attempted up to `max_attempts` times.  After a failure
//! the classifier decides: only a transient failure (rate limiting or a
//! service outage) is retried, after a delay that doubles per attempt and
//! is capped at `max_delay_ms`.  The retry run itself is modeled here as a
//! function over the sequence of results the remote would hand back on
//! successive attempts, so every decision the executor makes is verified;
//! a driver performing real calls takes its decisions from
//! [`crate::classify::classify`], [`should_retry`] and [`backoff_delay`].

use vstd::arithmetic::power2::{lemma_pow2_strictly_increases, lemma_pow2_unfold, pow2};
use vstd::prelude::*;

use crate::classify::{classify, is_transient, transient_text, ErrorKind};
use crate::contact::ContactRecord;

verus! {

/// The retry policy: immutable, constructed once per run.
#[derive(Clone, Copy, Debug)]
pub struct RetryConfig {
    pub max_attempts: u32,
    pub base_delay_ms: u64,
    pub max_delay_ms: u64,
}

impl Default for RetryConfig {
    /// The default policy: 3 attempts, 100 ms base delay, 5000 ms cap.
    fn default() -> (c: Self)
        ensures
            c.max_attempts == 3,
            c.base_delay_ms == 100,
            c.max_delay_ms == 5000,
    {
        RetryConfig { max_attempts: 3, base_delay_ms: 100, max_delay_ms: 5000 }
    }
}

/// The delay before attempt `attempt + 1`: `base * 2^(attempt-1)`, capped
/// at `max`.
pub open spec fn backoff_spec(base: u64, max: u64, attempt: int) -> int
    recommends
        1 <= attempt,
{
    let raw = (base as int) * (pow2((attempt - 1) as nat) as int);
    if raw <= max as int {
        raw
    } else {
        max as int
    }
}

/// Computes the backoff delay for the given 1-indexed attempt.
#[verifier::loop_isolation(false)]
pub fn backoff_delay(config: &RetryConfig, attempt: u32) -> (d: u64)
    requires
        1 <= attempt,
    ensures
        d as int == backoff_spec(config.base_delay_ms, config.max_delay_ms, attempt as int),
{
    let base = config.base_delay_ms;
    let max = config.max_delay_ms;
    let mut d: u64 = base;
    let mut i: u32 = 1;
    proof {
        vstd::arithmetic::power2::lemma2_to64();
        assert((base as int) * 1 == base as int) by (nonlinear_arith);
    }
    while i < attempt
        invariant
            1 <= i <= attempt,
            d as int == (base as int) * (pow2((i - 1) as nat) as int),
        decreases attempt - i,
    {
        if d >= max {
            proof {
                if (i as int) < attempt as int {
                    lemma_pow2_strictly_increases((i - 1) as nat, (attempt - 1) as nat);
                    assert((base as int) * (pow2((i - 1) as nat) as int) <= (base as int) * (pow2(
                    (attempt - 1) as nat) as int)) by (nonlinear_arith)
                        requires
                            pow2((i - 1) as nat) <= pow2((attempt - 1) as nat),
                            base as int >= 0,
                    ;
                }
            }
            return max;
        }
        if d > max / 2 {
            proof {
                lemma_pow2_unfold(i as nat);
                assert((base as int) * (pow2(i as nat) as int) == 2 * (d as int))
                    by (nonlinear_arith)
                    requires
                        pow2(i as nat) == 2 * pow2((i - 1) as nat),
                        d as int == (base as int) * (pow2((i - 1) as nat) as int),
                ;
                if (i as int) < attempt as int - 1 {
                    lemma_pow2_strictly_increases(i as nat, (attempt - 1) as nat);
                    assert((base as int) * (pow2(i as nat) as int) <= (base as int) * (pow2(
                    (attempt - 1) as nat) as int)) by (nonlinear_arith)
                        requires
                            pow2(i as nat) <= pow2((attempt - 1) as nat),
                            base as int >= 0,
                    ;
                }
            }
            return max;
        }
        proof {
            lemma_pow2_unfold(i as nat);
            assert((base as int) * (pow2(i as nat) as int) == 2 * ((base as int) * (pow2(
            (i - 1) as nat) as int))) by (nonlinear_arith)
                requires
                    pow2(i as nat) == 2 * pow2((i - 1) as nat),
            ;
        }
        d = d * 2;
        i = i + 1;
    }
    if d >= max {
        max
    } else {
        d
    }
}

/// Decides whether a failed attempt is retried: only on a transient
/// classification, and only while attempts remain.
pub fn should_retry(k: &ErrorKind, attempt: u32, max_attempts: u32) -> (r: bool)
    ensures
        r == ((k is Throttled || k is ServiceUnavailable) && attempt < max_attempts),
{
    is_transient(k) && attempt < max_attempts
}

/// What the remote hands back for one attempt of one cell's call.
#[derive(Debug)]
pub enum AttemptResult {
    /// A read found a record.
    Found(ContactRecord),
    /// A read completed but no record exists.
    NoRecord,
    /// A write or delete completed.
    Done,
    /// The call failed; the text is the normalized rendering of the error.
    Failed(String),
}

/// A failure on which the executor would retry.
pub open spec fn transient_failure(r: AttemptResult) -> bool {
    r matches AttemptResult::Failed(m) && transient_text(m@)
}

/// The number of attempts the executor makes, scanning from attempt
/// `i + 1`: it stops at the first result that is not a transient failure,
/// and never exceeds `max` attempts in total.
pub open spec fn retry_attempts_from(max: int, script: Seq<AttemptResult>, i: int) -> int
    recommends
        0 <= i < max <= script.len(),
    decreases max - i,
{
    if i >= max - 1 {
        max
    } else if transient_failure(script[i]) {
        retry_attempts_from(max, script, i + 1)
    } else {
        i + 1
    }
}

/// The number of attempts the executor makes on the given script.
pub open spec fn retry_attempts(config: RetryConfig, script: Seq<AttemptResult>) -> int {
    retry_attempts_from(config.max_attempts as int, script, 0)
}

/// The result the executor ends with: the script entry of its last attempt.
pub open spec fn retry_result(config: RetryConfig, script: Seq<AttemptResult>) -> AttemptResult {
    script[retry_attempts(config, script) - 1]
}

/// What a retry run did: how many times the operation was invoked, and
/// the delays slept between attempts.  The result of the run is the
/// script entry at `attempts - 1`.
pub struct RetryTrace {
    pub attempts: usize,
    pub delays: Vec<u64>,
}

/// Runs the retry executor over a script: entry `i` is what the remote
/// would hand back on attempt `i + 1`.  The operation is invoked at most
/// `max_attempts` times; a failure is re-attempted only while its
/// classification is transient; the delay before attempt `n + 1` is
/// `base * 2^(n-1)` capped at the configured maximum.
pub fn run_retry(config: &RetryConfig, script: &Vec<AttemptResult>) -> (t: RetryTrace)
    requires
        1 <= config.max_attempts <= script.len(),
    ensures
        t.attempts == retry_attempts(*config, script@),
        1 <= t.attempts <= config.max_attempts,
        forall|k: int| 0 <= k < t.attempts - 1 ==> transient_failure(script@[k]),
        t.attempts < config.max_attempts ==> !transient_failure(script@[t.attempts - 1]),
        t.delays.len() == t.attempts - 1,
        forall|k: int|
            0 <= k < t.delays.len() ==> t.delays@[k] as int == backoff_spec(
                config.base_delay_ms,
                config.max_delay_ms,
                k + 1,
            ),
{
    let max = config.max_attempts as usize;
    let mut attempt: usize = 1;
    let mut delays: Vec<u64> = Vec::new();
    let mut done = false;
    while attempt < max && !done
        invariant
            max == config.max_attempts,
            1 <= config.max_attempts <= script@.len(),
            1 <= attempt <= max,
            forall|k: int| 0 <= k < attempt - 1 ==> transient_failure(script@[k]),
            !done ==> retry_attempts(*config, script@) == retry_attempts_from(
                max as int,
                script@,
                attempt - 1,
            ),
            done ==> retry_attempts(*config, script@) == attempt && !transient_failure(
                script@[attempt - 1],
            ) && attempt < max,
            delays.len() == attempt - 1,
            forall|k: int|
                0 <= k < delays.len() ==> delays@[k] as int == backoff_spec(
                    config.base_delay_ms,
                    config.max_delay_ms,
                    k + 1,
                ),
        decreases max - attempt + (if done { 0int } else { 1int }),
    {
        let retried = match &script[attempt - 1] {
            AttemptResult::Failed(m) => {
                let kind = classify(m.as_str());
                is_transient(&kind)
            },
            _ => false,
        };
        if retried {
            let delay = backoff_delay(config, attempt as u32);
            delays.push(delay);
            attempt = attempt + 1;
        } else {
            done = true;
        }
    }
    RetryTrace { attempts: attempt, delays }
}

/// Law: the executor never re-invokes the operation after a failure whose
/// classification is permanent — an access denial or a missing resource
/// observed on the first attempt means exactly one invocation.
pub proof fn retry_stops_on_permanent(config: RetryConfig, script: Seq<AttemptResult>)
    requires
        1 <= config.max_attempts <= script.len(),
        script[0] matches AttemptResult::Failed(m) && (crate::classify::classified_access_denied(
            m@,
        ) || crate::classify::classified_not_found(m@)),
    ensures
        retry_attempts(config, script) == 1,
{
    assert(!transient_failure(script[0]));
}

} // verus!
