//! Where computation runs, and the retry policy of the network target.

use vstd::prelude::*;

verus! {

/// How often, and how patiently, a network prover is asked again after a
/// transient failure. Delays are in milliseconds.
#[derive(Debug, Clone, Copy, PartialEq, Eq)]
pub struct RetryPolicy {
    /// Attempts in all, the first one included.
    pub max_attempts: u32,
    pub initial_backoff_ms: u64,
    pub backoff_multiplier: u64,
    pub max_backoff_ms: u64,
}

/// Configuration for network-based proving.
#[derive(Debug, Clone)]
pub struct NetworkProverConfig {
    /// The endpoint URL of the prover network service.
    pub endpoint: String,
    /// Optional API key for authentication.
    pub api_key: Option<String>,
    /// Upper bound on the whole request, in milliseconds, if any.
    pub timeout_ms: Option<u64>,
    /// Retry policy for transient failures; none means a single attempt.
    pub retry: Option<RetryPolicy>,
    /// Whether to fall back to local proving when the network gives up.
    pub local_fallback: bool,
}

impl Default for NetworkProverConfig {
    fn default() -> (r: NetworkProverConfig)
        ensures
            r.endpoint@ == Seq::<char>::empty(),
            r.api_key is None,
            r.timeout_ms is None,
            r.retry is None,
            !r.local_fallback,
    {
        NetworkProverConfig {
            endpoint: String::new(),
            api_key: None,
            timeout_ms: None,
            retry: None,
            local_fallback: false,
        }
    }
}

/// The hardware or service a backend instance is bound to for its lifetime.
#[derive(Debug, Clone)]
pub enum ProverResourceType {
    Cpu,
    Gpu,
    Network(NetworkProverConfig),
}

/// Whether a failure may go away by asking again.
#[derive(Debug, Clone, Copy, PartialEq, Eq)]
pub enum FailureClass {
    /// A network-class failure: connection refused, timeout, unavailable.
    Transient,
    /// A failure that asking again cannot mend: malformed input, a bad guest.
    Permanent,
}

/// What to do after a failed attempt.
#[derive(Debug, Clone, Copy, PartialEq, Eq)]
pub enum RetryDecision {
    /// Ask again after this many milliseconds.
    RetryAfter(u64),
    GiveUp,
}

/// The delay before retry number `k + 1`: the initial backoff, multiplied
/// by the multiplier once per earlier retry, never above the cap.
pub open spec fn backoff_ms(p: RetryPolicy, k: nat) -> nat
    decreases k,
{
    if k == 0 {
        if p.initial_backoff_ms <= p.max_backoff_ms {
            p.initial_backoff_ms as nat
        } else {
            p.max_backoff_ms as nat
        }
    } else {
        let prev = backoff_ms(p, (k - 1) as nat);
        if prev * p.backoff_multiplier <= p.max_backoff_ms {
            (prev * p.backoff_multiplier) as nat
        } else {
            p.max_backoff_ms as nat
        }
    }
}

/// The delay before retry number `k + 1`, in milliseconds.
pub fn backoff_delay(p: &RetryPolicy, k: u32) -> (r: u64)
    ensures
        r == backoff_ms(*p, k as nat),
        r <= p.max_backoff_ms,
{
    let mut d: u64 = if p.initial_backoff_ms <= p.max_backoff_ms {
        p.initial_backoff_ms
    } else {
        p.max_backoff_ms
    };
    let mut i: u32 = 0;
    while i < k
        invariant
            i <= k,
            d == backoff_ms(*p, i as nat),
            d <= p.max_backoff_ms,
        decreases k - i,
    {
        d = match d.checked_mul(p.backoff_multiplier) {
            Some(m) => if m <= p.max_backoff_ms {
                m
            } else {
                p.max_backoff_ms
            },
            None => p.max_backoff_ms,
        };
        i = i + 1;
    }
    d
}

/// The decision after `attempts_made` failed attempts (at least one), the
/// last of them of class `failure`: a permanent failure is never retried;
/// a transient one is retried while attempts remain, after the capped
/// exponential backoff.
pub fn next_retry(p: &RetryPolicy, attempts_made: u32, failure: FailureClass) -> (r: RetryDecision)
    requires
        attempts_made >= 1,
    ensures
        (failure == FailureClass::Permanent || attempts_made >= p.max_attempts) ==> r
            == RetryDecision::GiveUp,
        (failure == FailureClass::Transient && attempts_made < p.max_attempts) ==> r
            == RetryDecision::RetryAfter(backoff_ms(*p, (attempts_made - 1) as nat) as u64),
{
    match failure {
        FailureClass::Permanent => RetryDecision::GiveUp,
        FailureClass::Transient => {
            if attempts_made >= p.max_attempts {
                RetryDecision::GiveUp
            } else {
                RetryDecision::RetryAfter(backoff_delay(p, attempts_made - 1))
            }
        },
    }
}

} // verus!
