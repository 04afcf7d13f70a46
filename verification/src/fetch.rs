//! Decision logic of the HTTP access layer: which URLs are fetched at all,
//! which attempt outcomes are retried, how long the exponential backoff
//! waits, and what text a finished fetch yields.
//!
//! The layer's one operation is "fetch text by URL". A URL that does not
//! parse, or has no host, yields nothing at once, with no network call.
//! Otherwise attempts are issued under the governor's permits until one
//! returns a non-retryable outcome or the attempt budget is exhausted.
//! Transport errors and server failures (5xx) are retried; every other
//! status ends the fetch at once. A success (2xx) with a non-empty body
//! yields the body; a success with an empty body, and every failure, yields
//! nothing. An embedding runtime performs the actual network attempts and
//! feeds each outcome to [`next_fetch_step`]; [`fetch_text_from_outcomes`]
//! runs the same decisions over a recorded tape of outcomes, which is what
//! a deterministic substitute transport produces.
use vstd::prelude::*;

verus! {

/// What the transport reported for one attempt: a transport or connection
/// error, or a response with its status and body text.
#[derive(PartialEq, Debug)]
pub enum AttemptOutcome {
    Transport,
    Status(u16, String),
}

/// Retry configuration: the total attempt budget (at least one) and the
/// base, in milliseconds, of the exponential backoff between attempts.
pub struct RetryPolicy {
    pub max_attempts: usize,
    pub backoff_base_ms: u64,
}

impl RetryPolicy {
    /// At least one attempt is always made.
    pub open spec fn wf(self) -> bool {
        self.max_attempts >= 1
    }
}

/// Only transport errors and server failures (5xx) are retried; every
/// other status is final at once.
pub open spec fn spec_retryable(o: AttemptOutcome) -> bool {
    match o {
        AttemptOutcome::Transport => true,
        AttemptOutcome::Status(s, _) => 500 <= s < 600,
    }
}

/// The text a non-retryable outcome yields: the body iff the status is a
/// success and the body is non-empty; an empty body and every other status
/// yield nothing.
pub open spec fn spec_final_text(o: AttemptOutcome) -> Option<Seq<char>> {
    match o {
        AttemptOutcome::Transport => None,
        AttemptOutcome::Status(s, body) => if 200 <= s < 300 && body@.len() > 0 {
            Some(body@)
        } else {
            None
        },
    }
}

/// The text a fetch yields from the outcomes a transport would return for
/// its successive attempts, with `budget` attempts allowed: retryable
/// outcomes are consumed until the budget, or the tape, runs out.
pub open spec fn spec_fetch_result_from(outcomes: Seq<AttemptOutcome>, budget: int) -> Option<
    Seq<char>,
>
    decreases budget,
{
    if budget <= 0 || outcomes.len() == 0 {
        None
    } else if spec_retryable(outcomes.first()) {
        if budget == 1 {
            None
        } else {
            spec_fetch_result_from(outcomes.drop_first(), budget - 1)
        }
    } else {
        spec_final_text(outcomes.first())
    }
}

/// The text a fetch yields under `policy` from a tape of attempt outcomes.
pub open spec fn spec_fetch_result(policy: RetryPolicy, outcomes: Seq<AttemptOutcome>) -> Option<
    Seq<char>,
> {
    spec_fetch_result_from(outcomes, policy.max_attempts as int)
}

/// Whether one attempt outcome is retried under the policy above.
pub fn retryable(o: &AttemptOutcome) -> (r: bool)
    ensures
        r == spec_retryable(*o),
{
    match o {
        AttemptOutcome::Transport => true,
        AttemptOutcome::Status(s, _) => 500 <= *s && *s < 600,
    }
}

/// Two to the power `k`.
pub open spec fn spec_pow2(k: nat) -> nat
    decreases k,
{
    if k == 0 {
        1
    } else {
        2 * spec_pow2((k - 1) as nat)
    }
}

/// The backoff before retrying after `k` attempts: the base doubled `k`
/// times, saturating at the largest representable delay.
pub open spec fn spec_backoff(base: u64, k: nat) -> u64 {
    if base * spec_pow2(k) > u64::MAX {
        u64::MAX
    } else {
        (base * spec_pow2(k)) as u64
    }
}

/// Doubling once more multiplies the unsaturated delay by two.
proof fn lemma_backoff_double(base: u64, k: nat)
    ensures
        base * spec_pow2(k + 1) == 2 * (base * spec_pow2(k)),
{
    assert(spec_pow2(k + 1) == 2 * spec_pow2(k));
    assert(base * (2 * spec_pow2(k)) == 2 * (base * spec_pow2(k))) by (nonlinear_arith);
}

/// The backoff delay after `attempts_used` attempts have failed.
pub fn backoff_delay(base: u64, attempts_used: usize) -> (d: u64)
    ensures
        d == spec_backoff(base, attempts_used as nat),
{
    let mut d: u64 = base;
    let mut i: usize = 0;
    proof {
        assert(spec_pow2(0) == 1);
    }
    while i < attempts_used
        invariant
            i <= attempts_used,
            d == spec_backoff(base, i as nat),
        decreases attempts_used - i,
    {
        proof {
            lemma_backoff_double(base, i as nat);
        }
        if d > u64::MAX / 2 {
            d = u64::MAX;
        } else {
            d = d * 2;
        }
        i = i + 1;
    }
    d
}

/// What the access layer does after one more attempt outcome: wait and
/// retry, or finish with the fetch's result.
#[derive(PartialEq, Debug)]
pub enum FetchStep {
    Retry(u64),
    Done(Option<String>),
}

/// Decide the next step after attempt number `attempts_used` (counted from
/// zero) returned `outcome`: retryable outcomes are retried, after the
/// exponential backoff, while the budget lasts; everything else finishes
/// the fetch.
pub fn next_fetch_step(policy: &RetryPolicy, attempts_used: usize, outcome: AttemptOutcome) -> (s:
    FetchStep)
    requires
        policy.wf(),
        attempts_used < policy.max_attempts,
    ensures
        spec_retryable(outcome) && attempts_used + 1 < policy.max_attempts ==> s
            == FetchStep::Retry(spec_backoff(policy.backoff_base_ms, attempts_used as nat)),
        spec_retryable(outcome) && attempts_used + 1 == policy.max_attempts ==> s
            == FetchStep::Done(None::<String>),
        !spec_retryable(outcome) ==> (match s {
            FetchStep::Done(t) => (match t {
                Some(text) => spec_final_text(outcome) == Some(text@),
                None => spec_final_text(outcome) is None,
            }),
            FetchStep::Retry(_) => false,
        }),
{
    if retryable(&outcome) {
        if attempts_used + 1 < policy.max_attempts {
            FetchStep::Retry(backoff_delay(policy.backoff_base_ms, attempts_used))
        } else {
            FetchStep::Done(None)
        }
    } else {
        match outcome {
            AttemptOutcome::Transport => FetchStep::Done(None),
            AttemptOutcome::Status(s, body) => {
                if 200 <= s && s < 300 && !body.as_str().is_empty() {
                    FetchStep::Done(Some(body))
                } else {
                    FetchStep::Done(None)
                }
            },
        }
    }
}

/// Run a whole fetch over a recorded tape of attempt outcomes — what a
/// deterministic substitute transport returns for the successive attempts.
#[verifier::loop_isolation(false)]
pub fn run_fetch(policy: &RetryPolicy, outcomes: Vec<AttemptOutcome>) -> (r: Option<String>)
    requires
        policy.wf(),
    ensures
        (match r {
            Some(t) => spec_fetch_result(*policy, outcomes@) == Some(t@),
            None => spec_fetch_result(*policy, outcomes@) is None,
        }),
{
    let ghost orig = outcomes@;
    let mut outcomes = outcomes;
    let mut budget = policy.max_attempts;
    while budget > 0 && outcomes.len() > 0
        invariant
            spec_fetch_result_from(orig, policy.max_attempts as int) == spec_fetch_result_from(
                outcomes@,
                budget as int,
            ),
        decreases budget,
    {
        let ghost pre = outcomes@;
        let o = outcomes.remove(0);
        proof {
            assert(o == pre.first());
        }
        if retryable(&o) {
            if budget == 1 {
                proof {
                    assert(spec_fetch_result_from(pre, budget as int) is None);
                }
                return None;
            }
            budget = budget - 1;
            proof {
                assert(outcomes@ =~= pre.drop_first());
            }
        } else {
            proof {
                assert(spec_fetch_result_from(pre, budget as int) == spec_final_text(o));
            }
            match o {
                AttemptOutcome::Transport => {
                    return None;
                },
                AttemptOutcome::Status(s, body) => {
                    if 200 <= s && s < 300 && !body.as_str().is_empty() {
                        return Some(body);
                    } else {
                        return None;
                    }
                },
            }
        }
    }
    proof {
        assert(spec_fetch_result_from(outcomes@, budget as int) is None);
    }
    None
}

/// The host component of a URL string: what the URL parser extracts when
/// the string parses as an absolute URL that has a host, and nothing
/// otherwise. The result depends on the string alone.
pub uninterp spec fn host_of(url: Seq<char>) -> Option<Seq<char>>;

/// Relies on reqwest's `Url::parse` (via `str::parse`) and `Url::host_str`:
/// parsing is a function of the input string alone, and a parsed URL either
/// carries a host component or does not.
#[verifier::external_body]
pub(crate) fn url_host(url: &str) -> (r: Option<String>)
    ensures
        (match r {
            Some(h) => host_of(url@) == Some(h@),
            None => host_of(url@) is None,
        }),
{
    match url.parse::<reqwest::Url>() {
        Ok(u) => u.host_str().map(|h| h.to_string()),
        Err(_) => None,
    }
}

/// Fetch text for one URL against a recorded tape of attempt outcomes. A
/// URL that does not parse, or has no host, yields nothing at once — no
/// attempt is consumed; otherwise the fetch runs the retry policy over the
/// tape.
pub fn fetch_text_from_outcomes(url: &str, policy: &RetryPolicy, outcomes: Vec<AttemptOutcome>) -> (r:
    Option<String>)
    requires
        policy.wf(),
    ensures
        host_of(url@) is None ==> r is None,
        host_of(url@) is Some ==> (match r {
            Some(t) => spec_fetch_result(*policy, outcomes@) == Some(t@),
            None => spec_fetch_result(*policy, outcomes@) is None,
        }),
{
    match url_host(url) {
        Some(_) => run_fetch(policy, outcomes),
        None => None,
    }
}

/// Retrying is worth it: a host that fails transiently on every attempt
/// before `k` and then returns a success with a non-empty body on attempt
/// `k` produces a successful fetch, whenever the attempt budget covers
/// attempt `k`.
proof fn lemma_fetch_from_reaches_success(outcomes: Seq<AttemptOutcome>, budget: int, k: int)
    requires
        0 <= k < budget,
        k < outcomes.len(),
        forall|j: int| 0 <= j < k ==> spec_retryable(#[trigger] outcomes[j]),
        !spec_retryable(outcomes[k]),
    ensures
        spec_fetch_result_from(outcomes, budget) == spec_final_text(outcomes[k]),
    decreases k,
{
    if k == 0 {
    } else {
        assert(spec_retryable(outcomes.first()));
        assert forall|j: int| 0 <= j < k - 1 implies spec_retryable(
            #[trigger] outcomes.drop_first()[j],
        ) by {
            assert(outcomes.drop_first()[j] == outcomes[j + 1]);
        }
        lemma_fetch_from_reaches_success(outcomes.drop_first(), budget - 1, k - 1);
        assert(outcomes.drop_first()[k - 1] == outcomes[k]);
    }
}

/// A transport that fails transiently until attempt `k` and then answers
/// with a success and a non-empty body yields that body, with no
/// user-visible error, whenever the retry budget covers attempt `k`.
pub proof fn lemma_transient_failures_then_success(
    policy: RetryPolicy,
    outcomes: Seq<AttemptOutcome>,
    k: int,
)
    requires
        policy.wf(),
        0 <= k < policy.max_attempts,
        k < outcomes.len(),
        forall|j: int| 0 <= j < k ==> spec_retryable(#[trigger] outcomes[j]),
        !spec_retryable(outcomes[k]),
        spec_final_text(outcomes[k]) is Some,
    ensures
        spec_fetch_result(policy, outcomes) == spec_final_text(outcomes[k]),
        spec_fetch_result(policy, outcomes) is Some,
{
    lemma_fetch_from_reaches_success(outcomes, policy.max_attempts as int, k);
}

} // verus!
