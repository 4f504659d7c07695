//! The resilient request execution core: the backoff scheduler (a pure
//! function of attempt number and policy) and the request executor's retry
//! decision logic, driven one attempt outcome at a time.

use vstd::prelude::*;
use vstd::arithmetic::div_mod::{lemma_div_denominator, lemma_div_is_ordered, lemma_div_multiples_vanish};
use vstd::arithmetic::mul::{lemma_mul_inequality, lemma_mul_nonnegative};
use crate::config::{MAX_DELAY_MILLIS, MAX_MULTIPLIER_HUNDREDTHS, RetryConfig};
use crate::error::{classified_error, handle_api_error, is_retryable_model, retry_delay_model, Error, ErrorModel};

verus! {

/// Largest jitter bonus, in thousandths of the capped delay: up to one
/// quarter more.
pub const MAX_JITTER_THOUSANDTHS: u64 = 250;

/// The delay owed before the retry that follows attempt `attempt` (1-based),
/// before jitter, in milliseconds: the initial delay grown by the backoff
/// multiplier once per attempt beyond the first, capped at the policy's
/// ceiling at every step.
pub open spec fn scaled_delay_millis(policy: RetryConfig, attempt: nat) -> int
    decreases attempt,
{
    if attempt <= 1 {
        vstd::math::min(policy.initial_delay_millis as int, policy.max_delay_millis as int)
    } else {
        vstd::math::min(
            scaled_delay_millis(policy, (attempt - 1) as nat)
                * policy.backoff_multiplier_hundredths as int / 100,
            policy.max_delay_millis as int,
        )
    }
}

/// The pre-jitter delay never leaves `[0, max_delay_millis]`.
pub proof fn lemma_scaled_delay_bounds(policy: RetryConfig, attempt: nat)
    requires
        policy.wf(),
    ensures
        0 <= scaled_delay_millis(policy, attempt) <= policy.max_delay_millis,
    decreases attempt,
{
    if attempt <= 1 {
    } else {
        let prev = scaled_delay_millis(policy, (attempt - 1) as nat);
        lemma_scaled_delay_bounds(policy, (attempt - 1) as nat);
        lemma_mul_nonnegative(prev, policy.backoff_multiplier_hundredths as int);
        lemma_div_is_ordered(0, prev * policy.backoff_multiplier_hundredths as int, 100);
    }
}

/// The first delay, before jitter, is exactly the policy's initial delay.
pub proof fn lemma_first_delay(policy: RetryConfig)
    requires
        policy.wf(),
    ensures
        scaled_delay_millis(policy, 1) == policy.initial_delay_millis,
{
}

/// Growing a capped delay by the multiplier never shrinks it.
proof fn lemma_scaled_delay_step(policy: RetryConfig, attempt: nat)
    requires
        policy.wf(),
        attempt >= 1,
    ensures
        scaled_delay_millis(policy, attempt) <= scaled_delay_millis(policy, attempt + 1),
{
    let cur = scaled_delay_millis(policy, attempt);
    let m = policy.backoff_multiplier_hundredths as int;
    lemma_scaled_delay_bounds(policy, attempt);
    assert(cur * 100 <= cur * m) by {
        lemma_mul_inequality(100, m, cur);
        assert(100 * cur == cur * 100) by (nonlinear_arith);
        assert(m * cur == cur * m) by (nonlinear_arith);
    }
    assert(cur == cur * 100 / 100) by {
        lemma_div_multiples_vanish(cur, 100);
        assert(100 * cur == cur * 100) by (nonlinear_arith);
    }
    lemma_div_is_ordered(cur * 100, cur * m, 100);
}

/// The pre-jitter delay is non-decreasing in the attempt number.
pub proof fn lemma_scaled_delay_monotonic(policy: RetryConfig, a1: nat, a2: nat)
    requires
        policy.wf(),
        1 <= a1 <= a2,
    ensures
        scaled_delay_millis(policy, a1) <= scaled_delay_millis(policy, a2),
    decreases a2 - a1,
{
    if a1 < a2 {
        lemma_scaled_delay_monotonic(policy, a1, (a2 - 1) as nat);
        lemma_scaled_delay_step(policy, (a2 - 1) as nat);
    }
}

/// Relies on `rand::random_range`: a sample drawn from the inclusive range
/// `0..=bound` by the thread-local generator. Nothing is assumed of the
/// distribution; every outcome lies in the range.
#[verifier::external_body]
fn random_upto(bound: u64) -> (r: u64)
    ensures
        r <= bound,
{
    rand::random_range(0..=bound)
}

/// Compute the delay to wait after attempt `attempt` (1-based) before the
/// next attempt, in milliseconds: exponential growth from the initial delay,
/// capped at the policy's ceiling, with up to one quarter of random jitter
/// added on top when the policy asks for it.
pub fn calculate_retry_delay(policy: &RetryConfig, attempt: u32) -> (delay: u64)
    requires
        policy.wf(),
        attempt >= 1,
    ensures
        !policy.jitter ==> delay == scaled_delay_millis(*policy, attempt as nat),
        scaled_delay_millis(*policy, attempt as nat) <= delay <= scaled_delay_millis(
            *policy,
            attempt as nat,
        ) + scaled_delay_millis(*policy, attempt as nat) / 4,
        delay <= policy.max_delay_millis + policy.max_delay_millis / 4,
{
    let mut cur: u64 = if policy.initial_delay_millis <= policy.max_delay_millis {
        policy.initial_delay_millis
    } else {
        policy.max_delay_millis
    };
    let mut k: u32 = 1;
    while k < attempt
        invariant
            policy.wf(),
            1 <= k <= attempt,
            cur == scaled_delay_millis(*policy, k as nat),
            cur <= policy.max_delay_millis,
        decreases attempt - k,
    {
        proof {
            assert(cur * policy.backoff_multiplier_hundredths
                <= MAX_DELAY_MILLIS * MAX_MULTIPLIER_HUNDREDTHS) by (nonlinear_arith)
                requires
                    cur <= MAX_DELAY_MILLIS,
                    policy.backoff_multiplier_hundredths <= MAX_MULTIPLIER_HUNDREDTHS,
                    0 <= cur,
            ;
        }
        let grown = cur * policy.backoff_multiplier_hundredths / 100;
        cur = if grown <= policy.max_delay_millis {
            grown
        } else {
            policy.max_delay_millis
        };
        k = k + 1;
    }
    if policy.jitter {
        let j = random_upto(MAX_JITTER_THOUSANDTHS);
        proof {
            assert(cur * j <= MAX_DELAY_MILLIS * MAX_JITTER_THOUSANDTHS) by (nonlinear_arith)
                requires
                    cur <= MAX_DELAY_MILLIS,
                    j <= MAX_JITTER_THOUSANDTHS,
                    0 <= cur,
                    0 <= j,
            ;
        }
        let bonus = cur * j / 1000;
        proof {
            lemma_jitter_bonus_bound(cur as int, j as int);
            lemma_div_is_ordered(cur as int, policy.max_delay_millis as int, 4);
        }
        cur + bonus
    } else {
        cur
    }
}

/// What one attempt yielded, as observed by whoever performed the send: the
/// request never completed, or a response arrived (with a success status and
/// a body that did or did not decode, or with a failure status and its body
/// text).
#[derive(Debug, Clone, PartialEq)]
pub enum AttemptOutcome {
    /// The request never completed: connection, DNS, TLS or I/O failure.
    TransportFailure,
    /// A response arrived with a success (2xx) status; `decode_ok` records
    /// whether its body decoded into the expected value.
    Delivered {
        /// Whether the response body decoded into the expected value.
        decode_ok: bool,
    },
    /// A response arrived with a non-success status.
    HttpFailure {
        /// The HTTP status code (not in 200..300).
        status: u16,
        /// The raw response body text.
        body: String,
    },
}

/// Mathematical model of an [`AttemptOutcome`].
pub ghost enum AttemptOutcomeModel {
    /// Model of [`AttemptOutcome::TransportFailure`].
    TransportFailure,
    /// Model of [`AttemptOutcome::Delivered`].
    Delivered { decode_ok: bool },
    /// Model of [`AttemptOutcome::HttpFailure`].
    HttpFailure { status: u16, body: Seq<char> },
}

impl View for AttemptOutcome {
    type V = AttemptOutcomeModel;

    open spec fn view(&self) -> AttemptOutcomeModel {
        match self {
            AttemptOutcome::TransportFailure => AttemptOutcomeModel::TransportFailure,
            AttemptOutcome::Delivered { decode_ok } => AttemptOutcomeModel::Delivered {
                decode_ok: *decode_ok,
            },
            AttemptOutcome::HttpFailure { status, body } => AttemptOutcomeModel::HttpFailure {
                status: *status,
                body: body@,
            },
        }
    }
}

/// An outcome the executor can be handed: a failure status really is a
/// failure status.
pub open spec fn outcome_valid(o: AttemptOutcomeModel) -> bool {
    o matches AttemptOutcomeModel::HttpFailure { status, .. } ==> !(200 <= status < 300)
}

/// What the executor does after seeing one attempt's outcome: report success,
/// give up with an error, or wait and try again.
#[derive(Debug, Clone, PartialEq)]
pub enum RetryStep {
    /// The attempt succeeded; the caller keeps its decoded value.
    Succeed,
    /// The call is over; this error is surfaced to the caller.
    Fail(Error),
    /// Wait this long, then make the next attempt.
    RetryAfter {
        /// How long to wait before the next attempt, in milliseconds.
        delay_millis: u64,
    },
}

/// Mathematical model of a [`RetryStep`]. A delay records whether it came
/// from the backoff scheduler (`jittered`, so the executed delay may carry a
/// random bonus of up to a quarter) or verbatim from the classified error.
pub ghost enum RetryStepModel {
    /// Model of [`RetryStep::Succeed`].
    Succeed,
    /// Model of [`RetryStep::Fail`].
    Fail { error: ErrorModel },
    /// Model of [`RetryStep::RetryAfter`]: the delay before jitter.
    RetryAfter { millis: int, jittered: bool },
}

/// The decision owed after attempt `attempt` (1-based) yields `outcome`,
/// under `policy`:
///
/// - a delivered response that decodes is success; one that does not decode
///   fails at once with a decode error (resending would reproduce it);
/// - a transport failure is retried with the scheduler's delay while attempts
///   remain, else surfaces as the transport error;
/// - a failure status is classified; a non-retryable classification surfaces
///   at once, a retryable one is retried with the error's own suggested delay
///   (or the scheduler's, if it suggests none) while attempts remain, else
///   surfaces.
pub open spec fn retry_step(
    policy: RetryConfig,
    attempt: nat,
    outcome: AttemptOutcomeModel,
) -> RetryStepModel {
    match outcome {
        AttemptOutcomeModel::Delivered { decode_ok } => {
            if decode_ok {
                RetryStepModel::Succeed
            } else {
                RetryStepModel::Fail { error: ErrorModel::Decode }
            }
        },
        AttemptOutcomeModel::TransportFailure => {
            if attempt < policy.max_attempts {
                RetryStepModel::RetryAfter {
                    millis: scaled_delay_millis(policy, attempt),
                    jittered: true,
                }
            } else {
                RetryStepModel::Fail { error: ErrorModel::Transport }
            }
        },
        AttemptOutcomeModel::HttpFailure { status, body } => {
            let error = classified_error(status, body);
            if !is_retryable_model(error) {
                RetryStepModel::Fail { error }
            } else if attempt < policy.max_attempts {
                match retry_delay_model(error) {
                    Some(d) => RetryStepModel::RetryAfter { millis: d as int, jittered: false },
                    None => RetryStepModel::RetryAfter {
                        millis: scaled_delay_millis(policy, attempt),
                        jittered: true,
                    },
                }
            } else {
                RetryStepModel::Fail { error }
            }
        },
    }
}

/// An executed step realises a modelled step: same verdict, same error, and a
/// delay that equals the modelled one, except that a scheduler delay may
/// carry up to a quarter of jitter when the policy asks for it.
pub open spec fn step_refines(policy: RetryConfig, step: RetryStep, model: RetryStepModel) -> bool {
    match model {
        RetryStepModel::Succeed => step is Succeed,
        RetryStepModel::Fail { error } => step matches RetryStep::Fail(e) && e@ == error,
        RetryStepModel::RetryAfter { millis, jittered } => {
            &&& step matches RetryStep::RetryAfter { delay_millis }
            &&& if jittered {
                &&& millis <= delay_millis <= millis + millis / 4
                &&& !policy.jitter ==> delay_millis == millis
            } else {
                delay_millis == millis
            }
        },
    }
}

/// The request executor's state across one call: the policy and how many
/// attempts have been made. The caller performs each send and hands the
/// outcome to [`RetryRunner::on_outcome`], which decides what happens next.
/// The fields are read-only to callers.
#[derive(Debug, Clone, Copy)]
pub struct RetryRunner {
    /// The retry policy this call runs under.
    pub policy: RetryConfig,
    /// How many attempts have been made so far.
    pub attempts_made: u32,
}

impl RetryRunner {
    /// A runner in a consistent state: a well-formed policy and no more
    /// attempts made than the policy allows.
    pub open spec fn wf(self) -> bool {
        &&& self.policy.wf()
        &&& self.attempts_made <= self.policy.max_attempts
    }

    /// Whether the attempt budget is used up.
    pub open spec fn exhausted(self) -> bool {
        self.attempts_made == self.policy.max_attempts
    }

    /// Start a fresh call: no attempts made yet.
    pub fn new(policy: RetryConfig) -> (r: Self)
        requires
            policy.wf(),
        ensures
            r.wf(),
            r.policy == policy,
            r.attempts_made == 0,
            !r.exhausted(),
    {
        RetryRunner { policy, attempts_made: 0 }
    }

    /// Record the outcome of the attempt just made and decide what happens
    /// next, as [`retry_step`] prescribes.
    pub fn on_outcome(&mut self, outcome: &AttemptOutcome) -> (step: RetryStep)
        requires
            old(self).wf(),
            !old(self).exhausted(),
            outcome_valid(outcome@),
        ensures
            final(self).wf(),
            final(self).policy == old(self).policy,
            final(self).attempts_made == old(self).attempts_made + 1,
            step_refines(
                final(self).policy,
                step,
                retry_step(final(self).policy, final(self).attempts_made as nat, outcome@),
            ),
            step is RetryAfter ==> !final(self).exhausted(),
    {
        self.attempts_made = self.attempts_made + 1;
        match outcome {
            AttemptOutcome::Delivered { decode_ok } => {
                if *decode_ok {
                    RetryStep::Succeed
                } else {
                    RetryStep::Fail(Error::Decode)
                }
            },
            AttemptOutcome::TransportFailure => {
                if self.attempts_made < self.policy.max_attempts {
                    let delay_millis = calculate_retry_delay(&self.policy, self.attempts_made);
                    RetryStep::RetryAfter { delay_millis }
                } else {
                    RetryStep::Fail(Error::Transport)
                }
            },
            AttemptOutcome::HttpFailure { status, body } => {
                let error = handle_api_error(*status, body.clone());
                if !error.is_retryable() {
                    RetryStep::Fail(error)
                } else if self.attempts_made < self.policy.max_attempts {
                    let delay_millis = match error.retry_delay() {
                        Some(d) => d,
                        None => calculate_retry_delay(&self.policy, self.attempts_made),
                    };
                    RetryStep::RetryAfter { delay_millis }
                } else {
                    RetryStep::Fail(error)
                }
            },
        }
    }
}

/// One waiting period of a modelled run: the delay before jitter, and
/// whether the executed delay may carry jitter on top.
pub ghost struct DelayModel {
    /// The delay before jitter, in milliseconds.
    pub millis: int,
    /// Whether the delay came from the backoff scheduler and so may carry a
    /// random bonus of up to a quarter when executed.
    pub jittered: bool,
}

/// The modelled course of a whole call: how many attempts were made, the
/// error surfaced (absent on success), and the waits between attempts.
pub ghost struct RunSummary {
    /// How many attempts the call made.
    pub attempts: int,
    /// The error the call surfaced; absent when it succeeded.
    pub failure: Option<ErrorModel>,
    /// The wait between each attempt and the next.
    pub delays: Seq<DelayModel>,
}

/// The course owed for a call whose attempts yield `outcomes` in order,
/// starting after `made` attempts have already been made: apply
/// [`retry_step`] to each outcome in turn until it succeeds or fails.
///
/// A run that somehow exhausts its attempts without a verdict — which cannot
/// happen, since every final attempt's step is a verdict — is summarised as a
/// defensive configuration error.
pub open spec fn run_model(
    policy: RetryConfig,
    outcomes: Seq<AttemptOutcomeModel>,
    made: nat,
) -> RunSummary
    decreases policy.max_attempts - made,
{
    if made >= policy.max_attempts || made >= outcomes.len() {
        RunSummary {
            attempts: made as int,
            failure: Some(ErrorModel::Config { message: "Max retry attempts exceeded"@ }),
            delays: Seq::empty(),
        }
    } else {
        let attempt = (made + 1) as nat;
        match retry_step(policy, attempt, outcomes[made as int]) {
            RetryStepModel::Succeed => RunSummary {
                attempts: attempt as int,
                failure: None,
                delays: Seq::empty(),
            },
            RetryStepModel::Fail { error } => RunSummary {
                attempts: attempt as int,
                failure: Some(error),
                delays: Seq::empty(),
            },
            RetryStepModel::RetryAfter { millis, jittered } => {
                let rest = run_model(policy, outcomes, attempt);
                RunSummary {
                    attempts: rest.attempts,
                    failure: rest.failure,
                    delays: seq![DelayModel { millis, jittered }] + rest.delays,
                }
            },
        }
    }
}

/// The models of a sequence of attempt outcomes.
pub open spec fn outcome_models(outcomes: Seq<AttemptOutcome>) -> Seq<AttemptOutcomeModel> {
    outcomes.map_values(|o: AttemptOutcome| o@)
}

/// What a whole call reported: the attempt count, the surfaced error (absent
/// on success), and the delays actually waited between attempts.
#[derive(Debug, Clone, PartialEq)]
pub struct RetryReport {
    /// How many attempts the call made.
    pub attempts: u32,
    /// The error the call surfaced; absent when it succeeded.
    pub failure: Option<Error>,
    /// The waits between attempts, in milliseconds, in order.
    pub delays_millis: Vec<u64>,
}

/// An executed delay realises a modelled one.
pub open spec fn delay_refines(policy: RetryConfig, delay: u64, model: DelayModel) -> bool {
    if model.jittered {
        &&& model.millis <= delay <= model.millis + model.millis / 4
        &&& !policy.jitter ==> delay == model.millis
    } else {
        delay == model.millis
    }
}

/// Run a whole call against a pre-recorded sequence of attempt outcomes
/// (outcome `i` is what attempt `i + 1` yields), as the request executor
/// would: exactly as [`run_model`] prescribes, except that each scheduler
/// delay may carry jitter.
pub fn execute_with_retry(policy: &RetryConfig, outcomes: &Vec<AttemptOutcome>) -> (report:
    RetryReport)
    requires
        policy.wf(),
        outcomes@.len() >= policy.max_attempts,
        forall|i: int| 0 <= i < outcomes@.len() ==> outcome_valid(#[trigger] outcomes@[i]@),
    ensures
        ({
            let summary = run_model(*policy, outcome_models(outcomes@), 0);
            &&& report.attempts == summary.attempts
            &&& report.failure is None <==> summary.failure is None
            &&& (report.failure matches Some(e) ==> summary.failure == Some(e@))
            &&& report.delays_millis@.len() == summary.delays.len()
            &&& forall|i: int|
                0 <= i < summary.delays.len() ==> delay_refines(
                    *policy,
                    #[trigger] report.delays_millis@[i],
                    summary.delays[i],
                )
        }),
{
    let ghost models = outcome_models(outcomes@);
    let ghost summary = run_model(*policy, models, 0);
    let mut runner = RetryRunner::new(*policy);
    let mut delays_millis: Vec<u64> = Vec::new();
    let mut i: usize = 0;
    loop
        invariant
            runner.wf(),
            runner.policy == *policy,
            runner.attempts_made == i,
            i < policy.max_attempts,
            outcomes@.len() >= policy.max_attempts,
            forall|j: int| 0 <= j < outcomes@.len() ==> outcome_valid(#[trigger] outcomes@[j]@),
            models == outcome_models(outcomes@),
            summary == run_model(*policy, models, 0),
            summary.attempts == run_model(*policy, models, i as nat).attempts,
            summary.failure == run_model(*policy, models, i as nat).failure,
            summary.delays == summary.delays.take(delays_millis@.len() as int) + run_model(
                *policy,
                models,
                i as nat,
            ).delays,
            delays_millis@.len() <= summary.delays.len(),
            forall|j: int|
                0 <= j < delays_millis@.len() ==> delay_refines(
                    *policy,
                    #[trigger] delays_millis@[j],
                    summary.delays[j],
                ),
        decreases policy.max_attempts - i,
    {
        let ghost rest = run_model(*policy, models, i as nat);
        let step = runner.on_outcome(&outcomes[i]);
        proof {
            assert(models[i as int] == outcomes@[i as int]@);
        }
        i = i + 1;
        match step {
            RetryStep::Succeed => {
                proof {
                    assert(summary.delays =~= summary.delays.take(delays_millis@.len() as int));
                }
                return RetryReport { attempts: i as u32, failure: None, delays_millis };
            },
            RetryStep::Fail(error) => {
                proof {
                    assert(summary.delays =~= summary.delays.take(delays_millis@.len() as int));
                }
                return RetryReport { attempts: i as u32, failure: Some(error), delays_millis };
            },
            RetryStep::RetryAfter { delay_millis } => {
                proof {
                    assert(summary.delays == summary.delays.take(delays_millis@.len() as int)
                        + rest.delays);
                    assert(rest.delays[0] == summary.delays[delays_millis@.len() as int]);
                }
                delays_millis.push(delay_millis);
                proof {
                    assert(summary.delays =~= summary.delays.take(delays_millis@.len() as int)
                        + run_model(*policy, models, i as nat).delays);
                }
            },
        }
    }
}

/// A call whose every attempt fails with a retryable transport error makes
/// exactly `max_attempts` attempts and surfaces that transport error, with a
/// scheduler delay between each attempt and the next.
pub proof fn lemma_transport_failures_exhaust_attempts(
    policy: RetryConfig,
    outcomes: Seq<AttemptOutcomeModel>,
)
    requires
        policy.wf(),
        outcomes.len() >= policy.max_attempts,
        forall|i: int|
            0 <= i < outcomes.len() ==> outcomes[i] == AttemptOutcomeModel::TransportFailure,
    ensures
        run_model(policy, outcomes, 0).attempts == policy.max_attempts,
        run_model(policy, outcomes, 0).failure == Some(ErrorModel::Transport),
        run_model(policy, outcomes, 0).delays.len() == policy.max_attempts - 1,
{
    lemma_transport_failures_from(policy, outcomes, 0);
}

/// Helper for [`lemma_transport_failures_exhaust_attempts`]: the same claim
/// from any intermediate attempt count on.
proof fn lemma_transport_failures_from(
    policy: RetryConfig,
    outcomes: Seq<AttemptOutcomeModel>,
    made: nat,
)
    requires
        policy.wf(),
        outcomes.len() >= policy.max_attempts,
        made < policy.max_attempts,
        forall|i: int|
            0 <= i < outcomes.len() ==> outcomes[i] == AttemptOutcomeModel::TransportFailure,
    ensures
        run_model(policy, outcomes, made).attempts == policy.max_attempts,
        run_model(policy, outcomes, made).failure == Some(ErrorModel::Transport),
        run_model(policy, outcomes, made).delays.len() == policy.max_attempts - made - 1,
    decreases policy.max_attempts - made,
{
    if made + 1 < policy.max_attempts {
        lemma_transport_failures_from(policy, outcomes, made + 1);
    }
}

/// A call whose first attempt draws a non-retryable client error (a failure
/// status that is neither a rate limit nor server-side) makes exactly one
/// attempt, whatever the attempt budget, and surfaces that client error.
pub proof fn lemma_client_error_stops_first_attempt(
    policy: RetryConfig,
    outcomes: Seq<AttemptOutcomeModel>,
    status: u16,
    body: Seq<char>,
)
    requires
        policy.wf(),
        outcomes.len() >= 1,
        outcomes[0] == (AttemptOutcomeModel::HttpFailure { status, body }),
        !(200 <= status < 300),
        status != 429,
        !(500 <= status <= 599),
    ensures
        run_model(policy, outcomes, 0).attempts == 1,
        run_model(policy, outcomes, 0).failure == Some(classified_error(status, body)),
        classified_error(status, body) is ClientError,
        run_model(policy, outcomes, 0).delays.len() == 0,
{
}

/// A jitter bonus of at most 250 thousandths is at most a quarter.
proof fn lemma_jitter_bonus_bound(cur: int, j: int)
    requires
        0 <= cur,
        0 <= j <= 250,
    ensures
        cur * j / 1000 <= cur / 4,
{
    assert(cur * j <= cur * 250) by {
        lemma_mul_inequality(j, 250, cur);
        assert(j * cur == cur * j) by (nonlinear_arith);
        assert(250 * cur == cur * 250) by (nonlinear_arith);
    }
    lemma_div_is_ordered(cur * j, cur * 250, 1000);
    assert(cur * 250 / 1000 == cur / 4) by {
        lemma_mul_nonnegative(cur, 250);
        lemma_div_denominator(cur * 250, 250, 4);
        lemma_div_multiples_vanish(cur, 250);
        assert(250 * cur == cur * 250) by (nonlinear_arith);
        assert(250int * 4 == 1000);
    }
}

} // verus!

