//! The retry policy of the blocking transport, as a state machine.
//!
//! Sending is not done here. Whoever owns the connection asks the machine
//! what to do, sends the request when told to, and reports what the attempt
//! came to; the machine answers with the next step. A response is delivered
//! whatever its status: error statuses are for the caller to read. Only a
//! failure of the transport itself (no connection, a timeout, no address for
//! the name) leads to another attempt, with the same request and headers.
//!
//! A policy without a limit retries for ever, as long as the transport
//! fails. That can block a caller without end; a policy with a limit gives
//! up after its last attempt instead.

use vstd::prelude::*;

verus! {

/// How often a request is tried and how long to wait between two attempts.
#[derive(Clone, Copy, Debug, PartialEq, Eq, Structural)]
pub struct RetryPolicy {
    /// The number of attempts after which the transfer is given up; `None`
    /// for no limit.
    pub max_attempts: Option<u64>,
    /// The wait before the second attempt, in milliseconds. The wait doubles
    /// with every further attempt.
    pub first_delay_ms: u64,
    /// The longest wait, in milliseconds.
    pub max_delay_ms: u64,
}

/// What an attempt came to.
#[derive(Clone, Copy, Debug, PartialEq, Eq, Structural)]
pub enum Outcome {
    /// The server answered, with this status.
    Answered { status: u16 },
    /// The transport failed: there is no answer.
    Failed,
}

/// What to do next.
#[derive(Clone, Copy, Debug, PartialEq, Eq, Structural)]
pub enum Step {
    /// Wait this long, then send the request.
    Send { delay_ms: u64 },
    /// Hand the answer to the caller.
    Deliver,
    /// Report that the transport failed on every attempt allowed.
    GiveUp,
}

/// The state of one transfer. Attempts are counted up to `u64::MAX`, where
/// the count stays.
#[derive(Clone, Copy, Debug, PartialEq, Eq, Structural)]
pub enum Transfer {
    /// The attempt number `attempts` is under way; should it fail, the next
    /// one follows after `delay_ms`.
    Waiting { policy: RetryPolicy, attempts: u64, delay_ms: u64 },
    /// An answer came, at the attempt number `attempts`.
    Delivered { attempts: u64 },
    /// All `attempts` attempts failed and no more are allowed.
    Abandoned { attempts: u64 },
}

/// The smaller of two numbers.
pub open spec fn least(a: int, b: int) -> int {
    if a <= b {
        a
    } else {
        b
    }
}

impl RetryPolicy {
    /// Whether the policy allows an attempt number `n`.
    pub open spec fn allows(self, n: int) -> bool {
        match self.max_attempts {
            Some(max) => n <= max,
            None => true,
        }
    }

    /// Retry without limit and without waiting.
    pub fn forever() -> (r: RetryPolicy)
        ensures
            r == (RetryPolicy { max_attempts: None, first_delay_ms: 0, max_delay_ms: 0 }),
    {
        RetryPolicy { max_attempts: None, first_delay_ms: 0, max_delay_ms: 0 }
    }

    /// At most `max_attempts` attempts, waiting `first_delay_ms` before the
    /// second one and twice as long before each further one, but never
    /// longer than `max_delay_ms`.
    pub fn bounded(max_attempts: u64, first_delay_ms: u64, max_delay_ms: u64) -> (r: RetryPolicy)
        ensures
            r == (RetryPolicy { max_attempts: Some(max_attempts), first_delay_ms, max_delay_ms }),
    {
        RetryPolicy { max_attempts: Some(max_attempts), first_delay_ms, max_delay_ms }
    }
}

impl Default for RetryPolicy {
    /// Up to five attempts, waiting 200 ms before the second one and at most
    /// five seconds before any.
    fn default() -> (r: RetryPolicy)
        ensures
            r == (RetryPolicy {
                max_attempts: Some(5),
                first_delay_ms: 200,
                max_delay_ms: 5000,
            }),
    {
        RetryPolicy { max_attempts: Some(5), first_delay_ms: 200, max_delay_ms: 5000 }
    }
}

/// The transfer at its start, and the first step: the first attempt, sent at
/// once, or no attempt at all where the policy allows none.
pub open spec fn started(policy: RetryPolicy) -> (Transfer, Step) {
    if policy.allows(1) {
        (
            Transfer::Waiting {
                policy,
                attempts: 1,
                delay_ms: least(policy.first_delay_ms as int, policy.max_delay_ms as int) as u64,
            },
            Step::Send { delay_ms: 0 },
        )
    } else {
        (Transfer::Abandoned { attempts: 0 }, Step::GiveUp)
    }
}

/// The transfer after `outcome` was reported, and the next step.
///
/// An answer is delivered, whatever its status. After a failure the request
/// is sent again if the policy allows one more attempt, and the transfer is
/// given up if not. A transfer that has ended stays as it is.
pub open spec fn advanced(transfer: Transfer, outcome: Outcome) -> (Transfer, Step) {
    match transfer {
        Transfer::Waiting { policy, attempts, delay_ms } => match outcome {
            Outcome::Answered { status } => (Transfer::Delivered { attempts }, Step::Deliver),
            Outcome::Failed => if policy.allows(attempts + 1) {
                (
                    Transfer::Waiting {
                        policy,
                        attempts: least(attempts + 1, u64::MAX as int) as u64,
                        delay_ms: least(2 * delay_ms, policy.max_delay_ms as int) as u64,
                    },
                    Step::Send { delay_ms },
                )
            } else {
                (Transfer::Abandoned { attempts }, Step::GiveUp)
            },
        },
        Transfer::Delivered { attempts } => (transfer, Step::Deliver),
        Transfer::Abandoned { attempts } => (transfer, Step::GiveUp),
    }
}

/// The transfer after the outcomes were reported one after the other, from
/// the start.
pub open spec fn after(policy: RetryPolicy, outcomes: Seq<Outcome>) -> Transfer
    decreases outcomes.len(),
{
    if outcomes.len() == 0 {
        started(policy).0
    } else {
        advanced(after(policy, outcomes.drop_last()), outcomes.last()).0
    }
}

/// `n` failures of the transport, one after the other.
pub open spec fn failures(n: nat) -> Seq<Outcome> {
    Seq::new(n, |i: int| Outcome::Failed)
}

/// While the transport fails and the policy allows another attempt, the
/// transfer goes on: after `n` failures the attempt number `n + 1` is under
/// way.
pub proof fn lemma_retries_while_failing(policy: RetryPolicy, n: nat)
    requires
        policy.allows(n as int + 1),
    ensures
        after(policy, failures(n)) matches Transfer::Waiting { policy: p, attempts, delay_ms }
            && p == policy && attempts == least(n as int + 1, u64::MAX as int),
    decreases n,
{
    if n > 0 {
        lemma_retries_while_failing(policy, (n - 1) as nat);
        assert(failures(n).drop_last() == failures((n - 1) as nat));
    }
}

/// A transport that fails `n` times and then answers: the answer is
/// delivered, and with it the transfer has made `n + 1` attempts, no more
/// than were needed. The status of the answer makes no difference. Under a
/// policy without limit this holds for every `n`; under a policy with a
/// limit, for the `n` below the limit.
pub proof fn lemma_answer_after_failures(policy: RetryPolicy, n: nat, status: u16)
    requires
        policy.allows(n as int + 1),
    ensures
        after(policy, failures(n).push(Outcome::Answered { status })) == (Transfer::Delivered {
            attempts: least(n as int + 1, u64::MAX as int) as u64,
        }),
        advanced(after(policy, failures(n)), Outcome::Answered { status }).1 == Step::Deliver,
{
    lemma_retries_while_failing(policy, n);
    let outcomes = failures(n).push(Outcome::Answered { status });
    assert(outcomes.drop_last() == failures(n));
}

/// What the transfer says to do, from the start: the first step, then one
/// step for each outcome reported.
pub open spec fn steps(policy: RetryPolicy, outcomes: Seq<Outcome>) -> Seq<Step>
    decreases outcomes.len(),
{
    if outcomes.len() == 0 {
        seq![started(policy).1]
    } else {
        steps(policy, outcomes.drop_last()).push(
            advanced(after(policy, outcomes.drop_last()), outcomes.last()).1,
        )
    }
}

/// The number of requests that are sent when the steps are carried out: the
/// number of steps that say `Send`.
pub open spec fn sends(steps: Seq<Step>) -> nat
    decreases steps.len(),
{
    if steps.len() == 0 {
        0
    } else if steps.last() is Send {
        sends(steps.drop_last()) + 1
    } else {
        sends(steps.drop_last())
    }
}

/// While the transport fails and the policy allows another attempt, every
/// step says `Send`: with `n` failures reported, `n + 1` requests are sent.
pub proof fn lemma_sends_while_failing(policy: RetryPolicy, n: nat)
    requires
        policy.allows(n as int + 1),
    ensures
        steps(policy, failures(n)).len() == n + 1,
        forall|i: int| 0 <= i <= n ==> (#[trigger] steps(policy, failures(n))[i]) is Send,
        sends(steps(policy, failures(n))) == n + 1,
    decreases n,
{
    let told = steps(policy, failures(n));
    if n == 0 {
        assert(told.drop_last() == Seq::<Step>::empty());
        assert(sends(told.drop_last()) == 0);
        assert(told.last() is Send);
    } else {
        let before = failures((n - 1) as nat);
        lemma_sends_while_failing(policy, (n - 1) as nat);
        lemma_retries_while_failing(policy, (n - 1) as nat);
        assert(failures(n).drop_last() == before);
        assert(told.drop_last() == steps(policy, before));
        assert(told.last() is Send);
        assert forall|i: int| 0 <= i <= n implies (#[trigger] told[i]) is Send by {
            if i < n {
                assert(told[i] == steps(policy, before)[i]);
            }
        }
    }
}

/// A transport that fails `n` times and then answers: exactly `n + 1`
/// requests are sent, the last step hands over the answer, and whatever is
/// reported after that, no further request is sent and the transfer stays
/// delivered.
pub proof fn lemma_sends_no_more_than_needed(
    policy: RetryPolicy,
    n: nat,
    status: u16,
    later: Seq<Outcome>,
)
    requires
        policy.allows(n as int + 1),
    ensures
        sends(steps(policy, failures(n).push(Outcome::Answered { status }) + later)) == n + 1,
        steps(policy, failures(n).push(Outcome::Answered { status }) + later).last()
            == Step::Deliver,
        after(policy, failures(n).push(Outcome::Answered { status }) + later) is Delivered,
    decreases later.len(),
{
    let answered = failures(n).push(Outcome::Answered { status });
    if later.len() == 0 {
        assert(answered + later == answered);
        assert(answered.drop_last() == failures(n));
        lemma_sends_while_failing(policy, n);
        lemma_answer_after_failures(policy, n, status);
        assert(steps(policy, answered).drop_last() == steps(policy, failures(n)));
    } else {
        let all = answered + later;
        lemma_sends_no_more_than_needed(policy, n, status, later.drop_last());
        assert(all.drop_last() == answered + later.drop_last());
        assert(steps(policy, all).drop_last() == steps(policy, all.drop_last()));
    }
}

/// Under a policy with a limit, a transport that fails on every attempt
/// allowed is given up after exactly that many attempts.
pub proof fn lemma_gives_up_at_limit(policy: RetryPolicy, max: u64)
    requires
        policy.max_attempts == Some(max),
    ensures
        after(policy, failures(max as nat)) == (Transfer::Abandoned { attempts: max }),
{
    if max > 0 {
        lemma_retries_while_failing(policy, (max - 1) as nat);
        assert(failures(max as nat).drop_last() == failures((max - 1) as nat));
    }
}

impl Transfer {
    /// Starts a transfer under `policy` and says what to do first.
    pub fn start(policy: RetryPolicy) -> (r: (Transfer, Step))
        ensures
            r == started(policy),
    {
        let allowed = match policy.max_attempts {
            Some(max) => 1 <= max,
            None => true,
        };
        if allowed {
            let delay_ms = if policy.first_delay_ms <= policy.max_delay_ms {
                policy.first_delay_ms
            } else {
                policy.max_delay_ms
            };
            (Transfer::Waiting { policy, attempts: 1, delay_ms }, Step::Send { delay_ms: 0 })
        } else {
            (Transfer::Abandoned { attempts: 0 }, Step::GiveUp)
        }
    }

    /// Takes in what the last attempt came to and says what to do next.
    pub fn next(self, outcome: Outcome) -> (r: (Transfer, Step))
        ensures
            r == advanced(self, outcome),
    {
        match self {
            Transfer::Waiting { policy, attempts, delay_ms } => match outcome {
                Outcome::Answered { status } => (Transfer::Delivered { attempts }, Step::Deliver),
                Outcome::Failed => {
                    let allowed = match policy.max_attempts {
                        Some(max) => attempts < max,
                        None => true,
                    };
                    if allowed {
                        let count = if attempts < u64::MAX {
                            attempts + 1
                        } else {
                            attempts
                        };
                        let doubled = if delay_ms > u64::MAX / 2 {
                            u64::MAX
                        } else {
                            delay_ms * 2
                        };
                        let next_delay = if doubled <= policy.max_delay_ms {
                            doubled
                        } else {
                            policy.max_delay_ms
                        };
                        (
                            Transfer::Waiting { policy, attempts: count, delay_ms: next_delay },
                            Step::Send { delay_ms },
                        )
                    } else {
                        (Transfer::Abandoned { attempts }, Step::GiveUp)
                    }
                },
            },
            Transfer::Delivered { attempts } => (self, Step::Deliver),
            Transfer::Abandoned { attempts } => (self, Step::GiveUp),
        }
    }

    /// The number of attempts made so far.
    pub fn attempts(&self) -> (n: u64)
        ensures
            n == match *self {
                Transfer::Waiting { attempts, .. } => attempts,
                Transfer::Delivered { attempts } => attempts,
                Transfer::Abandoned { attempts } => attempts,
            },
    {
        match self {
            Transfer::Waiting { attempts, .. } => *attempts,
            Transfer::Delivered { attempts } => *attempts,
            Transfer::Abandoned { attempts } => *attempts,
        }
    }
}

} // verus!
