//! Vocabulary shared by the workflows: how an activity fails and how its
//! failures are retried.

use crate::text::str_eq;
use vstd::prelude::*;

verus! {

/// The start-to-close time allowed to every activity call, in seconds.
pub const ACTIVITY_TIMEOUT_SECS: u64 = 60;

/// How an activity reports that it failed.
#[derive(Debug)]
pub enum ActivityError {
    /// A failure that the runtime may retry under its retry policy.
    Retryable { message: String },
    /// A failure that no retry can mend; it reaches the workflow at once.
    NonRetryable { message: String },
    /// The activity was cancelled.
    Cancelled,
}

/// The mathematical value of an [`ActivityError`].
pub enum ActivityErrorView {
    Retryable { message: Seq<char> },
    NonRetryable { message: Seq<char> },
    Cancelled,
}

impl View for ActivityError {
    type V = ActivityErrorView;

    open spec fn view(&self) -> ActivityErrorView {
        match self {
            ActivityError::Retryable { message } => ActivityErrorView::Retryable {
                message: message@,
            },
            ActivityError::NonRetryable { message } => ActivityErrorView::NonRetryable {
                message: message@,
            },
            ActivityError::Cancelled => ActivityErrorView::Cancelled,
        }
    }
}

impl ActivityError {
    /// Whether the runtime may try the activity again after this failure.
    pub fn is_retryable(&self) -> (r: bool)
        ensures
            r == (self@ is Retryable),
    {
        match self {
            ActivityError::Retryable { .. } => true,
            _ => false,
        }
    }
}

/// The activities that the workflows call, each under one registered name.
#[derive(Debug, Clone, Copy, PartialEq, Eq, Structural)]
pub enum ActivityKind {
    TakePayment,
    RefundPayment,
    SendTextMessage,
    FindPaymentsForDay,
    SendPayment,
    GetIp,
    GetLocationInfo,
}

/// The name under which an activity is registered.
pub open spec fn activity_name(kind: ActivityKind) -> Seq<char> {
    match kind {
        ActivityKind::TakePayment => "take_payment"@,
        ActivityKind::RefundPayment => "refund_payment"@,
        ActivityKind::SendTextMessage => "send_text_message"@,
        ActivityKind::FindPaymentsForDay => "find_payments_for_day"@,
        ActivityKind::SendPayment => "send_payment"@,
        ActivityKind::GetIp => "get_ip"@,
        ActivityKind::GetLocationInfo => "get_location_info"@,
    }
}

/// The activity registered under a name, if any.
pub open spec fn activity_named(name: Seq<char>) -> Option<ActivityKind> {
    if name == "take_payment"@ {
        Some(ActivityKind::TakePayment)
    } else if name == "refund_payment"@ {
        Some(ActivityKind::RefundPayment)
    } else if name == "send_text_message"@ {
        Some(ActivityKind::SendTextMessage)
    } else if name == "find_payments_for_day"@ {
        Some(ActivityKind::FindPaymentsForDay)
    } else if name == "send_payment"@ {
        Some(ActivityKind::SendPayment)
    } else if name == "get_ip"@ {
        Some(ActivityKind::GetIp)
    } else if name == "get_location_info"@ {
        Some(ActivityKind::GetLocationInfo)
    } else {
        None
    }
}

/// No two activities share a name: looking an activity up by its own name
/// finds it.
pub proof fn lemma_activity_names_distinct(kind: ActivityKind)
    ensures
        activity_named(activity_name(kind)) == Some(kind),
{
    reveal_strlit("take_payment");
    reveal_strlit("refund_payment");
    reveal_strlit("send_text_message");
    reveal_strlit("find_payments_for_day");
    reveal_strlit("send_payment");
    reveal_strlit("get_ip");
    reveal_strlit("get_location_info");
    assert("take_payment"@[0] == 't');
    assert("refund_payment"@[0] == 'r');
    assert("send_text_message"@[5] == 't');
    assert("send_payment"@[5] == 'p');
    assert("find_payments_for_day"@[0] == 'f');
    assert("get_ip"@[4] == 'i');
    assert("get_location_info"@[4] == 'l');
}

impl ActivityKind {
    /// The name under which the activity is registered.
    pub fn name(self) -> (r: &'static str)
        ensures
            r@ == activity_name(self),
    {
        match self {
            ActivityKind::TakePayment => "take_payment",
            ActivityKind::RefundPayment => "refund_payment",
            ActivityKind::SendTextMessage => "send_text_message",
            ActivityKind::FindPaymentsForDay => "find_payments_for_day",
            ActivityKind::SendPayment => "send_payment",
            ActivityKind::GetIp => "get_ip",
            ActivityKind::GetLocationInfo => "get_location_info",
        }
    }

    /// The activity registered under `name`, if any.
    pub fn from_name(name: &str) -> (r: Option<ActivityKind>)
        ensures
            r == activity_named(name@),
    {
        if str_eq(name, "take_payment") {
            Some(ActivityKind::TakePayment)
        } else if str_eq(name, "refund_payment") {
            Some(ActivityKind::RefundPayment)
        } else if str_eq(name, "send_text_message") {
            Some(ActivityKind::SendTextMessage)
        } else if str_eq(name, "find_payments_for_day") {
            Some(ActivityKind::FindPaymentsForDay)
        } else if str_eq(name, "send_payment") {
            Some(ActivityKind::SendPayment)
        } else if str_eq(name, "get_ip") {
            Some(ActivityKind::GetIp)
        } else if str_eq(name, "get_location_info") {
            Some(ActivityKind::GetLocationInfo)
        } else {
            None
        }
    }
}

/// The workflows, each under one registered name.
#[derive(Debug, Clone, Copy, PartialEq, Eq, Structural)]
pub enum WorkflowKind {
    Order,
    FindDuePayments,
    MakePayment,
    GetAddressFromIp,
}

/// The name under which a workflow is registered.
pub open spec fn workflow_name(kind: WorkflowKind) -> Seq<char> {
    match kind {
        WorkflowKind::Order => "order_workflow"@,
        WorkflowKind::FindDuePayments => "find_due_payments_workflow"@,
        WorkflowKind::MakePayment => "make_payment"@,
        WorkflowKind::GetAddressFromIp => "get_address_from_ip"@,
    }
}

/// The workflow registered under a name, if any.
pub open spec fn workflow_named(name: Seq<char>) -> Option<WorkflowKind> {
    if name == "order_workflow"@ {
        Some(WorkflowKind::Order)
    } else if name == "find_due_payments_workflow"@ {
        Some(WorkflowKind::FindDuePayments)
    } else if name == "make_payment"@ {
        Some(WorkflowKind::MakePayment)
    } else if name == "get_address_from_ip"@ {
        Some(WorkflowKind::GetAddressFromIp)
    } else {
        None
    }
}

/// No two workflows share a name: looking a workflow up by its own name
/// finds it.
pub proof fn lemma_workflow_names_distinct(kind: WorkflowKind)
    ensures
        workflow_named(workflow_name(kind)) == Some(kind),
{
    reveal_strlit("order_workflow");
    reveal_strlit("find_due_payments_workflow");
    reveal_strlit("make_payment");
    reveal_strlit("get_address_from_ip");
    assert("order_workflow"@[0] == 'o');
    assert("find_due_payments_workflow"@[0] == 'f');
    assert("make_payment"@[0] == 'm');
    assert("get_address_from_ip"@[0] == 'g');
}

impl WorkflowKind {
    /// The name under which the workflow is registered.
    pub fn name(self) -> (r: &'static str)
        ensures
            r@ == workflow_name(self),
    {
        match self {
            WorkflowKind::Order => "order_workflow",
            WorkflowKind::FindDuePayments => "find_due_payments_workflow",
            WorkflowKind::MakePayment => "make_payment",
            WorkflowKind::GetAddressFromIp => "get_address_from_ip",
        }
    }

    /// The workflow registered under `name`, if any.
    pub fn from_name(name: &str) -> (r: Option<WorkflowKind>)
        ensures
            r == workflow_named(name@),
    {
        if str_eq(name, "order_workflow") {
            Some(WorkflowKind::Order)
        } else if str_eq(name, "find_due_payments_workflow") {
            Some(WorkflowKind::FindDuePayments)
        } else if str_eq(name, "make_payment") {
            Some(WorkflowKind::MakePayment)
        } else if str_eq(name, "get_address_from_ip") {
            Some(WorkflowKind::GetAddressFromIp)
        } else {
            None
        }
    }
}

/// How the failures of an activity are retried: after the first failure the
/// runtime waits `initial_interval_ms`, and twice as long after each further
/// one, but never longer than `maximum_interval_ms`. It gives up when the
/// attempts or the time are spent.
#[derive(Debug, Clone, Copy, PartialEq, Eq, Structural)]
pub struct RetryPolicy {
    pub initial_interval_ms: u64,
    pub maximum_interval_ms: u64,
    /// The most attempts made, the first included; 0 sets no limit.
    pub maximum_attempts: u32,
    /// The longest time that all attempts and waits may take; 0 sets no
    /// limit.
    pub maximum_elapsed_ms: u64,
}

/// What the runtime does after an attempt has failed.
#[derive(Debug, Clone, Copy, PartialEq, Eq, Structural)]
pub enum RetryDecision {
    /// Try again after the wait.
    RetryAfter { delay_ms: u64 },
    /// Hand the failure to the workflow.
    GiveUp,
}

/// Two to the power of `n`.
pub open spec fn pow2(n: nat) -> nat
    decreases n,
{
    if n == 0 {
        1
    } else {
        2 * pow2((n - 1) as nat)
    }
}

/// The wait before retry number `retry` (from 0): the initial interval
/// doubled `retry` times, capped by the maximum interval.
pub open spec fn backoff_ms(policy: RetryPolicy, retry: nat) -> nat {
    if policy.initial_interval_ms * pow2(retry) > policy.maximum_interval_ms {
        policy.maximum_interval_ms as nat
    } else {
        (policy.initial_interval_ms * pow2(retry)) as nat
    }
}

/// What the runtime does after attempt number `attempts_made` (from 1) has
/// failed with `error`, `elapsed_ms` after the first attempt began.
///
/// A failure that is not retryable is handed on at once. A retryable one is
/// retried after the backoff wait, unless the attempts are spent or the wait
/// would end after the time allowed.
pub open spec fn retry_decision(
    policy: RetryPolicy,
    error: ActivityErrorView,
    attempts_made: u32,
    elapsed_ms: u64,
) -> RetryDecision {
    let delay = backoff_ms(policy, (attempts_made - 1) as nat);
    if !(error is Retryable) || attempts_made == 0 {
        RetryDecision::GiveUp
    } else if policy.maximum_attempts > 0 && attempts_made >= policy.maximum_attempts {
        RetryDecision::GiveUp
    } else if policy.maximum_elapsed_ms > 0 && elapsed_ms + delay > policy.maximum_elapsed_ms {
        RetryDecision::GiveUp
    } else {
        RetryDecision::RetryAfter { delay_ms: delay as u64 }
    }
}

/// Doubling grows.
pub proof fn lemma_pow2_grows(a: nat, b: nat)
    requires
        a <= b,
    ensures
        1 <= pow2(a) <= pow2(b),
    decreases b,
{
    if b > 0 {
        if a < b {
            lemma_pow2_grows(a, (b - 1) as nat);
        } else {
            lemma_pow2_grows((a - 1) as nat, (b - 1) as nat);
        }
    }
}

/// The waits never shrink from one retry to the next and never exceed the
/// maximum interval.
pub proof fn lemma_backoff_monotone(policy: RetryPolicy, a: nat, b: nat)
    requires
        a <= b,
    ensures
        backoff_ms(policy, a) <= backoff_ms(policy, b) <= policy.maximum_interval_ms,
{
    lemma_pow2_grows(a, b);
    assert(policy.initial_interval_ms * pow2(a) <= policy.initial_interval_ms * pow2(b))
        by (nonlinear_arith)
        requires
            pow2(a) <= pow2(b),
    ;
}

impl RetryPolicy {
    /// The wait before retry number `retry` (from 0).
    pub fn backoff_interval_ms(&self, retry: u32) -> (r: u64)
        ensures
            r == backoff_ms(*self, retry as nat),
    {
        let mut delay: u64 = self.initial_interval_ms;
        let mut done: u32 = 0;
        if delay > self.maximum_interval_ms {
            proof {
                lemma_pow2_grows(0, retry as nat);
                assert(self.initial_interval_ms * pow2(retry as nat) >= self.initial_interval_ms)
                    by (nonlinear_arith)
                    requires
                        pow2(retry as nat) >= 1,
                ;
            }
            return self.maximum_interval_ms;
        }
        assert(self.initial_interval_ms * pow2(0) == self.initial_interval_ms) by (nonlinear_arith)
            requires
                pow2(0) == 1,
        ;
        while done < retry
            invariant
                done <= retry,
                delay == self.initial_interval_ms * pow2(done as nat),
                delay <= self.maximum_interval_ms,
            decreases retry - done,
        {
            if delay > self.maximum_interval_ms / 2 {
                proof {
                    lemma_pow2_grows((done + 1) as nat, retry as nat);
                    assert(self.initial_interval_ms * pow2(retry as nat)
                        >= self.initial_interval_ms * pow2((done + 1) as nat)) by (nonlinear_arith)
                        requires
                            pow2(retry as nat) >= pow2((done + 1) as nat),
                    ;
                    assert(self.initial_interval_ms * pow2((done + 1) as nat) == 2 * (
                    self.initial_interval_ms * pow2(done as nat))) by (nonlinear_arith)
                        requires
                            pow2((done + 1) as nat) == 2 * pow2(done as nat),
                    ;
                }
                return self.maximum_interval_ms;
            }
            proof {
                assert(self.initial_interval_ms * pow2((done + 1) as nat) == 2 * (
                self.initial_interval_ms * pow2(done as nat))) by (nonlinear_arith)
                    requires
                        pow2((done + 1) as nat) == 2 * pow2(done as nat),
                ;
            }
            delay = delay * 2;
            done += 1;
        }
        delay
    }

    /// What the runtime does after attempt number `attempts_made` (from 1)
    /// has failed with `error`, `elapsed_ms` after the first attempt began.
    pub fn decide(&self, error: &ActivityError, attempts_made: u32, elapsed_ms: u64) -> (r:
        RetryDecision)
        ensures
            r == retry_decision(*self, error@, attempts_made, elapsed_ms),
    {
        if !error.is_retryable() || attempts_made == 0 {
            return RetryDecision::GiveUp;
        }
        if self.maximum_attempts > 0 && attempts_made >= self.maximum_attempts {
            return RetryDecision::GiveUp;
        }
        let delay: u64 = self.backoff_interval_ms(attempts_made - 1);
        if self.maximum_elapsed_ms > 0 {
            let over: bool = match elapsed_ms.checked_add(delay) {
                Some(end) => end > self.maximum_elapsed_ms,
                None => true,
            };
            if over {
                return RetryDecision::GiveUp;
            }
        }
        RetryDecision::RetryAfter { delay_ms: delay }
    }
}

/// A failure that is not retryable is never retried, whatever the policy
/// and however few attempts were made.
pub proof fn lemma_non_retryable_short_circuits(
    policy: RetryPolicy,
    error: ActivityErrorView,
    attempts_made: u32,
    elapsed_ms: u64,
)
    requires
        !(error is Retryable),
    ensures
        retry_decision(policy, error, attempts_made, elapsed_ms) == RetryDecision::GiveUp,
{
}

} // verus!
