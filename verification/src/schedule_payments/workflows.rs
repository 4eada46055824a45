//! The batch of one day's payments and the sub-workflow of one payment, as
//! state machines.
//!
//! The batch opens the day window, looks up the payments due in it, starts
//! one sub-workflow per payment and completes when every one of them has
//! reached its own end. A failed payment is counted, not propagated.

use crate::clock::{day_window, start_of_day, timestamp_supported, DayWindow};
use crate::runtime::{ActivityKind, WorkflowKind, ACTIVITY_TIMEOUT_SECS};
use crate::schedule_payments::data::{PaymentData, PaymentDataView, SendPaymentResult};
use crate::text::{decimal, decimal_string, lemma_decimal_injective};
use vstd::prelude::*;
use vstd::string::StringExecFns;

verus! {

/// The pause before the lookup and before the fan-out, in seconds.
pub const SETTLE_SECS: u64 = 5;

/// The identifier of the sub-workflow of the payment at `index` of a batch.
pub open spec fn child_workflow_id_spec(index: nat) -> Seq<char> {
    "payment_"@ + decimal(index)
}

/// The identifier of the sub-workflow of the payment at `index` of a batch:
/// `payment_` and the index in decimal.
pub fn child_workflow_id(index: usize) -> (r: String)
    ensures
        r@ == child_workflow_id_spec(index as nat),
{
    let mut id = String::from_str("payment_");
    let digits = decimal_string(index);
    id.append(digits.as_str());
    id
}

/// Two payments of one batch never share a sub-workflow identifier.
pub proof fn lemma_child_workflow_ids_distinct(i: nat, j: nat)
    requires
        i != j,
    ensures
        child_workflow_id_spec(i) != child_workflow_id_spec(j),
{
    let prefix = "payment_"@;
    let a = child_workflow_id_spec(i);
    let b = child_workflow_id_spec(j);
    if a == b {
        assert(a.subrange(prefix.len() as int, a.len() as int) =~= decimal(i));
        assert(b.subrange(prefix.len() as int, b.len() as int) =~= decimal(j));
        lemma_decimal_injective(i, j);
    }
}

/// Where one payment of a batch stands.
#[derive(Debug)]
pub enum PaymentOutcome {
    /// Its sub-workflow has not reached an end yet.
    Pending,
    Succeeded(SendPaymentResult),
    /// Its sub-workflow failed, for the reason given.
    Failed(String),
}

/// The mathematical value of a [`PaymentOutcome`].
pub enum PaymentOutcomeView {
    Pending,
    Succeeded(SendPaymentResult),
    Failed(Seq<char>),
}

impl View for PaymentOutcome {
    type V = PaymentOutcomeView;

    open spec fn view(&self) -> PaymentOutcomeView {
        match self {
            PaymentOutcome::Pending => PaymentOutcomeView::Pending,
            PaymentOutcome::Succeeded(result) => PaymentOutcomeView::Succeeded(*result),
            PaymentOutcome::Failed(reason) => PaymentOutcomeView::Failed(reason@),
        }
    }
}

impl DeepView for PaymentOutcome {
    type V = PaymentOutcomeView;

    open spec fn deep_view(&self) -> PaymentOutcomeView {
        self@
    }
}

/// The outcome that the end of a sub-workflow stands for.
pub open spec fn outcome_of(result: Result<SendPaymentResult, Seq<char>>) -> PaymentOutcomeView {
    match result {
        Ok(sent) => PaymentOutcomeView::Succeeded(sent),
        Err(reason) => PaymentOutcomeView::Failed(reason),
    }
}

/// One failed payment of a batch: its position and the reason.
#[derive(Debug)]
pub struct PaymentFailure {
    pub index: usize,
    pub reason: String,
}

/// The mathematical value of a [`PaymentFailure`].
pub struct PaymentFailureView {
    pub index: nat,
    pub reason: Seq<char>,
}

impl View for PaymentFailure {
    type V = PaymentFailureView;

    open spec fn view(&self) -> PaymentFailureView {
        PaymentFailureView { index: self.index as nat, reason: self.reason@ }
    }
}

impl DeepView for PaymentFailure {
    type V = PaymentFailureView;

    open spec fn deep_view(&self) -> PaymentFailureView {
        self@
    }
}

/// What a batch reports when it completes.
#[derive(Debug)]
pub struct BatchSummary {
    pub succeeded: usize,
    pub failed: usize,
    /// The failed payments, by rising position.
    pub failures: Vec<PaymentFailure>,
}

/// The mathematical value of a [`BatchSummary`].
pub struct BatchSummaryView {
    pub succeeded: nat,
    pub failed: nat,
    pub failures: Seq<PaymentFailureView>,
}

impl View for BatchSummary {
    type V = BatchSummaryView;

    open spec fn view(&self) -> BatchSummaryView {
        BatchSummaryView {
            succeeded: self.succeeded as nat,
            failed: self.failed as nat,
            failures: self.failures.deep_view(),
        }
    }
}

/// How many of the outcomes are successes.
pub open spec fn count_succeeded(outcomes: Seq<PaymentOutcomeView>) -> nat
    decreases outcomes.len(),
{
    if outcomes.len() == 0 {
        0
    } else {
        count_succeeded(outcomes.drop_last()) + if outcomes.last() is Succeeded {
            1nat
        } else {
            0nat
        }
    }
}

/// How many of the outcomes are still pending.
pub open spec fn count_pending(outcomes: Seq<PaymentOutcomeView>) -> nat
    decreases outcomes.len(),
{
    if outcomes.len() == 0 {
        0
    } else {
        count_pending(outcomes.drop_last()) + if outcomes.last() is Pending {
            1nat
        } else {
            0nat
        }
    }
}

/// The failures among the outcomes, by rising position.
pub open spec fn failures_of(outcomes: Seq<PaymentOutcomeView>) -> Seq<PaymentFailureView>
    decreases outcomes.len(),
{
    if outcomes.len() == 0 {
        Seq::empty()
    } else {
        let earlier = failures_of(outcomes.drop_last());
        match outcomes.last() {
            PaymentOutcomeView::Failed(reason) => earlier.push(
                PaymentFailureView { index: (outcomes.len() - 1) as nat, reason },
            ),
            _ => earlier,
        }
    }
}

/// The report on a list of outcomes.
pub open spec fn summary_of(outcomes: Seq<PaymentOutcomeView>) -> BatchSummaryView {
    BatchSummaryView {
        succeeded: count_succeeded(outcomes),
        failed: failures_of(outcomes).len(),
        failures: failures_of(outcomes),
    }
}

/// Whether every payment has reached its end.
pub open spec fn all_settled(outcomes: Seq<PaymentOutcomeView>) -> bool {
    forall|i: int| 0 <= i < outcomes.len() ==> !(#[trigger] outcomes[i] is Pending)
}

/// Successes, failures and pending payments add up to the whole batch.
pub proof fn lemma_counts_add_up(outcomes: Seq<PaymentOutcomeView>)
    ensures
        count_succeeded(outcomes) + failures_of(outcomes).len() + count_pending(outcomes)
            == outcomes.len(),
        all_settled(outcomes) <==> count_pending(outcomes) == 0,
    decreases outcomes.len(),
{
    if outcomes.len() > 0 {
        let earlier = outcomes.drop_last();
        lemma_counts_add_up(earlier);
        if all_settled(outcomes) {
            assert forall|i: int| 0 <= i < earlier.len() implies !(#[trigger] earlier[i]
                is Pending) by {
                assert(earlier[i] == outcomes[i]);
            }
            assert(!(outcomes[outcomes.len() - 1] is Pending));
        }
        if count_pending(outcomes) == 0 {
            assert forall|i: int| 0 <= i < outcomes.len() implies !(#[trigger] outcomes[i]
                is Pending) by {
                if i < earlier.len() {
                    assert(earlier[i] == outcomes[i]);
                }
            }
        }
    }
}

/// Computes the report on a list of outcomes.
pub fn summarize(outcomes: &Vec<PaymentOutcome>) -> (r: BatchSummary)
    ensures
        r@ == summary_of(outcomes.deep_view()),
{
    let mut succeeded: usize = 0;
    let mut failures: Vec<PaymentFailure> = Vec::new();
    let mut i: usize = 0;
    let ghost all = outcomes.deep_view();
    proof {
        assert(all.take(0) =~= Seq::<PaymentOutcomeView>::empty());
        assert(failures.deep_view() =~= failures_of(all.take(0)));
    }
    while i < outcomes.len()
        invariant
            i <= outcomes.len(),
            all == outcomes.deep_view(),
            succeeded == count_succeeded(all.take(i as int)),
            failures.deep_view() == failures_of(all.take(i as int)),
        decreases outcomes.len() - i,
    {
        let ghost before = failures.deep_view();
        proof {
            assert(all.take(i as int + 1).drop_last() =~= all.take(i as int));
            assert(all.take(i as int + 1).last() == all[i as int]);
            assert(all[i as int] == outcomes[i as int]@);
            lemma_counts_add_up(all.take(i as int));
        }
        match &outcomes[i] {
            PaymentOutcome::Succeeded(_) => {
                succeeded += 1;
            },
            PaymentOutcome::Failed(reason) => {
                failures.push(PaymentFailure { index: i, reason: reason.clone() });
                proof {
                    assert(failures.deep_view() =~= before.push(
                        PaymentFailureView { index: i as nat, reason: reason@ },
                    ));
                }
            },
            PaymentOutcome::Pending => {},
        }
        i += 1;
    }
    proof {
        assert(all.take(outcomes.len() as int) =~= all);
    }
    let failed: usize = failures.len();
    BatchSummary { succeeded, failed, failures }
}

/// The stages of a batch.
#[derive(Debug, Clone, Copy, PartialEq, Eq, Structural)]
pub enum BatchPhase {
    /// Not started.
    Created,
    /// The day window is open; the first pause is running.
    Settling,
    /// The lookup of the due payments is running.
    LookingUp,
    /// The due payments are known; the second pause is running.
    Preparing,
    /// The sub-workflows are running.
    Running,
    /// Every sub-workflow has reached its end.
    Completed,
    /// The batch could not be run.
    Failed,
}

/// One run of the batch: the day window, the payments due in it and where
/// each of them stands.
#[derive(Debug)]
pub struct BatchRun {
    pub phase: BatchPhase,
    pub window: DayWindow,
    pub payments: Vec<PaymentData>,
    pub outcomes: Vec<PaymentOutcome>,
}

/// The mathematical value of a [`BatchRun`].
pub struct BatchRunView {
    pub phase: BatchPhase,
    pub window: DayWindow,
    pub payments: Seq<PaymentDataView>,
    pub outcomes: Seq<PaymentOutcomeView>,
}

impl View for BatchRun {
    type V = BatchRunView;

    open spec fn view(&self) -> BatchRunView {
        BatchRunView {
            phase: self.phase,
            window: self.window,
            payments: self.payments.deep_view(),
            outcomes: self.outcomes.deep_view(),
        }
    }
}

impl BatchRunView {
    /// While the sub-workflows run and after they have ended, each payment
    /// has its outcome; a completed batch has none pending.
    pub open spec fn wf(self) -> bool {
        &&& (self.phase == BatchPhase::Running ==> self.outcomes.len() == self.payments.len()
            && !all_settled(self.outcomes))
        &&& (self.phase == BatchPhase::Completed ==> self.outcomes.len() == self.payments.len()
            && all_settled(self.outcomes))
    }
}

/// What the runtime delivers to a batch.
#[derive(Debug)]
pub enum BatchEvent {
    /// The batch was started at the instant `now` of the runtime's clock.
    Started { now: i64 },
    /// The pause that the batch asked for is over.
    TimerFired,
    /// The lookup ended: with the due payments, or, once its retries were
    /// spent, with the reason of its failure.
    LookupFinished(Result<Vec<PaymentData>, String>),
    /// The sub-workflow of the payment at `index` reached its end.
    PaymentFinished { index: usize, result: Result<SendPaymentResult, String> },
}

/// The mathematical value of a [`BatchEvent`].
pub enum BatchEventView {
    Started { now: i64 },
    TimerFired,
    LookupFinished(Result<Seq<PaymentDataView>, Seq<char>>),
    PaymentFinished { index: usize, result: Result<SendPaymentResult, Seq<char>> },
}

impl View for BatchEvent {
    type V = BatchEventView;

    open spec fn view(&self) -> BatchEventView {
        match self {
            BatchEvent::Started { now } => BatchEventView::Started { now: *now },
            BatchEvent::TimerFired => BatchEventView::TimerFired,
            BatchEvent::LookupFinished(Ok(payments)) => BatchEventView::LookupFinished(
                Ok(payments.deep_view()),
            ),
            BatchEvent::LookupFinished(Err(reason)) => BatchEventView::LookupFinished(
                Err(reason@),
            ),
            BatchEvent::PaymentFinished { index, result: Ok(sent) } => {
                BatchEventView::PaymentFinished { index: *index, result: Ok(*sent) }
            },
            BatchEvent::PaymentFinished { index, result: Err(reason) } => {
                BatchEventView::PaymentFinished { index: *index, result: Err(reason@) }
            },
        }
    }
}

/// The start of one sub-workflow: its identifier and the payment it makes.
#[derive(Debug)]
pub struct ChildStart {
    pub workflow_id: String,
    pub payment: PaymentData,
}

/// The mathematical value of a [`ChildStart`].
pub struct ChildStartView {
    pub workflow_id: Seq<char>,
    pub payment: PaymentDataView,
}

impl View for ChildStart {
    type V = ChildStartView;

    open spec fn view(&self) -> ChildStartView {
        ChildStartView { workflow_id: self.workflow_id@, payment: self.payment@ }
    }
}

impl DeepView for ChildStart {
    type V = ChildStartView;

    open spec fn deep_view(&self) -> ChildStartView {
        self@
    }
}

/// What a batch asks of the runtime.
#[derive(Debug)]
pub enum BatchAction {
    /// Nothing: the batch waits for the next event.
    Wait,
    /// Wake the batch after a pause.
    StartTimer { seconds: u64 },
    /// Run the lookup of the payments due in the window.
    FindPayments { window: DayWindow, start_to_close_timeout_secs: u64 },
    /// Start every sub-workflow listed, all at once, and report each end.
    StartPayments(Vec<ChildStart>),
    /// End the batch with its report.
    Complete(BatchSummary),
    /// End the batch as failed.
    Fail(String),
}

/// The mathematical value of a [`BatchAction`].
pub enum BatchActionView {
    Wait,
    StartTimer { seconds: u64 },
    FindPayments { window: DayWindow, start_to_close_timeout_secs: u64 },
    StartPayments(Seq<ChildStartView>),
    Complete(BatchSummaryView),
    Fail(Seq<char>),
}

impl View for BatchAction {
    type V = BatchActionView;

    open spec fn view(&self) -> BatchActionView {
        match self {
            BatchAction::Wait => BatchActionView::Wait,
            BatchAction::StartTimer { seconds } => BatchActionView::StartTimer {
                seconds: *seconds,
            },
            BatchAction::FindPayments { window, start_to_close_timeout_secs } => {
                BatchActionView::FindPayments {
                    window: *window,
                    start_to_close_timeout_secs: *start_to_close_timeout_secs,
                }
            },
            BatchAction::StartPayments(children) => BatchActionView::StartPayments(
                children.deep_view(),
            ),
            BatchAction::Complete(summary) => BatchActionView::Complete(summary@),
            BatchAction::Fail(reason) => BatchActionView::Fail(reason@),
        }
    }
}

impl BatchAction {
    /// The activity that the action runs, if it runs one.
    pub fn activity(&self) -> (r: Option<ActivityKind>)
        ensures
            r == (match self@ {
                BatchActionView::FindPayments { .. } => Some(ActivityKind::FindPaymentsForDay),
                _ => None,
            }),
    {
        match self {
            BatchAction::FindPayments { .. } => Some(ActivityKind::FindPaymentsForDay),
            _ => None,
        }
    }

    /// The workflow that the action starts sub-workflows of, if it starts
    /// any.
    pub fn child_workflow(&self) -> (r: Option<WorkflowKind>)
        ensures
            r == (match self@ {
                BatchActionView::StartPayments(_) => Some(WorkflowKind::MakePayment),
                _ => None,
            }),
    {
        match self {
            BatchAction::StartPayments(_) => Some(WorkflowKind::MakePayment),
            _ => None,
        }
    }
}

/// The window of the UTC day that holds `now`.
pub open spec fn window_at(now: int) -> DayWindow {
    DayWindow { start: start_of_day(now) as i64, end: (start_of_day(now) + 86_400) as i64 }
}

/// The sub-workflows of a list of payments: one per payment, in order, the
/// one at position `i` under the identifier of `i`.
pub open spec fn children_of(payments: Seq<PaymentDataView>) -> Seq<ChildStartView> {
    Seq::new(
        payments.len(),
        |i: int| ChildStartView { workflow_id: child_workflow_id_spec(i as nat), payment: payments[i] },
    )
}

/// `n` outcomes, all pending.
pub open spec fn all_pending(n: nat) -> Seq<PaymentOutcomeView> {
    Seq::new(n, |i: int| PaymentOutcomeView::Pending)
}

/// The reason given when the batch is started at an instant outside the
/// supported calendar.
pub open spec fn clock_out_of_range_message() -> Seq<char> {
    "the batch was started outside the supported calendar"@
}

/// The transition function of a batch: the state after `event` and what the
/// batch asks of the runtime.
///
/// An event that the current stage does not expect changes nothing.
pub open spec fn batch_step(s: BatchRunView, event: BatchEventView) -> (
    BatchRunView,
    BatchActionView,
) {
    match (s.phase, event) {
        (BatchPhase::Created, BatchEventView::Started { now }) => {
            if timestamp_supported(now as int) {
                (
                    BatchRunView {
                        phase: BatchPhase::Settling,
                        window: window_at(now as int),
                        ..s
                    },
                    BatchActionView::StartTimer { seconds: SETTLE_SECS },
                )
            } else {
                (
                    BatchRunView { phase: BatchPhase::Failed, ..s },
                    BatchActionView::Fail(clock_out_of_range_message()),
                )
            }
        },
        (BatchPhase::Settling, BatchEventView::TimerFired) => (
            BatchRunView { phase: BatchPhase::LookingUp, ..s },
            BatchActionView::FindPayments {
                window: s.window,
                start_to_close_timeout_secs: ACTIVITY_TIMEOUT_SECS,
            },
        ),
        (BatchPhase::LookingUp, BatchEventView::LookupFinished(Ok(payments))) => (
            BatchRunView { phase: BatchPhase::Preparing, payments, ..s },
            BatchActionView::StartTimer { seconds: SETTLE_SECS },
        ),
        (BatchPhase::LookingUp, BatchEventView::LookupFinished(Err(reason))) => (
            BatchRunView { phase: BatchPhase::Failed, ..s },
            BatchActionView::Fail(reason),
        ),
        (BatchPhase::Preparing, BatchEventView::TimerFired) => {
            let outcomes = all_pending(s.payments.len());
            if s.payments.len() == 0 {
                (
                    BatchRunView { phase: BatchPhase::Completed, outcomes, ..s },
                    BatchActionView::Complete(summary_of(outcomes)),
                )
            } else {
                (
                    BatchRunView { phase: BatchPhase::Running, outcomes, ..s },
                    BatchActionView::StartPayments(children_of(s.payments)),
                )
            }
        },
        (BatchPhase::Running, BatchEventView::PaymentFinished { index, result }) => {
            if index < s.outcomes.len() && s.outcomes[index as int] is Pending {
                let outcomes = s.outcomes.update(index as int, outcome_of(result));
                if all_settled(outcomes) {
                    (
                        BatchRunView { phase: BatchPhase::Completed, outcomes, ..s },
                        BatchActionView::Complete(summary_of(outcomes)),
                    )
                } else {
                    (BatchRunView { outcomes, ..s }, BatchActionView::Wait)
                }
            } else {
                (s, BatchActionView::Wait)
            }
        },
        _ => (s, BatchActionView::Wait),
    }
}

/// Whether every outcome in the list is settled.
fn is_settled(outcomes: &Vec<PaymentOutcome>) -> (r: bool)
    ensures
        r == all_settled(outcomes.deep_view()),
{
    let mut i: usize = 0;
    while i < outcomes.len()
        invariant
            i <= outcomes.len(),
            forall|j: int| 0 <= j < i ==> !(#[trigger] outcomes.deep_view()[j] is Pending),
        decreases outcomes.len() - i,
    {
        assert(outcomes.deep_view()[i as int] == outcomes[i as int]@);
        match &outcomes[i] {
            PaymentOutcome::Pending => {
                return false;
            },
            _ => {},
        }
        i += 1;
    }
    true
}

/// One sub-workflow start per payment, in order.
fn children(payments: &Vec<PaymentData>) -> (r: Vec<ChildStart>)
    ensures
        r.deep_view() == children_of(payments.deep_view()),
{
    let mut starts: Vec<ChildStart> = Vec::new();
    let mut i: usize = 0;
    while i < payments.len()
        invariant
            i <= payments.len(),
            starts.len() == i,
            forall|j: int|
                0 <= j < i ==> (#[trigger] starts[j])@ == (ChildStartView {
                    workflow_id: child_workflow_id_spec(j as nat),
                    payment: payments[j]@,
                }),
        decreases payments.len() - i,
    {
        starts.push(ChildStart { workflow_id: child_workflow_id(i), payment: payments[i].clone() });
        i += 1;
    }
    proof {
        assert(starts.deep_view() =~= children_of(payments.deep_view())) by {
            assert forall|j: int| 0 <= j < starts.len() implies starts.deep_view()[j]
                == children_of(payments.deep_view())[j] by {
                assert(starts.deep_view()[j] == starts[j]@);
                assert(payments.deep_view()[j] == payments[j]@);
            }
        }
    }
    starts
}

/// `n` outcomes, all pending.
fn pending_outcomes(n: usize) -> (r: Vec<PaymentOutcome>)
    ensures
        r.deep_view() == all_pending(n as nat),
{
    let mut outcomes: Vec<PaymentOutcome> = Vec::new();
    let mut i: usize = 0;
    while i < n
        invariant
            i <= n,
            outcomes.len() == i,
            forall|j: int| 0 <= j < i ==> (#[trigger] outcomes[j])@ is Pending,
        decreases n - i,
    {
        outcomes.push(PaymentOutcome::Pending);
        i += 1;
    }
    proof {
        assert(outcomes.deep_view() =~= all_pending(n as nat)) by {
            assert forall|j: int| 0 <= j < outcomes.len() implies outcomes.deep_view()[j]
                == all_pending(n as nat)[j] by {
                assert(outcomes.deep_view()[j] == outcomes[j]@);
            }
        }
    }
    outcomes
}

impl BatchRun {
    /// A batch that has not been started.
    pub fn new() -> (r: BatchRun)
        ensures
            r@.phase == BatchPhase::Created,
            r@.window == (DayWindow { start: 0, end: 86_400 }),
            r@.payments.len() == 0,
            r@.outcomes.len() == 0,
            r@.wf(),
    {
        BatchRun {
            phase: BatchPhase::Created,
            window: DayWindow { start: 0, end: 86_400 },
            payments: Vec::new(),
            outcomes: Vec::new(),
        }
    }

    /// Whether the batch has ended, completed or failed.
    pub fn is_finished(&self) -> (r: bool)
        ensures
            r == (self@.phase == BatchPhase::Completed || self@.phase == BatchPhase::Failed),
    {
        match self.phase {
            BatchPhase::Completed | BatchPhase::Failed => true,
            _ => false,
        }
    }

    /// Advances the batch by one event and returns what it asks of the
    /// runtime.
    pub fn step(&mut self, event: BatchEvent) -> (action: BatchAction)
        ensures
            (final(self)@, action@) == batch_step(old(self)@, event@),
            old(self)@.wf() ==> final(self)@.wf(),
    {
        let ghost e = event@;
        match (self.phase, event) {
            (BatchPhase::Created, BatchEvent::Started { now }) => {
                match day_window(now) {
                    Some(window) => {
                        self.phase = BatchPhase::Settling;
                        self.window = window;
                        BatchAction::StartTimer { seconds: SETTLE_SECS }
                    },
                    None => {
                        self.phase = BatchPhase::Failed;
                        BatchAction::Fail(
                            String::from_str(
                                "the batch was started outside the supported calendar",
                            ),
                        )
                    },
                }
            },
            (BatchPhase::Settling, BatchEvent::TimerFired) => {
                self.phase = BatchPhase::LookingUp;
                BatchAction::FindPayments {
                    window: self.window,
                    start_to_close_timeout_secs: ACTIVITY_TIMEOUT_SECS,
                }
            },
            (BatchPhase::LookingUp, BatchEvent::LookupFinished(Ok(payments))) => {
                self.phase = BatchPhase::Preparing;
                self.payments = payments;
                BatchAction::StartTimer { seconds: SETTLE_SECS }
            },
            (BatchPhase::LookingUp, BatchEvent::LookupFinished(Err(reason))) => {
                self.phase = BatchPhase::Failed;
                BatchAction::Fail(reason)
            },
            (BatchPhase::Preparing, BatchEvent::TimerFired) => {
                self.outcomes = pending_outcomes(self.payments.len());
                if self.payments.len() == 0 {
                    self.phase = BatchPhase::Completed;
                    BatchAction::Complete(summarize(&self.outcomes))
                } else {
                    self.phase = BatchPhase::Running;
                    proof {
                        assert(self.outcomes.deep_view()[0] is Pending);
                    }
                    BatchAction::StartPayments(children(&self.payments))
                }
            },
            (BatchPhase::Running, BatchEvent::PaymentFinished { index, result }) => {
                if index < self.outcomes.len() && is_pending(&self.outcomes[index]) {
                    let outcome = match result {
                        Ok(sent) => PaymentOutcome::Succeeded(sent),
                        Err(reason) => PaymentOutcome::Failed(reason),
                    };
                    let ghost before = self.outcomes.deep_view();
                    self.outcomes.set(index, outcome);
                    proof {
                        assert(self.outcomes.deep_view() =~= before.update(
                            index as int,
                            outcome_of(e->PaymentFinished_result),
                        ));
                    }
                    if is_settled(&self.outcomes) {
                        self.phase = BatchPhase::Completed;
                        BatchAction::Complete(summarize(&self.outcomes))
                    } else {
                        BatchAction::Wait
                    }
                } else {
                    BatchAction::Wait
                }
            },
            _ => BatchAction::Wait,
        }
    }
}

/// Whether an outcome is still pending.
fn is_pending(outcome: &PaymentOutcome) -> (r: bool)
    ensures
        r == (outcome@ is Pending),
{
    match outcome {
        PaymentOutcome::Pending => true,
        _ => false,
    }
}

/// Recording one outcome changes the counts by that outcome alone.
pub proof fn lemma_update_counts(
    outcomes: Seq<PaymentOutcomeView>,
    index: int,
    outcome: PaymentOutcomeView,
)
    requires
        0 <= index < outcomes.len(),
        outcomes[index] is Pending,
        !(outcome is Pending),
    ensures
        count_pending(outcomes.update(index, outcome)) == count_pending(outcomes) - 1,
        count_succeeded(outcomes.update(index, outcome)) == count_succeeded(outcomes) + if outcome
            is Succeeded {
            1nat
        } else {
            0nat
        },
        failures_of(outcomes.update(index, outcome)).len() == failures_of(outcomes).len()
            + if outcome is Failed {
            1nat
        } else {
            0nat
        },
    decreases outcomes.len(),
{
    let updated = outcomes.update(index, outcome);
    if index == outcomes.len() - 1 {
        assert(updated.drop_last() =~= outcomes.drop_last());
    } else {
        assert(updated.drop_last() =~= outcomes.drop_last().update(index, outcome));
        assert(updated.last() == outcomes.last());
        lemma_update_counts(outcomes.drop_last(), index, outcome);
    }
}

/// The join of a batch: while the sub-workflows run, the end of one of them
/// is recorded and nothing else happens, whether it succeeded or failed,
/// until the last one ends. Only then does the batch complete, and its
/// report counts every payment once, as a success or as a failure.
pub proof fn lemma_join_waits_for_all(
    s: BatchRunView,
    index: usize,
    result: Result<SendPaymentResult, Seq<char>>,
)
    requires
        s.wf(),
        s.phase == BatchPhase::Running,
        index < s.outcomes.len(),
        s.outcomes[index as int] is Pending,
    ensures
        ({
            let (next, action) = batch_step(s, BatchEventView::PaymentFinished { index, result });
            &&& next.wf()
            &&& next.payments == s.payments
            &&& next.outcomes == s.outcomes.update(index as int, outcome_of(result))
            &&& count_pending(next.outcomes) == count_pending(s.outcomes) - 1
            &&& count_pending(next.outcomes) > 0 ==> action is Wait && next.phase
                == BatchPhase::Running
            &&& count_pending(next.outcomes) == 0 ==> {
                &&& next.phase == BatchPhase::Completed
                &&& action == BatchActionView::Complete(summary_of(next.outcomes))
                &&& summary_of(next.outcomes).succeeded + summary_of(next.outcomes).failed
                    == s.payments.len()
            }
        }),
{
    let outcomes = s.outcomes.update(index as int, outcome_of(result));
    lemma_update_counts(s.outcomes, index as int, outcome_of(result));
    lemma_counts_add_up(outcomes);
}

/// The report lists exactly the failed payments: every entry names a
/// position that failed, with its reason; the positions rise; and every
/// failed position has its entry.
pub proof fn lemma_failures_exact(outcomes: Seq<PaymentOutcomeView>)
    ensures
        forall|k: int|
            0 <= k < failures_of(outcomes).len() ==> {
                let failure = #[trigger] failures_of(outcomes)[k];
                &&& failure.index < outcomes.len()
                &&& outcomes[failure.index as int] == PaymentOutcomeView::Failed(failure.reason)
            },
        forall|k: int, l: int|
            0 <= k < l < failures_of(outcomes).len() ==> (#[trigger] failures_of(
                outcomes,
            )[k]).index < (#[trigger] failures_of(outcomes)[l]).index,
        forall|i: int|
            0 <= i < outcomes.len() && (#[trigger] outcomes[i]) is Failed ==> exists|k: int|
                0 <= k < failures_of(outcomes).len() && (#[trigger] failures_of(
                    outcomes,
                )[k]).index == i,
    decreases outcomes.len(),
{
    if outcomes.len() > 0 {
        let earlier = outcomes.drop_last();
        lemma_failures_exact(earlier);
        let found = failures_of(outcomes);
        let found_earlier = failures_of(earlier);
        assert forall|k: int| 0 <= k < found.len() implies {
            let failure = #[trigger] found[k];
            &&& failure.index < outcomes.len()
            &&& outcomes[failure.index as int] == PaymentOutcomeView::Failed(failure.reason)
        } by {
            if k < found_earlier.len() {
                assert(found[k] == found_earlier[k]);
                assert(earlier[found_earlier[k].index as int] == outcomes[found_earlier[k].index as int]);
            }
        }
        assert forall|k: int, l: int| 0 <= k < l < found.len() implies (#[trigger] found[k]).index
            < (#[trigger] found[l]).index by {
            assert(found[k] == found_earlier[k]);
            if l < found_earlier.len() {
                assert(found[l] == found_earlier[l]);
            }
        }
        assert forall|i: int| 0 <= i < outcomes.len() && (#[trigger] outcomes[i])
            is Failed implies exists|k: int|
            0 <= k < found.len() && (#[trigger] found[k]).index == i by {
            if i < earlier.len() {
                assert(earlier[i] == outcomes[i]);
                let k = choose|k: int|
                    0 <= k < found_earlier.len() && (#[trigger] found_earlier[k]).index == i;
                assert(found[k] == found_earlier[k]);
            } else {
                assert(found[found.len() - 1].index == i);
            }
        }
    }
}

/// The stages of the sub-workflow of one payment.
#[derive(Debug, Clone, Copy, PartialEq, Eq, Structural)]
pub enum PaymentPhase {
    /// Not started.
    Created,
    /// The send-payment activity is running.
    Sending,
    /// The payment was sent.
    Succeeded,
    /// The activity failed for good; nothing is retried or reversed here.
    Failed,
}

/// What the runtime delivers to the sub-workflow of one payment.
#[derive(Debug)]
pub enum PaymentEvent {
    /// The sub-workflow was started.
    Started,
    /// The send-payment activity ended: with its result, or, once its
    /// retries were spent, with its last error.
    SendFinished(Result<SendPaymentResult, String>),
}

/// The mathematical value of a [`PaymentEvent`].
pub enum PaymentEventView {
    Started,
    SendFinished(Result<SendPaymentResult, Seq<char>>),
}

impl View for PaymentEvent {
    type V = PaymentEventView;

    open spec fn view(&self) -> PaymentEventView {
        match self {
            PaymentEvent::Started => PaymentEventView::Started,
            PaymentEvent::SendFinished(Ok(sent)) => PaymentEventView::SendFinished(Ok(*sent)),
            PaymentEvent::SendFinished(Err(reason)) => PaymentEventView::SendFinished(
                Err(reason@),
            ),
        }
    }
}

/// What the sub-workflow of one payment asks of the runtime.
#[derive(Debug)]
pub enum PaymentAction {
    /// Nothing: the sub-workflow waits for the next event.
    Wait,
    /// Run the send-payment activity on the payment.
    SendPayment { payment: PaymentData, start_to_close_timeout_secs: u64 },
    /// End with the result of the payment.
    Complete(SendPaymentResult),
    /// End as failed, carrying the last error of the activity.
    Fail(String),
}

/// The mathematical value of a [`PaymentAction`].
pub enum PaymentActionView {
    Wait,
    SendPayment { payment: PaymentDataView, start_to_close_timeout_secs: u64 },
    Complete(SendPaymentResult),
    Fail(Seq<char>),
}

impl View for PaymentAction {
    type V = PaymentActionView;

    open spec fn view(&self) -> PaymentActionView {
        match self {
            PaymentAction::Wait => PaymentActionView::Wait,
            PaymentAction::SendPayment { payment, start_to_close_timeout_secs } => {
                PaymentActionView::SendPayment {
                    payment: payment@,
                    start_to_close_timeout_secs: *start_to_close_timeout_secs,
                }
            },
            PaymentAction::Complete(sent) => PaymentActionView::Complete(*sent),
            PaymentAction::Fail(reason) => PaymentActionView::Fail(reason@),
        }
    }
}

impl PaymentAction {
    /// The activity that the action runs, if it runs one.
    pub fn activity(&self) -> (r: Option<ActivityKind>)
        ensures
            r == (match self@ {
                PaymentActionView::SendPayment { .. } => Some(ActivityKind::SendPayment),
                _ => None,
            }),
    {
        match self {
            PaymentAction::SendPayment { .. } => Some(ActivityKind::SendPayment),
            _ => None,
        }
    }
}

/// The transition function of the sub-workflow of `payment`: the stage after
/// `event` and what is asked of the runtime.
///
/// The activity is called once. Its failure ends the sub-workflow as failed;
/// an event that the stage does not expect changes nothing.
pub open spec fn payment_step(
    phase: PaymentPhase,
    payment: PaymentDataView,
    event: PaymentEventView,
) -> (PaymentPhase, PaymentActionView) {
    match (phase, event) {
        (PaymentPhase::Created, PaymentEventView::Started) => (
            PaymentPhase::Sending,
            PaymentActionView::SendPayment {
                payment,
                start_to_close_timeout_secs: ACTIVITY_TIMEOUT_SECS,
            },
        ),
        (PaymentPhase::Sending, PaymentEventView::SendFinished(Ok(sent))) => (
            PaymentPhase::Succeeded,
            PaymentActionView::Complete(sent),
        ),
        (PaymentPhase::Sending, PaymentEventView::SendFinished(Err(reason))) => (
            PaymentPhase::Failed,
            PaymentActionView::Fail(reason),
        ),
        _ => (phase, PaymentActionView::Wait),
    }
}

/// The sub-workflow that makes one payment.
#[derive(Debug)]
pub struct MakePayment {
    pub phase: PaymentPhase,
    pub payment: PaymentData,
}

impl MakePayment {
    /// The sub-workflow of `payment`, not started.
    pub fn new(payment: PaymentData) -> (r: MakePayment)
        ensures
            r.phase == PaymentPhase::Created,
            r.payment@ == payment@,
    {
        MakePayment { phase: PaymentPhase::Created, payment }
    }

    /// Advances the sub-workflow by one event and returns what it asks of
    /// the runtime.
    pub fn step(&mut self, event: PaymentEvent) -> (action: PaymentAction)
        ensures
            (final(self).phase, action@) == payment_step(
                old(self).phase,
                old(self).payment@,
                event@,
            ),
            final(self).payment@ == old(self).payment@,
    {
        match (self.phase, event) {
            (PaymentPhase::Created, PaymentEvent::Started) => {
                self.phase = PaymentPhase::Sending;
                PaymentAction::SendPayment {
                    payment: self.payment.clone(),
                    start_to_close_timeout_secs: ACTIVITY_TIMEOUT_SECS,
                }
            },
            (PaymentPhase::Sending, PaymentEvent::SendFinished(Ok(sent))) => {
                self.phase = PaymentPhase::Succeeded;
                PaymentAction::Complete(sent)
            },
            (PaymentPhase::Sending, PaymentEvent::SendFinished(Err(reason))) => {
                self.phase = PaymentPhase::Failed;
                PaymentAction::Fail(reason)
            },
            _ => PaymentAction::Wait,
        }
    }
}

/// The sub-workflow of a payment sends it at most once: after the activity
/// has been asked for, no event makes the sub-workflow ask for it again.
pub proof fn lemma_payment_sent_once(
    phase: PaymentPhase,
    payment: PaymentDataView,
    event: PaymentEventView,
)
    requires
        phase != PaymentPhase::Created,
    ensures
        !(payment_step(phase, payment, event).1 is SendPayment),
        payment_step(phase, payment, event).0 != PaymentPhase::Created,
{
}

/// The end of one sub-workflow, as it is delivered to the batch.
pub struct PaymentEnd {
    pub index: usize,
    pub result: Result<SendPaymentResult, Seq<char>>,
}

/// The batch after the ends listed have been delivered, in order.
pub open spec fn batch_after_ends(s: BatchRunView, ends: Seq<PaymentEnd>) -> BatchRunView
    decreases ends.len(),
{
    if ends.len() == 0 {
        s
    } else {
        batch_step(
            batch_after_ends(s, ends.drop_last()),
            BatchEventView::PaymentFinished { index: ends.last().index, result: ends.last().result },
        ).0
    }
}

/// What the batch asks of the runtime on the last of the ends listed.
pub open spec fn action_on_last_end(s: BatchRunView, ends: Seq<PaymentEnd>) -> BatchActionView {
    if ends.len() == 0 {
        BatchActionView::Wait
    } else {
        batch_step(
            batch_after_ends(s, ends.drop_last()),
            BatchEventView::PaymentFinished { index: ends.last().index, result: ends.last().result },
        ).1
    }
}

/// How many of the ends listed are failures.
pub open spec fn count_failed_ends(ends: Seq<PaymentEnd>) -> nat
    decreases ends.len(),
{
    if ends.len() == 0 {
        0
    } else {
        count_failed_ends(ends.drop_last()) + if ends.last().result is Err {
            1nat
        } else {
            0nat
        }
    }
}

/// Whether the ends listed are those of different payments of a batch of
/// `n`.
pub open spec fn distinct_ends(ends: Seq<PaymentEnd>, n: nat) -> bool {
    &&& forall|j: int| 0 <= j < ends.len() ==> (#[trigger] ends[j]).index < n
    &&& forall|j: int, k: int|
        0 <= j < k < ends.len() ==> (#[trigger] ends[j]).index != (#[trigger] ends[k]).index
}

/// A batch with nothing settled has every payment pending.
pub proof fn lemma_all_pending(n: nat)
    ensures
        count_pending(all_pending(n)) == n,
        count_succeeded(all_pending(n)) == 0,
        failures_of(all_pending(n)).len() == 0,
    decreases n,
{
    if n > 0 {
        assert(all_pending(n).drop_last() =~= all_pending((n - 1) as nat));
        lemma_all_pending((n - 1) as nat);
    }
}

/// Where a batch of `n` stands after the first `m` of the ends of different
/// payments: that many payments are settled, as many failed as ends were
/// failures, and the batch still runs unless all are settled.
proof fn lemma_join_progress(s: BatchRunView, ends: Seq<PaymentEnd>, m: nat)
    requires
        s.wf(),
        s.phase == BatchPhase::Running,
        s.outcomes == all_pending(s.payments.len()),
        distinct_ends(ends, s.payments.len()),
        m <= ends.len(),
    ensures
        ({
            let at = batch_after_ends(s, ends.take(m as int));
            let n = s.payments.len();
            &&& at.wf()
            &&& at.payments == s.payments
            &&& at.outcomes.len() == n
            &&& count_pending(at.outcomes) == n - m
            &&& failures_of(at.outcomes).len() == count_failed_ends(ends.take(m as int))
            &&& count_succeeded(at.outcomes) == m - count_failed_ends(ends.take(m as int))
            &&& at.phase == (if m < n {
                BatchPhase::Running
            } else {
                BatchPhase::Completed
            })
            &&& forall|i: int|
                0 <= i < n ==> ((#[trigger] at.outcomes[i]) is Pending <==> forall|j: int|
                    0 <= j < m ==> (#[trigger] ends[j]).index != i)
            &&& m > 0 ==> action_on_last_end(s, ends.take(m as int)) == (if m < n {
                BatchActionView::Wait
            } else {
                BatchActionView::Complete(summary_of(at.outcomes))
            })
        }),
    decreases m,
{
    let n = s.payments.len();
    if m == 0 {
        assert(ends.take(0) =~= Seq::<PaymentEnd>::empty());
        lemma_all_pending(n);
        lemma_counts_add_up(s.outcomes);
    } else {
        let before = ends.take(m - 1);
        let upto = ends.take(m as int);
        assert(upto.drop_last() =~= before);
        assert(upto.last() == ends[m - 1]);
        lemma_join_progress(s, ends, (m - 1) as nat);
        let at = batch_after_ends(s, before);
        let end = ends[m - 1];
        lemma_counts_add_up(at.outcomes);
        assert(m - 1 < n) by {
            // m - 1 ends of different payments are settled and one more is still to come
            if m - 1 >= n {
                assert(count_pending(at.outcomes) == n - (m - 1));
            }
        }
        assert(at.outcomes[end.index as int] is Pending) by {
            assert forall|j: int| 0 <= j < m - 1 implies (#[trigger] ends[j]).index
                != end.index by {
                assert(ends[j].index != ends[m - 1].index);
            }
        }
        lemma_join_waits_for_all(at, end.index, end.result);
        let next = batch_after_ends(s, upto);
        assert(next.outcomes == at.outcomes.update(end.index as int, outcome_of(end.result)));
        lemma_update_counts(at.outcomes, end.index as int, outcome_of(end.result));
        lemma_counts_add_up(next.outcomes);
        assert forall|i: int| 0 <= i < n implies ((#[trigger] next.outcomes[i]) is Pending
            <==> forall|j: int| 0 <= j < m ==> (#[trigger] ends[j]).index != i) by {
            if i == end.index {
                assert(ends[m - 1].index == i);
            } else {
                assert(next.outcomes[i] == at.outcomes[i]);
                if at.outcomes[i] is Pending {
                    assert forall|j: int| 0 <= j < m implies (#[trigger] ends[j]).index != i by {
                        if j < m - 1 {
                        }
                    }
                } else {
                    let j = choose|j: int| 0 <= j < m - 1 && (#[trigger] ends[j]).index == i;
                    assert(ends[j].index == i);
                }
            }
        }
    }
}

/// Fan-out and join. A batch of N payments that has started its
/// sub-workflows is delivered their N ends, in any order; K of them are
/// failures. On every end but the last the batch only waits, failures
/// included. On the last end it completes, and reports exactly K failures
/// and N - K successes.
pub proof fn lemma_batch_reports_every_payment(s: BatchRunView, ends: Seq<PaymentEnd>)
    requires
        s.wf(),
        s.phase == BatchPhase::Running,
        s.outcomes == all_pending(s.payments.len()),
        distinct_ends(ends, s.payments.len()),
        ends.len() == s.payments.len(),
    ensures
        forall|m: int|
            0 < m < ends.len() ==> #[trigger] action_on_last_end(s, ends.take(m)) is Wait
                && batch_after_ends(s, ends.take(m)).phase == BatchPhase::Running,
        batch_after_ends(s, ends).phase == BatchPhase::Completed,
        action_on_last_end(s, ends) == BatchActionView::Complete(
            summary_of(batch_after_ends(s, ends).outcomes),
        ),
        summary_of(batch_after_ends(s, ends).outcomes).failed == count_failed_ends(ends),
        summary_of(batch_after_ends(s, ends).outcomes).succeeded == ends.len() - count_failed_ends(
            ends,
        ),
{
    let n = s.payments.len();
    assert(n > 0) by {
        if n == 0 {
            assert(s.outcomes.len() == 0);
            assert(all_settled(s.outcomes));
        }
    }
    assert forall|m: int| 0 < m < ends.len() implies #[trigger] action_on_last_end(
        s,
        ends.take(m),
    ) is Wait && batch_after_ends(s, ends.take(m)).phase == BatchPhase::Running by {
        lemma_join_progress(s, ends, m as nat);
    }
    lemma_join_progress(s, ends, ends.len());
    assert(ends.take(ends.len() as int) =~= ends);
}

} // verus!
