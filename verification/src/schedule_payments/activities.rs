//! The computing part of the payment activities: which payments are due on a
//! day, and the result of sending one.

use crate::clock::{
    calendar_day, calendar_day_at, lemma_midnight_of_opposite, CalendarDay, DayWindow,
    SECONDS_PER_DAY,
};
use crate::ids::{is_random_uuid, random_uuid};
use crate::runtime::{ActivityError, ActivityErrorView};
use crate::schedule_payments::data::{
    can_generate_at, generate_data_at, instances_of, schedule_lines_at, PaymentData,
    PaymentDataView, Schedule, ScheduleLine, SendPaymentResult,
};
use vstd::prelude::*;
use vstd::string::StringExecFns;

verus! {

/// The recurrence rule: a daily payment is due every day, a weekly one on
/// its day of the week, a monthly one on its day of the month.
pub open spec fn is_due(p: PaymentDataView, today: CalendarDay) -> bool {
    match p.schedule {
        Schedule::Daily => true,
        Schedule::Weekly => p.schedule_time == today.weekday,
        Schedule::Monthly => p.schedule_time == today.day_of_month,
    }
}

/// The payments of `data` that are due on `today`, in their order in `data`.
pub open spec fn due_on(data: Seq<PaymentDataView>, today: CalendarDay) -> Seq<PaymentDataView> {
    data.filter(|p: PaymentDataView| is_due(p, today))
}

impl PaymentData {
    /// Whether this payment is due on `today`.
    pub fn is_due_on(&self, today: CalendarDay) -> (r: bool)
        ensures
            r == is_due(self@, today),
    {
        match self.schedule {
            Schedule::Weekly => today.weekday == self.schedule_time,
            Schedule::Monthly => today.day_of_month == self.schedule_time,
            Schedule::Daily => true,
        }
    }
}

/// Selects from `data` every payment that is due on `today`, keeping the
/// order.
pub fn select_due(data: &Vec<PaymentData>, today: CalendarDay) -> (r: Vec<PaymentData>)
    ensures
        r.deep_view() == due_on(data.deep_view(), today),
{
    let mut payments: Vec<PaymentData> = Vec::new();
    let mut i: usize = 0;
    let ghost all = data.deep_view();
    let ghost due = |p: PaymentDataView| is_due(p, today);
    proof {
        assert(all.take(0) =~= Seq::<PaymentDataView>::empty());
        assert(payments.deep_view() =~= all.take(0).filter(due));
    }
    while i < data.len()
        invariant
            i <= data.len(),
            all == data.deep_view(),
            due == (|p: PaymentDataView| is_due(p, today)),
            payments.deep_view() == all.take(i as int).filter(due),
        decreases data.len() - i,
    {
        let item = &data[i];
        let ghost before = payments.deep_view();
        proof {
            assert(all.take(i as int + 1).drop_last() =~= all.take(i as int));
            assert(all.take(i as int + 1).last() == all[i as int]);
            assert(all[i as int] == data[i as int]@);
            reveal(Seq::filter);
        }
        if item.is_due_on(today) {
            payments.push(item.clone());
            proof {
                assert(payments.deep_view() =~= before.push(all[i as int]));
            }
        }
        i += 1;
    }
    proof {
        assert(all.take(data.len() as int) =~= all);
    }
    payments
}

/// The message of the error that rejects a window the lookup cannot serve.
pub open spec fn invalid_window_message() -> Seq<char> {
    "payment lookup needs a whole UTC day inside the supported calendar"@
}

/// The windows that the lookup serves: one whole UTC day whose neighbouring
/// days have a calendar day too.
pub open spec fn window_served(start_time: int, end_time: int) -> bool {
    &&& (DayWindow { start: start_time as i64, end: end_time as i64 }).wf()
    &&& can_generate_at(start_time)
}

/// Looks up the payments due in the day window `[start_time, end_time)`.
///
/// The records on file are generated for the day that starts at
/// `start_time`, and those due on that day are returned in order. A window
/// that is not one whole supported UTC day is rejected as a non-retryable
/// failure.
pub fn find_payments_for_day(start_time: i64, end_time: i64) -> (r: Result<
    Vec<PaymentData>,
    ActivityError,
>)
    ensures
        r is Ok <==> window_served(start_time as int, end_time as int),
        r matches Ok(payments) ==> exists|data: Seq<PaymentDataView>|
            {
                &&& instances_of(data, schedule_lines_at(start_time as int))
                &&& payments.deep_view() == #[trigger] due_on(
                    data,
                    calendar_day_at(start_time as int),
                )
            },
        r matches Err(e) ==> e@ == (ActivityErrorView::NonRetryable {
            message: invalid_window_message(),
        }),
{
    let data = match generate_data_at(start_time) {
        Some(data) => data,
        None => {
            return Err(invalid_window());
        },
    };
    let today = match calendar_day(start_time) {
        Some(day) => day,
        None => {
            return Err(invalid_window());
        },
    };
    let at_midnight: bool = if start_time >= 0 {
        start_time % SECONDS_PER_DAY == 0
    } else {
        (-start_time) % SECONDS_PER_DAY == 0
    };
    proof {
        lemma_midnight_of_opposite(start_time as int);
    }
    if !at_midnight || end_time != start_time + SECONDS_PER_DAY {
        return Err(invalid_window());
    }
    let payments = select_due(&data, today);
    Ok(payments)
}

/// The error that rejects a window the lookup cannot serve.
fn invalid_window() -> (e: ActivityError)
    ensures
        e@ == (ActivityErrorView::NonRetryable { message: invalid_window_message() }),
{
    ActivityError::NonRetryable {
        message: String::from_str(
            "payment lookup needs a whole UTC day inside the supported calendar",
        ),
    }
}

/// The result of sending `payment`: the amount sent, under a fresh random
/// transaction id.
pub fn send_payment(payment: &PaymentData) -> (r: SendPaymentResult)
    ensures
        r.amount_in_pence == payment.amount_in_pence,
        is_random_uuid(r.transaction_id),
{
    SendPaymentResult { amount_in_pence: payment.amount_in_pence, transaction_id: random_uuid() }
}

/// The recurrence rule on a list of payments: a weekly payment anchored on
/// today's day of the week is selected and one anchored on another day is
/// not; a daily payment is always selected; a monthly payment is selected
/// exactly on its day of the month. Nothing else is selected, and the order
/// is kept.
pub proof fn lemma_due_selection(data: Seq<PaymentDataView>, today: CalendarDay)
    ensures
        forall|i: int|
            0 <= i < data.len() ==> (due_on(data, today).contains(#[trigger] data[i]) <==> is_due(
                data[i],
                today,
            )),
        forall|k: int|
            0 <= k < due_on(data, today).len() ==> is_due(#[trigger] due_on(data, today)[k], today)
                && data.contains(due_on(data, today)[k]),
        forall|i: int|
            0 <= i < data.len() && (#[trigger] data[i]).schedule == Schedule::Daily ==> due_on(
                data,
                today,
            ).contains(data[i]),
        forall|i: int|
            0 <= i < data.len() && (#[trigger] data[i]).schedule == Schedule::Weekly ==> (due_on(
                data,
                today,
            ).contains(data[i]) <==> data[i].schedule_time == today.weekday),
        forall|i: int|
            0 <= i < data.len() && (#[trigger] data[i]).schedule == Schedule::Monthly ==> (due_on(
                data,
                today,
            ).contains(data[i]) <==> data[i].schedule_time == today.day_of_month),
        due_on(data, today).len() <= data.len(),
{
    let due = |p: PaymentDataView| is_due(p, today);
    let selected = due_on(data, today);
    data.lemma_filter_len(due);
    assert forall|k: int| 0 <= k < selected.len() implies is_due(#[trigger] selected[k], today)
        && data.contains(selected[k]) by {
        data.lemma_filter_pred(due, k);
        assert(selected.contains(selected[k]));
        data.lemma_filter_contains_rev(due, selected[k]);
    }
    assert forall|i: int| 0 <= i < data.len() implies (selected.contains(#[trigger] data[i])
        <==> is_due(data[i], today)) by {
        if is_due(data[i], today) {
            data.lemma_filter_contains(due, i);
        }
        if selected.contains(data[i]) {
            let k = choose|k: int| 0 <= k < selected.len() && selected[k] == data[i];
            data.lemma_filter_pred(due, k);
        }
    }
}

/// The line of the generation rule that a record is an instance of.
pub open spec fn line_of(p: PaymentDataView) -> ScheduleLine {
    ScheduleLine {
        schedule: p.schedule,
        schedule_time: p.schedule_time,
        amount_in_pence: p.amount_in_pence,
    }
}

/// The lines of a list of records, in order.
pub open spec fn lines_of(data: Seq<PaymentDataView>) -> Seq<ScheduleLine> {
    data.map_values(|p: PaymentDataView| line_of(p))
}

/// Lists of records with the same lines have the same lines due.
pub proof fn lemma_same_lines_same_due(
    a: Seq<PaymentDataView>,
    b: Seq<PaymentDataView>,
    today: CalendarDay,
)
    requires
        lines_of(a) == lines_of(b),
    ensures
        lines_of(due_on(a, today)) == lines_of(due_on(b, today)),
    decreases a.len(),
{
    reveal(Seq::filter);
    assert(a.len() == lines_of(a).len());
    assert(b.len() == lines_of(b).len());
    if a.len() > 0 {
        let due = |p: PaymentDataView| is_due(p, today);
        assert(lines_of(a.drop_last()) =~= lines_of(a).drop_last());
        assert(lines_of(b.drop_last()) =~= lines_of(b).drop_last());
        lemma_same_lines_same_due(a.drop_last(), b.drop_last(), today);
        assert(line_of(a.last()) == lines_of(a)[a.len() - 1]);
        assert(line_of(b.last()) == lines_of(b)[b.len() - 1]);
        let earlier_a = a.drop_last().filter(due);
        let earlier_b = b.drop_last().filter(due);
        if is_due(a.last(), today) {
            assert(lines_of(earlier_a.push(a.last())) =~= lines_of(earlier_a).push(
                line_of(a.last()),
            ));
            assert(lines_of(earlier_b.push(b.last())) =~= lines_of(earlier_b).push(
                line_of(b.last()),
            ));
        }
    } else {
        assert(lines_of(due_on(a, today)) =~= lines_of(due_on(b, today)));
    }
}

/// The lookup is repeatable: two lookups for the same day find payments on
/// the same lines, in the same order, though the parties of the records are
/// named anew each time.
pub proof fn lemma_lookup_is_repeatable(
    first: Seq<PaymentDataView>,
    second: Seq<PaymentDataView>,
    lines: Seq<ScheduleLine>,
    today: CalendarDay,
)
    requires
        instances_of(first, lines),
        instances_of(second, lines),
    ensures
        lines_of(due_on(first, today)) == lines_of(due_on(second, today)),
{
    assert(lines_of(first) =~= lines);
    assert(lines_of(second) =~= lines);
    lemma_same_lines_same_due(first, second, today);
}

} // verus!
