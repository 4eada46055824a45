//! Payment records and the rule that generates the records on file.

use crate::clock::{
    calendar_day, calendar_day_at, timestamp_supported, utc_now_seconds, CalendarDay,
    SECONDS_PER_DAY,
};
use crate::ids::{is_random_uuid_text, new_id_text};
use vstd::prelude::*;

verus! {

/// How often a payment recurs.
#[derive(Debug, Clone, Copy, PartialEq, Eq, Structural)]
pub enum Schedule {
    Daily,
    Weekly,
    Monthly,
}

/// A payment on file.
#[derive(Debug)]
pub struct PaymentData {
    /// Ignored if daily; for weekly the day of the week (1 = Monday); for
    /// monthly the day of the month.
    pub schedule_time: u32,
    pub schedule: Schedule,
    /// The amount in the smallest unit of the currency.
    pub amount_in_pence: u32,
    pub sender_id: String,
    pub recipient_id: String,
}

/// The mathematical value of a [`PaymentData`].
pub struct PaymentDataView {
    pub schedule_time: u32,
    pub schedule: Schedule,
    pub amount_in_pence: u32,
    pub sender_id: Seq<char>,
    pub recipient_id: Seq<char>,
}

impl View for PaymentData {
    type V = PaymentDataView;

    open spec fn view(&self) -> PaymentDataView {
        PaymentDataView {
            schedule_time: self.schedule_time,
            schedule: self.schedule,
            amount_in_pence: self.amount_in_pence,
            sender_id: self.sender_id@,
            recipient_id: self.recipient_id@,
        }
    }
}

impl DeepView for PaymentData {
    type V = PaymentDataView;

    open spec fn deep_view(&self) -> PaymentDataView {
        self@
    }
}

impl Clone for PaymentData {
    fn clone(&self) -> (r: Self)
        ensures
            r@ == self@,
    {
        PaymentData {
            schedule_time: self.schedule_time,
            schedule: self.schedule,
            amount_in_pence: self.amount_in_pence,
            sender_id: self.sender_id.clone(),
            recipient_id: self.recipient_id.clone(),
        }
    }
}

/// The outcome of executing one payment.
#[derive(Debug, Clone, Copy, PartialEq, Eq, Structural)]
pub struct SendPaymentResult {
    pub amount_in_pence: u32,
    /// The random UUID of the transaction, as a 128-bit value.
    pub transaction_id: u128,
}

/// One line of the generation rule: the recurrence, its anchor and the
/// amount.
pub struct ScheduleLine {
    pub schedule: Schedule,
    pub schedule_time: u32,
    pub amount_in_pence: u32,
}

/// The records on file on a given day: one daily payment, and for each of
/// weekly and monthly one payment anchored yesterday, one today and one
/// tomorrow.
pub open spec fn schedule_lines(
    yesterday: CalendarDay,
    today: CalendarDay,
    tomorrow: CalendarDay,
) -> Seq<ScheduleLine> {
    seq![
        ScheduleLine { schedule: Schedule::Daily, schedule_time: 0, amount_in_pence: 10000 },
        ScheduleLine {
            schedule: Schedule::Weekly,
            schedule_time: yesterday.weekday,
            amount_in_pence: 10100,
        },
        ScheduleLine {
            schedule: Schedule::Weekly,
            schedule_time: today.weekday,
            amount_in_pence: 10200,
        },
        ScheduleLine {
            schedule: Schedule::Weekly,
            schedule_time: tomorrow.weekday,
            amount_in_pence: 10300,
        },
        ScheduleLine {
            schedule: Schedule::Monthly,
            schedule_time: yesterday.day_of_month,
            amount_in_pence: 10400,
        },
        ScheduleLine {
            schedule: Schedule::Monthly,
            schedule_time: today.day_of_month,
            amount_in_pence: 10000,
        },
        ScheduleLine {
            schedule: Schedule::Monthly,
            schedule_time: tomorrow.day_of_month,
            amount_in_pence: 10000,
        },
    ]
}

/// Whether a record is an instance of a line: the line's recurrence, anchor
/// and amount, between two parties named by random UUIDs.
pub open spec fn instance_of(p: PaymentDataView, line: ScheduleLine) -> bool {
    &&& p.schedule == line.schedule
    &&& p.schedule_time == line.schedule_time
    &&& p.amount_in_pence == line.amount_in_pence
    &&& is_random_uuid_text(p.sender_id)
    &&& is_random_uuid_text(p.recipient_id)
}

/// Whether `data` holds one instance of each line, in the lines' order.
pub open spec fn instances_of(data: Seq<PaymentDataView>, lines: Seq<ScheduleLine>) -> bool {
    &&& data.len() == lines.len()
    &&& forall|i: int| 0 <= i < data.len() ==> instance_of(#[trigger] data[i], lines[i])
}

/// The instants for which the records can be generated: the day before and
/// the day after must have a calendar day too.
pub open spec fn can_generate_at(now: int) -> bool {
    &&& timestamp_supported(now - 86_400)
    &&& timestamp_supported(now + 86_400)
}

/// The lines on file at the instant `now`.
pub open spec fn schedule_lines_at(now: int) -> Seq<ScheduleLine> {
    schedule_lines(
        calendar_day_at(now - 86_400),
        calendar_day_at(now),
        calendar_day_at(now + 86_400),
    )
}

/// A record on the given line between two fresh parties.
fn new_payment(schedule: Schedule, schedule_time: u32, amount_in_pence: u32) -> (r: PaymentData)
    ensures
        instance_of(r@, ScheduleLine { schedule, schedule_time, amount_in_pence }),
{
    PaymentData {
        schedule,
        schedule_time,
        amount_in_pence,
        sender_id: new_id_text(),
        recipient_id: new_id_text(),
    }
}

/// The records on file, given the calendar days of yesterday, today and
/// tomorrow.
pub fn generate_data_for(yesterday: CalendarDay, today: CalendarDay, tomorrow: CalendarDay) -> (r:
    Vec<PaymentData>)
    ensures
        instances_of(r.deep_view(), schedule_lines(yesterday, today, tomorrow)),
{
    let mut data: Vec<PaymentData> = Vec::new();
    // Daily - due today
    data.push(new_payment(Schedule::Daily, 0, 10000));
    // Weekly - due yesterday, today, tomorrow
    data.push(new_payment(Schedule::Weekly, yesterday.weekday, 10100));
    data.push(new_payment(Schedule::Weekly, today.weekday, 10200));
    data.push(new_payment(Schedule::Weekly, tomorrow.weekday, 10300));
    // Monthly - due yesterday, today, tomorrow
    data.push(new_payment(Schedule::Monthly, yesterday.day_of_month, 10400));
    data.push(new_payment(Schedule::Monthly, today.day_of_month, 10000));
    data.push(new_payment(Schedule::Monthly, tomorrow.day_of_month, 10000));
    proof {
        let lines = schedule_lines(yesterday, today, tomorrow);
        let views = data.deep_view();
        assert(views.len() == 7);
        assert forall|i: int| 0 <= i < views.len() implies instance_of(
            #[trigger] views[i],
            lines[i],
        ) by {
            assert(views[i] == data[i]@);
        }
    }
    data
}

/// The records on file at the instant `now`, or `None` when the day before
/// or the day after `now` lies outside the supported calendar.
pub fn generate_data_at(now: i64) -> (r: Option<Vec<PaymentData>>)
    ensures
        r is Some <==> can_generate_at(now as int),
        r matches Some(data) ==> instances_of(data.deep_view(), schedule_lines_at(now as int)),
{
    let today = match calendar_day(now) {
        Some(day) => day,
        None => {
            return None;
        },
    };
    let yesterday = match calendar_day(now - SECONDS_PER_DAY) {
        Some(day) => day,
        None => {
            return None;
        },
    };
    let tomorrow = match calendar_day(now + SECONDS_PER_DAY) {
        Some(day) => day,
        None => {
            return None;
        },
    };
    Some(generate_data_for(yesterday, today, tomorrow))
}

/// The records on file now, by the system clock. This would ordinarily be a
/// database query. The result is empty when the clock reads an instant
/// outside the supported calendar.
pub fn generate_data() -> (r: Vec<PaymentData>)
    ensures
        r.len() == 0 || exists|now: int|
            can_generate_at(now) && instances_of(r.deep_view(), #[trigger] schedule_lines_at(now)),
{
    let now: i64 = utc_now_seconds();
    match generate_data_at(now) {
        Some(data) => data,
        None => Vec::new(),
    }
}

} // verus!
