use durable_workflows::clock::{
    calendar_day, day_window, CalendarDay, DayWindow, MAX_TIMESTAMP, MIN_TIMESTAMP,
    SECONDS_PER_DAY,
};
use durable_workflows::ids::new_id_text;
use durable_workflows::runtime::{ActivityError, ActivityKind, WorkflowKind};
use durable_workflows::schedule_payments::activities::{
    find_payments_for_day, select_due, send_payment,
};
use durable_workflows::schedule_payments::data::{
    generate_data, generate_data_at, generate_data_for, PaymentData, Schedule, SendPaymentResult,
};
use durable_workflows::schedule_payments::workflows::{
    child_workflow_id, summarize, BatchAction, BatchEvent, BatchPhase, BatchRun, MakePayment,
    PaymentAction, PaymentEvent, PaymentOutcome, PaymentPhase, SETTLE_SECS,
};
use durable_workflows::text::{join, decimal_string};

// 2023-11-14T22:13:20Z, a Tuesday
const TUESDAY: i64 = 1_700_000_000;
// 2023-11-14T00:00:00Z
const TUESDAY_MIDNIGHT: i64 = 1_699_920_000;
// 2023-11-19T00:00:00Z, a Sunday
const SUNDAY_MIDNIGHT: i64 = 1_700_352_000;
// 2024-02-29T00:00:00Z, a Thursday
const LEAP_DAY_MIDNIGHT: i64 = 1_709_164_800;

fn payment(schedule: Schedule, schedule_time: u32, amount_in_pence: u32) -> PaymentData {
    PaymentData {
        schedule_time,
        schedule,
        amount_in_pence,
        sender_id: format!("sender-{}", amount_in_pence),
        recipient_id: format!("recipient-{}", amount_in_pence),
    }
}

fn lines(data: &[PaymentData]) -> Vec<(Schedule, u32, u32)> {
    data.iter().map(|p| (p.schedule, p.schedule_time, p.amount_in_pence)).collect()
}

fn amounts(data: &[PaymentData]) -> Vec<u32> {
    data.iter().map(|p| p.amount_in_pence).collect()
}

fn is_hyphenated_random_uuid(text: &str) -> bool {
    let chars: Vec<char> = text.chars().collect();
    chars.len() == 36
        && chars.iter().enumerate().all(|(i, c)| {
            if i == 8 || i == 13 || i == 18 || i == 23 {
                *c == '-'
            } else {
                c.is_ascii_digit() || ('a'..='f').contains(c)
            }
        })
        && chars[14] == '4'
        && ['8', '9', 'a', 'b'].contains(&chars[19])
}

#[test]
fn test_data_generation() {
    let data = generate_data();
    assert!(!data.is_empty(), "Generated data should not be empty");

    // Check that we have different types of payments
    let has_daily = data.iter().any(|p| matches!(p.schedule, Schedule::Daily));
    let has_weekly = data.iter().any(|p| matches!(p.schedule, Schedule::Weekly));
    let has_monthly = data.iter().any(|p| matches!(p.schedule, Schedule::Monthly));

    assert!(has_daily, "Should have daily payments");
    assert!(has_weekly, "Should have weekly payments");
    assert!(has_monthly, "Should have monthly payments");

    assert_eq!(data.len(), 7);
    assert_eq!(amounts(&data), vec![10000, 10100, 10200, 10300, 10400, 10000, 10000]);
}

#[test]
fn schedule_variants_are_three() {
    let daily = Schedule::Daily;
    let weekly = Schedule::Weekly;
    let monthly = Schedule::Monthly;

    assert_eq!(format!("{:?}", daily), "Daily");
    assert_eq!(format!("{:?}", weekly), "Weekly");
    assert_eq!(format!("{:?}", monthly), "Monthly");
    assert_ne!(daily, weekly);
    assert_ne!(weekly, monthly);
    assert_ne!(daily, monthly);
}

#[test]
fn calendar_day_of_known_instants() {
    assert_eq!(calendar_day(0), Some(CalendarDay { weekday: 4, day_of_month: 1 }));
    assert_eq!(calendar_day(TUESDAY), Some(CalendarDay { weekday: 2, day_of_month: 14 }));
    assert_eq!(
        calendar_day(TUESDAY_MIDNIGHT),
        Some(CalendarDay { weekday: 2, day_of_month: 14 })
    );
    assert_eq!(
        calendar_day(TUESDAY_MIDNIGHT - 1),
        Some(CalendarDay { weekday: 1, day_of_month: 13 })
    );
    assert_eq!(
        calendar_day(SUNDAY_MIDNIGHT),
        Some(CalendarDay { weekday: 7, day_of_month: 19 })
    );
    assert_eq!(
        calendar_day(LEAP_DAY_MIDNIGHT),
        Some(CalendarDay { weekday: 4, day_of_month: 29 })
    );
    assert_eq!(calendar_day(-1), Some(CalendarDay { weekday: 3, day_of_month: 31 }));
}

#[test]
fn calendar_day_covers_the_years_0000_to_9999() {
    assert_eq!(MIN_TIMESTAMP, -62_167_219_200);
    assert_eq!(MAX_TIMESTAMP, 253_402_300_799);
    assert_eq!(calendar_day(MIN_TIMESTAMP), Some(CalendarDay { weekday: 6, day_of_month: 1 }));
    assert_eq!(calendar_day(MAX_TIMESTAMP), Some(CalendarDay { weekday: 5, day_of_month: 31 }));
    assert_eq!(calendar_day(MIN_TIMESTAMP - 1), None);
    assert_eq!(calendar_day(MAX_TIMESTAMP + 1), None);
    assert_eq!(calendar_day(i64::MIN), None);
    assert_eq!(calendar_day(i64::MAX), None);
}

#[test]
fn day_window_is_the_utc_day_of_the_instant() {
    assert_eq!(SECONDS_PER_DAY, 86_400);
    assert_eq!(
        day_window(TUESDAY),
        Some(DayWindow { start: TUESDAY_MIDNIGHT, end: TUESDAY_MIDNIGHT + 86_400 })
    );
    assert_eq!(
        day_window(TUESDAY_MIDNIGHT),
        Some(DayWindow { start: TUESDAY_MIDNIGHT, end: TUESDAY_MIDNIGHT + 86_400 })
    );
    assert_eq!(
        day_window(TUESDAY_MIDNIGHT - 1),
        Some(DayWindow { start: TUESDAY_MIDNIGHT - 86_400, end: TUESDAY_MIDNIGHT })
    );
    assert_eq!(day_window(0), Some(DayWindow { start: 0, end: 86_400 }));
    assert_eq!(day_window(-1), Some(DayWindow { start: -86_400, end: 0 }));
    assert_eq!(day_window(-86_400), Some(DayWindow { start: -86_400, end: 0 }));
    assert_eq!(day_window(-86_401), Some(DayWindow { start: -172_800, end: -86_400 }));
    assert_eq!(
        day_window(MIN_TIMESTAMP),
        Some(DayWindow { start: MIN_TIMESTAMP, end: MIN_TIMESTAMP + 86_400 })
    );
    assert_eq!(
        day_window(MAX_TIMESTAMP),
        Some(DayWindow { start: MAX_TIMESTAMP - 86_399, end: MAX_TIMESTAMP + 1 })
    );
    assert_eq!(day_window(MIN_TIMESTAMP - 1), None);
    assert_eq!(day_window(MAX_TIMESTAMP + 1), None);
}

#[test]
fn generated_data_follows_the_calendar() {
    let data = generate_data_at(TUESDAY).unwrap();
    assert_eq!(
        lines(&data),
        vec![
            (Schedule::Daily, 0, 10000),
            (Schedule::Weekly, 1, 10100),
            (Schedule::Weekly, 2, 10200),
            (Schedule::Weekly, 3, 10300),
            (Schedule::Monthly, 13, 10400),
            (Schedule::Monthly, 14, 10000),
            (Schedule::Monthly, 15, 10000),
        ]
    );
}

#[test]
fn generated_data_wraps_at_the_week_and_the_month() {
    let sunday = generate_data_at(SUNDAY_MIDNIGHT).unwrap();
    assert_eq!(
        lines(&sunday)[1..4],
        [(Schedule::Weekly, 6, 10100), (Schedule::Weekly, 7, 10200), (Schedule::Weekly, 1, 10300)]
    );
    let leap_day = generate_data_at(LEAP_DAY_MIDNIGHT).unwrap();
    assert_eq!(
        lines(&leap_day)[4..7],
        [
            (Schedule::Monthly, 28, 10400),
            (Schedule::Monthly, 29, 10000),
            (Schedule::Monthly, 1, 10000)
        ]
    );
}

#[test]
fn generated_data_needs_the_neighbouring_days() {
    assert!(generate_data_at(MIN_TIMESTAMP).is_none());
    assert!(generate_data_at(MIN_TIMESTAMP + 86_399).is_none());
    assert!(generate_data_at(MIN_TIMESTAMP + 86_400).is_some());
    assert!(generate_data_at(MAX_TIMESTAMP - 86_400).is_some());
    assert!(generate_data_at(MAX_TIMESTAMP - 86_399).is_none());
    assert!(generate_data_at(MAX_TIMESTAMP).is_none());
    assert!(generate_data_at(i64::MIN).is_none());
    assert!(generate_data_at(i64::MAX).is_none());
}

#[test]
fn generated_parties_are_fresh_random_uuids() {
    let yesterday = CalendarDay { weekday: 7, day_of_month: 31 };
    let today = CalendarDay { weekday: 1, day_of_month: 1 };
    let tomorrow = CalendarDay { weekday: 2, day_of_month: 2 };
    let data = generate_data_for(yesterday, today, tomorrow);
    assert_eq!(
        lines(&data),
        vec![
            (Schedule::Daily, 0, 10000),
            (Schedule::Weekly, 7, 10100),
            (Schedule::Weekly, 1, 10200),
            (Schedule::Weekly, 2, 10300),
            (Schedule::Monthly, 31, 10400),
            (Schedule::Monthly, 1, 10000),
            (Schedule::Monthly, 2, 10000),
        ]
    );
    let mut ids: Vec<&str> = Vec::new();
    for p in &data {
        ids.push(&p.sender_id);
        ids.push(&p.recipient_id);
    }
    for (i, id) in ids.iter().enumerate() {
        assert!(is_hyphenated_random_uuid(id), "{}", id);
        assert!(!ids[..i].contains(id));
    }
}

#[test]
fn new_id_text_is_a_hyphenated_random_uuid() {
    let first = new_id_text();
    let second = new_id_text();
    assert!(is_hyphenated_random_uuid(&first), "{}", first);
    assert!(is_hyphenated_random_uuid(&second), "{}", second);
    assert_ne!(first, second);
}

#[test]
fn weekly_payment_is_due_on_its_weekday_only() {
    let today = CalendarDay { weekday: 3, day_of_month: 20 };
    assert!(payment(Schedule::Weekly, 3, 1).is_due_on(today));
    for anchor in [0, 1, 2, 4, 5, 6, 7, 20] {
        assert!(!payment(Schedule::Weekly, anchor, 1).is_due_on(today));
    }
}

#[test]
fn monthly_payment_is_due_on_its_day_of_the_month_only() {
    let today = CalendarDay { weekday: 3, day_of_month: 20 };
    assert!(payment(Schedule::Monthly, 20, 1).is_due_on(today));
    for anchor in [0, 1, 3, 19, 21, 31] {
        assert!(!payment(Schedule::Monthly, anchor, 1).is_due_on(today));
    }
}

#[test]
fn daily_payment_is_always_due() {
    for weekday in 1..=7 {
        for day_of_month in [1, 15, 31] {
            let today = CalendarDay { weekday, day_of_month };
            for anchor in [0, 1, 7, 31, u32::MAX] {
                assert!(payment(Schedule::Daily, anchor, 1).is_due_on(today));
            }
        }
    }
}

#[test]
fn select_due_keeps_the_due_payments_in_order() {
    let data = vec![
        payment(Schedule::Weekly, 2, 1),
        payment(Schedule::Daily, 0, 2),
        payment(Schedule::Weekly, 3, 3),
        payment(Schedule::Monthly, 3, 4),
        payment(Schedule::Monthly, 20, 5),
        payment(Schedule::Weekly, 3, 6),
        payment(Schedule::Daily, 9, 7),
    ];
    let today = CalendarDay { weekday: 3, day_of_month: 20 };
    let due = select_due(&data, today);
    assert_eq!(amounts(&due), vec![2, 3, 5, 6, 7]);
    assert_eq!(due[1].sender_id, "sender-3");
    assert_eq!(due[1].recipient_id, "recipient-3");
    assert_eq!(due[1].schedule, Schedule::Weekly);
    assert_eq!(due[1].schedule_time, 3);
    // the same question has the same answer
    assert_eq!(amounts(&select_due(&data, today)), vec![2, 3, 5, 6, 7]);
    assert_eq!(data.len(), 7);
    assert!(select_due(&Vec::new(), today).is_empty());
    let other_day = CalendarDay { weekday: 5, day_of_month: 1 };
    assert_eq!(amounts(&select_due(&data, other_day)), vec![2, 7]);
}

#[test]
fn lookup_finds_the_payments_due_in_the_window() {
    let due = find_payments_for_day(TUESDAY_MIDNIGHT, TUESDAY_MIDNIGHT + 86_400).unwrap();
    assert_eq!(
        lines(&due),
        vec![
            (Schedule::Daily, 0, 10000),
            (Schedule::Weekly, 2, 10200),
            (Schedule::Monthly, 14, 10000),
        ]
    );
    // the same window gives the same payments again
    let again = find_payments_for_day(TUESDAY_MIDNIGHT, TUESDAY_MIDNIGHT + 86_400).unwrap();
    assert_eq!(lines(&again), lines(&due));
    let leap_day = find_payments_for_day(LEAP_DAY_MIDNIGHT, LEAP_DAY_MIDNIGHT + 86_400).unwrap();
    assert_eq!(
        lines(&leap_day),
        vec![
            (Schedule::Daily, 0, 10000),
            (Schedule::Weekly, 4, 10200),
            (Schedule::Monthly, 29, 10000),
        ]
    );
}

#[test]
fn lookup_refuses_what_is_not_a_supported_day() {
    let bad = [
        (TUESDAY, TUESDAY + 86_400),
        (TUESDAY_MIDNIGHT, TUESDAY_MIDNIGHT + 86_399),
        (TUESDAY_MIDNIGHT, TUESDAY_MIDNIGHT),
        (TUESDAY_MIDNIGHT + 86_400, TUESDAY_MIDNIGHT),
        (MIN_TIMESTAMP, MIN_TIMESTAMP + 86_400),
        (MAX_TIMESTAMP - 86_399, MAX_TIMESTAMP + 1),
        (i64::MIN, i64::MAX),
        (i64::MAX, i64::MIN),
    ];
    for (start, end) in bad {
        match find_payments_for_day(start, end) {
            Err(ActivityError::NonRetryable { message }) => assert_eq!(
                message,
                "payment lookup needs a whole UTC day inside the supported calendar"
            ),
            other => panic!("unexpected result {:?}", other),
        }
    }
    assert!(find_payments_for_day(-86_400, 0).is_ok());
    assert!(find_payments_for_day(MIN_TIMESTAMP + 86_400, MIN_TIMESTAMP + 172_800).is_ok());
}

#[test]
fn send_payment_reports_the_amount_under_a_fresh_id() {
    let p = payment(Schedule::Daily, 0, 12_345);
    let first = send_payment(&p);
    let second = send_payment(&p);
    assert_eq!(first.amount_in_pence, 12_345);
    assert_eq!(second.amount_in_pence, 12_345);
    assert_ne!(first.transaction_id, second.transaction_id);
    for id in [first.transaction_id, second.transaction_id] {
        assert_eq!((id >> 76) & 0xF, 4, "version of {:032x}", id);
        assert_eq!((id >> 62) & 0x3, 2, "variant of {:032x}", id);
    }
    assert_eq!(send_payment(&payment(Schedule::Weekly, 1, 0)).amount_in_pence, 0);
    assert_eq!(send_payment(&payment(Schedule::Weekly, 1, u32::MAX)).amount_in_pence, u32::MAX);
}

#[test]
fn decimal_numerals() {
    assert_eq!(decimal_string(0), "0");
    assert_eq!(decimal_string(7), "7");
    assert_eq!(decimal_string(9), "9");
    assert_eq!(decimal_string(10), "10");
    assert_eq!(decimal_string(99), "99");
    assert_eq!(decimal_string(100), "100");
    assert_eq!(decimal_string(1_234_567_890), "1234567890");
    assert_eq!(decimal_string(usize::MAX), usize::MAX.to_string());
    assert_eq!(join("a", "b"), "ab");
    assert_eq!(join("", ""), "");
}

#[test]
fn child_workflow_ids_are_numbered() {
    assert_eq!(child_workflow_id(0), "payment_0");
    assert_eq!(child_workflow_id(1), "payment_1");
    assert_eq!(child_workflow_id(12), "payment_12");
    assert_eq!(child_workflow_id(1000), "payment_1000");
    let ids: Vec<String> = (0..300).map(child_workflow_id).collect();
    for (i, id) in ids.iter().enumerate() {
        assert_eq!(*id, format!("payment_{}", i));
        assert!(!ids[..i].contains(id));
    }
}

fn sent(amount_in_pence: u32) -> SendPaymentResult {
    SendPaymentResult { amount_in_pence, transaction_id: amount_in_pence as u128 }
}

fn running(count: u32) -> BatchRun {
    let mut batch = BatchRun::new();
    assert_eq!(batch.phase, BatchPhase::Created);
    assert!(!batch.is_finished());
    batch.step(BatchEvent::Started { now: TUESDAY });
    batch.step(BatchEvent::TimerFired);
    let due: Vec<PaymentData> = (0..count).map(|i| payment(Schedule::Daily, 0, i)).collect();
    batch.step(BatchEvent::LookupFinished(Ok(due)));
    let action = batch.step(BatchEvent::TimerFired);
    assert!(matches!(action, BatchAction::StartPayments(_)));
    assert_eq!(batch.phase, BatchPhase::Running);
    batch
}

#[test]
fn batch_opens_the_window_looks_up_and_fans_out() {
    let mut batch = BatchRun::new();
    let window = DayWindow { start: TUESDAY_MIDNIGHT, end: TUESDAY_MIDNIGHT + 86_400 };

    match batch.step(BatchEvent::Started { now: TUESDAY }) {
        BatchAction::StartTimer { seconds } => {
            assert_eq!(seconds, 5);
            assert_eq!(seconds, SETTLE_SECS);
        }
        other => panic!("unexpected action {:?}", other),
    }
    assert_eq!(batch.phase, BatchPhase::Settling);
    assert_eq!(batch.window, window);

    match batch.step(BatchEvent::TimerFired) {
        BatchAction::FindPayments { window: asked, start_to_close_timeout_secs } => {
            assert_eq!(asked, window);
            assert_eq!(start_to_close_timeout_secs, 60);
        }
        other => panic!("unexpected action {:?}", other),
    }
    assert_eq!(batch.phase, BatchPhase::LookingUp);

    let due = find_payments_for_day(window.start, window.end).unwrap();
    assert!(matches!(
        batch.step(BatchEvent::LookupFinished(Ok(due))),
        BatchAction::StartTimer { seconds: 5 }
    ));
    assert_eq!(batch.phase, BatchPhase::Preparing);
    assert_eq!(amounts(&batch.payments), vec![10000, 10200, 10000]);

    match batch.step(BatchEvent::TimerFired) {
        BatchAction::StartPayments(children) => {
            let ids: Vec<&str> = children.iter().map(|c| c.workflow_id.as_str()).collect();
            assert_eq!(ids, vec!["payment_0", "payment_1", "payment_2"]);
            let started: Vec<PaymentData> = children.iter().map(|c| c.payment.clone()).collect();
            assert_eq!(lines(&started), lines(&batch.payments));
            for (child, due) in children.iter().zip(batch.payments.iter()) {
                assert_eq!(child.payment.sender_id, due.sender_id);
                assert_eq!(child.payment.recipient_id, due.recipient_id);
            }
        }
        other => panic!("unexpected action {:?}", other),
    }
    assert_eq!(batch.phase, BatchPhase::Running);
    assert_eq!(batch.outcomes.len(), 3);
    assert!(batch.outcomes.iter().all(|o| matches!(o, PaymentOutcome::Pending)));
}

#[test]
fn batch_with_a_failed_payment_reports_it_and_completes() {
    let mut batch = running(3);
    assert!(matches!(
        batch.step(BatchEvent::PaymentFinished { index: 0, result: Ok(sent(0)) }),
        BatchAction::Wait
    ));
    assert!(matches!(
        batch.step(BatchEvent::PaymentFinished {
            index: 1,
            result: Err("retries exhausted".to_string())
        }),
        BatchAction::Wait
    ));
    assert_eq!(batch.phase, BatchPhase::Running);
    assert!(!batch.is_finished());
    match batch.step(BatchEvent::PaymentFinished { index: 2, result: Ok(sent(2)) }) {
        BatchAction::Complete(summary) => {
            assert_eq!(summary.succeeded, 2);
            assert_eq!(summary.failed, 1);
            assert_eq!(summary.failures.len(), 1);
            assert_eq!(summary.failures[0].index, 1);
            assert_eq!(summary.failures[0].reason, "retries exhausted");
        }
        other => panic!("unexpected action {:?}", other),
    }
    assert_eq!(batch.phase, BatchPhase::Completed);
    assert!(batch.is_finished());
}

#[test]
fn batch_waits_for_every_payment_in_any_order() {
    let count: usize = 7;
    let failing = [5usize, 0, 3];
    let order = [4usize, 5, 0, 6, 2, 3, 1];
    let mut batch = running(count as u32);
    for (position, index) in order.iter().enumerate() {
        let result = if failing.contains(index) {
            Err(format!("payment {} declined", index))
        } else {
            Ok(sent(*index as u32))
        };
        let action = batch.step(BatchEvent::PaymentFinished { index: *index, result });
        if position + 1 < count {
            assert!(matches!(action, BatchAction::Wait));
            assert_eq!(batch.phase, BatchPhase::Running);
        } else {
            match action {
                BatchAction::Complete(summary) => {
                    assert_eq!(summary.failed, failing.len());
                    assert_eq!(summary.succeeded, count - failing.len());
                    let failed: Vec<(usize, &str)> = summary
                        .failures
                        .iter()
                        .map(|f| (f.index, f.reason.as_str()))
                        .collect();
                    assert_eq!(
                        failed,
                        vec![
                            (0, "payment 0 declined"),
                            (3, "payment 3 declined"),
                            (5, "payment 5 declined")
                        ]
                    );
                }
                other => panic!("unexpected action {:?}", other),
            }
        }
    }
    assert!(batch.is_finished());
}

#[test]
fn batch_where_every_payment_fails_still_completes() {
    let mut batch = running(2);
    batch.step(BatchEvent::PaymentFinished { index: 1, result: Err("a".to_string()) });
    match batch.step(BatchEvent::PaymentFinished { index: 0, result: Err("b".to_string()) }) {
        BatchAction::Complete(summary) => {
            assert_eq!(summary.succeeded, 0);
            assert_eq!(summary.failed, 2);
            assert_eq!(summary.failures[0].reason, "b");
            assert_eq!(summary.failures[1].reason, "a");
        }
        other => panic!("unexpected action {:?}", other),
    }
}

#[test]
fn batch_records_each_payment_once() {
    let mut batch = running(2);
    batch.step(BatchEvent::PaymentFinished { index: 0, result: Ok(sent(7)) });
    // a second end of the same payment, and an end of a payment that was never started
    for index in [0usize, 2, 9, usize::MAX] {
        let action =
            batch.step(BatchEvent::PaymentFinished { index, result: Err("late".to_string()) });
        assert!(matches!(action, BatchAction::Wait));
        assert_eq!(batch.phase, BatchPhase::Running);
    }
    assert!(matches!(&batch.outcomes[0], PaymentOutcome::Succeeded(r) if r.amount_in_pence == 7));
    match batch.step(BatchEvent::PaymentFinished { index: 1, result: Ok(sent(8)) }) {
        BatchAction::Complete(summary) => {
            assert_eq!((summary.succeeded, summary.failed), (2, 0));
            assert!(summary.failures.is_empty());
        }
        other => panic!("unexpected action {:?}", other),
    }
    // a finished batch does nothing more
    for event in [
        BatchEvent::PaymentFinished { index: 1, result: Ok(sent(8)) },
        BatchEvent::TimerFired,
        BatchEvent::Started { now: TUESDAY },
        BatchEvent::LookupFinished(Ok(Vec::new())),
    ] {
        assert!(matches!(batch.step(event), BatchAction::Wait));
        assert_eq!(batch.phase, BatchPhase::Completed);
    }
}

#[test]
fn batch_without_due_payments_completes_at_once() {
    let mut batch = BatchRun::new();
    batch.step(BatchEvent::Started { now: TUESDAY });
    batch.step(BatchEvent::TimerFired);
    batch.step(BatchEvent::LookupFinished(Ok(Vec::new())));
    match batch.step(BatchEvent::TimerFired) {
        BatchAction::Complete(summary) => {
            assert_eq!((summary.succeeded, summary.failed), (0, 0));
            assert!(summary.failures.is_empty());
        }
        other => panic!("unexpected action {:?}", other),
    }
    assert!(batch.is_finished());
}

#[test]
fn batch_fails_when_the_lookup_fails() {
    let mut batch = BatchRun::new();
    batch.step(BatchEvent::Started { now: TUESDAY });
    batch.step(BatchEvent::TimerFired);
    match batch.step(BatchEvent::LookupFinished(Err("database offline".to_string()))) {
        BatchAction::Fail(reason) => assert_eq!(reason, "database offline"),
        other => panic!("unexpected action {:?}", other),
    }
    assert_eq!(batch.phase, BatchPhase::Failed);
    assert!(batch.is_finished());
    assert!(matches!(batch.step(BatchEvent::TimerFired), BatchAction::Wait));
}

#[test]
fn batch_started_outside_the_calendar_fails() {
    for now in [MIN_TIMESTAMP - 1, MAX_TIMESTAMP + 1, i64::MIN, i64::MAX] {
        let mut batch = BatchRun::new();
        match batch.step(BatchEvent::Started { now }) {
            BatchAction::Fail(reason) => {
                assert_eq!(reason, "the batch was started outside the supported calendar")
            }
            other => panic!("unexpected action {:?}", other),
        }
        assert_eq!(batch.phase, BatchPhase::Failed);
    }
}

#[test]
fn batch_ignores_events_out_of_turn() {
    let mut batch = BatchRun::new();
    for event in [
        BatchEvent::TimerFired,
        BatchEvent::LookupFinished(Ok(vec![payment(Schedule::Daily, 0, 1)])),
        BatchEvent::PaymentFinished { index: 0, result: Ok(sent(1)) },
    ] {
        assert!(matches!(batch.step(event), BatchAction::Wait));
        assert_eq!(batch.phase, BatchPhase::Created);
        assert!(batch.payments.is_empty());
    }
    batch.step(BatchEvent::Started { now: TUESDAY });
    assert!(matches!(batch.step(BatchEvent::Started { now: 0 }), BatchAction::Wait));
    assert_eq!(batch.window.start, TUESDAY_MIDNIGHT);
}

#[test]
fn summary_counts_successes_and_failures() {
    let outcomes = vec![
        PaymentOutcome::Failed("first".to_string()),
        PaymentOutcome::Succeeded(sent(1)),
        PaymentOutcome::Pending,
        PaymentOutcome::Failed("second".to_string()),
        PaymentOutcome::Succeeded(sent(2)),
        PaymentOutcome::Succeeded(sent(3)),
    ];
    let summary = summarize(&outcomes);
    assert_eq!(summary.succeeded, 3);
    assert_eq!(summary.failed, 2);
    let failed: Vec<(usize, &str)> =
        summary.failures.iter().map(|f| (f.index, f.reason.as_str())).collect();
    assert_eq!(failed, vec![(0, "first"), (3, "second")]);
    let empty = summarize(&Vec::new());
    assert_eq!((empty.succeeded, empty.failed, empty.failures.len()), (0, 0, 0));
}

#[test]
fn make_payment_sends_once_and_returns_the_result() {
    let mut workflow = MakePayment::new(payment(Schedule::Weekly, 2, 10200));
    assert_eq!(workflow.phase, PaymentPhase::Created);
    match workflow.step(PaymentEvent::Started) {
        PaymentAction::SendPayment { payment, start_to_close_timeout_secs } => {
            assert_eq!(payment.amount_in_pence, 10200);
            assert_eq!(payment.schedule, Schedule::Weekly);
            assert_eq!(payment.schedule_time, 2);
            assert_eq!(payment.sender_id, "sender-10200");
            assert_eq!(payment.recipient_id, "recipient-10200");
            assert_eq!(start_to_close_timeout_secs, 60);
        }
        other => panic!("unexpected action {:?}", other),
    }
    assert_eq!(workflow.phase, PaymentPhase::Sending);
    assert!(matches!(workflow.step(PaymentEvent::Started), PaymentAction::Wait));
    let result = send_payment(&workflow.payment);
    match workflow.step(PaymentEvent::SendFinished(Ok(result))) {
        PaymentAction::Complete(done) => assert_eq!(done, result),
        other => panic!("unexpected action {:?}", other),
    }
    assert_eq!(workflow.phase, PaymentPhase::Succeeded);
    assert!(matches!(workflow.step(PaymentEvent::Started), PaymentAction::Wait));
    assert!(matches!(workflow.step(PaymentEvent::SendFinished(Ok(result))), PaymentAction::Wait));
    assert_eq!(workflow.phase, PaymentPhase::Succeeded);
}

#[test]
fn make_payment_fails_with_the_last_error_of_the_activity() {
    let mut workflow = MakePayment::new(payment(Schedule::Daily, 0, 1));
    assert!(matches!(
        workflow.step(PaymentEvent::SendFinished(Err("early".to_string()))),
        PaymentAction::Wait
    ));
    assert_eq!(workflow.phase, PaymentPhase::Created);
    workflow.step(PaymentEvent::Started);
    match workflow.step(PaymentEvent::SendFinished(Err("insufficient funds".to_string()))) {
        PaymentAction::Fail(reason) => assert_eq!(reason, "insufficient funds"),
        other => panic!("unexpected action {:?}", other),
    }
    assert_eq!(workflow.phase, PaymentPhase::Failed);
    // nothing is retried here
    assert!(matches!(workflow.step(PaymentEvent::Started), PaymentAction::Wait));
    assert!(matches!(
        workflow.step(PaymentEvent::SendFinished(Ok(sent(1)))),
        PaymentAction::Wait
    ));
    assert_eq!(workflow.phase, PaymentPhase::Failed);
}

#[test]
fn payment_actions_name_what_they_run() {
    let window = DayWindow { start: 0, end: 86_400 };
    let find = BatchAction::FindPayments { window, start_to_close_timeout_secs: 60 };
    assert_eq!(find.activity(), Some(ActivityKind::FindPaymentsForDay));
    assert_eq!(find.child_workflow(), None);
    let start = BatchAction::StartPayments(Vec::new());
    assert_eq!(start.activity(), None);
    assert_eq!(start.child_workflow(), Some(WorkflowKind::MakePayment));
    for action in [BatchAction::Wait, BatchAction::StartTimer { seconds: 5 }] {
        assert_eq!(action.activity(), None);
        assert_eq!(action.child_workflow(), None);
    }
    let send = PaymentAction::SendPayment {
        payment: payment(Schedule::Daily, 0, 1),
        start_to_close_timeout_secs: 60,
    };
    assert_eq!(send.activity(), Some(ActivityKind::SendPayment));
    assert_eq!(PaymentAction::Wait.activity(), None);
    assert_eq!(PaymentAction::Complete(sent(1)).activity(), None);
    assert_eq!(PaymentAction::Fail("x".to_string()).activity(), None);
}

#[test]
fn clock_agrees_with_the_calendar_library() {
    let mut instants: Vec<i64> = vec![
        MIN_TIMESTAMP,
        MIN_TIMESTAMP + 1,
        -86_401,
        -86_400,
        -1,
        0,
        1,
        86_399,
        86_400,
        951_782_400,
        TUESDAY,
        LEAP_DAY_MIDNIGHT,
        MAX_TIMESTAMP - 1,
        MAX_TIMESTAMP,
    ];
    let mut at: i64 = -3_000_000_000;
    while at < 5_000_000_000 {
        instants.push(at);
        at += 7_654_321;
    }
    for ts in instants {
        let instant = chrono::DateTime::from_timestamp(ts, 0).unwrap();
        let midnight = instant.date_naive().and_hms_opt(0, 0, 0).unwrap().and_utc();
        let window = day_window(ts).unwrap();
        assert_eq!(window.start, midnight.timestamp(), "start of the day of {}", ts);
        if ts <= MAX_TIMESTAMP - 86_400 {
            assert_eq!(window.end, (midnight + chrono::Duration::days(1)).timestamp());
        } else {
            assert_eq!(window.end, window.start + 86_400);
        }
        let day = calendar_day(ts).unwrap();
        assert_eq!(day.weekday, chrono::Datelike::weekday(&instant).number_from_monday());
        assert_eq!(day.day_of_month, chrono::Datelike::day(&instant));
        assert_eq!(calendar_day(window.start), Some(day));
    }
}
