use durable_workflows::food_ordering::constants::{
    Queries, Signals, Updates, ORDER_FOOD_TASK_QUEUE,
};
use durable_workflows::food_ordering::types::{
    get_sample_products, Address, OrderError, OrderProduct, OrderState, OrderStatus,
};
use durable_workflows::runtime::ActivityKind;
use durable_workflows::food_ordering::workflows::{
    Command, CommandReply, CommandStyle, OrderAction, OrderEvent, OrderPhase, OrderWorkflow, Rejection,
    FULFILMENT_WAIT_SECS,
};

fn item(product_id: u32, quantity: u32) -> OrderProduct {
    OrderProduct { product_id, quantity }
}

fn cart(state: &OrderState) -> Vec<(u32, u32)> {
    state.products.iter().map(|p| (p.product_id, p.quantity)).collect()
}

#[test]
fn test_order_state_operations() {
    let mut order_state = OrderState::new();
    order_state.email = "test@example.com".to_string();
    order_state.collection = false;

    // Test adding items
    order_state.add_item(OrderProduct { product_id: 1, quantity: 2 }).unwrap();

    order_state.add_item(OrderProduct { product_id: 2, quantity: 1 }).unwrap();

    // Test adding same item (should increase quantity)
    order_state.add_item(OrderProduct { product_id: 1, quantity: 1 }).unwrap();

    assert_eq!(order_state.products.len(), 2);
    assert_eq!(order_state.products[0].quantity, 3); // 2 + 1
    assert_eq!(order_state.products[1].quantity, 1);

    // Test removing items
    order_state.remove_item(OrderProduct { product_id: 1, quantity: 1 }).unwrap();

    assert_eq!(order_state.products[0].quantity, 2); // 3 - 1

    // Test removing all of an item
    order_state.remove_item(OrderProduct { product_id: 1, quantity: 2 }).unwrap();

    assert_eq!(order_state.products.len(), 1); // Should only have product_id 2 left
    assert_eq!(order_state.email, "test@example.com");
}

#[test]
fn test_order_status_parsing() {
    // Test parsing from string
    assert_eq!("DEFAULT".parse::<OrderStatus>().unwrap(), OrderStatus::Default);
    assert_eq!("PENDING".parse::<OrderStatus>().unwrap(), OrderStatus::Pending);
    assert_eq!("ACCEPTED".parse::<OrderStatus>().unwrap(), OrderStatus::Accepted);
    assert_eq!("PREPARING".parse::<OrderStatus>().unwrap(), OrderStatus::Preparing);
    assert_eq!("READY".parse::<OrderStatus>().unwrap(), OrderStatus::Ready);
    assert_eq!("COMPLETED".parse::<OrderStatus>().unwrap(), OrderStatus::Completed);
    assert_eq!("REJECTED".parse::<OrderStatus>().unwrap(), OrderStatus::Rejected);

    // Test case insensitive parsing
    assert_eq!("default".parse::<OrderStatus>().unwrap(), OrderStatus::Default);
    assert_eq!("pending".parse::<OrderStatus>().unwrap(), OrderStatus::Pending);

    // Test invalid status
    assert!("INVALID".parse::<OrderStatus>().is_err());

    // Test display formatting
    assert_eq!(OrderStatus::Default.to_string(), "DEFAULT");
    assert_eq!(OrderStatus::Pending.to_string(), "PENDING");
}

#[test]
fn order_status_names_round_trip() {
    let all = [
        (OrderStatus::Default, "DEFAULT"),
        (OrderStatus::Pending, "PENDING"),
        (OrderStatus::Accepted, "ACCEPTED"),
        (OrderStatus::Preparing, "PREPARING"),
        (OrderStatus::Ready, "READY"),
        (OrderStatus::Completed, "COMPLETED"),
        (OrderStatus::Rejected, "REJECTED"),
    ];
    for (status, name) in all {
        assert_eq!(status.as_str(), name);
        assert_eq!(status.to_string(), name);
        assert_eq!(OrderStatus::from_upper(name), Some(status));
        assert_eq!(OrderStatus::parse(name), Ok(status));
        assert_eq!(OrderStatus::parse(&name.to_lowercase()), Ok(status));
    }
    assert_eq!(OrderStatus::from_upper("pending"), None);
    assert_eq!(OrderStatus::from_upper(""), None);
}

#[test]
fn order_status_parse_follows_unicode_upper_case() {
    // The dotless i has the ASCII capital I as its upper case.
    assert_eq!(OrderStatus::parse("pend\u{131}ng"), Ok(OrderStatus::Pending));
    assert_eq!(OrderStatus::parse("Ready"), Ok(OrderStatus::Ready));
}

#[test]
fn order_status_parse_error_quotes_the_input() {
    assert_eq!(OrderStatus::parse("INVALID"), Err("Invalid status: INVALID".to_string()));
    assert_eq!(OrderStatus::parse("cooking"), Err("Invalid status: cooking".to_string()));
    assert_eq!(OrderStatus::parse(""), Err("Invalid status: ".to_string()));
    assert_eq!(OrderStatus::parse(" PENDING"), Err("Invalid status:  PENDING".to_string()));
}

#[test]
fn terminal_statuses() {
    assert!(OrderStatus::Completed.is_terminal());
    assert!(OrderStatus::Rejected.is_terminal());
    assert!(!OrderStatus::Default.is_terminal());
    assert!(!OrderStatus::Pending.is_terminal());
    assert!(!OrderStatus::Accepted.is_terminal());
    assert!(!OrderStatus::Preparing.is_terminal());
    assert!(!OrderStatus::Ready.is_terminal());
}

#[test]
fn order_error_names() {
    assert_eq!(OrderError::InvalidArgument.as_str(), "InvalidArgument");
    assert_eq!(OrderError::InvalidStateTransition.as_str(), "InvalidStateTransition");
}

#[test]
fn new_order_is_empty_and_unpaid() {
    let state = OrderState::new();
    assert!(!state.collection);
    assert!(state.delivery_address.is_none());
    assert_eq!(state.email, "");
    assert!(state.products.is_empty());
    assert_eq!(state.status, OrderStatus::Default);
}

#[test]
fn cart_scenario() {
    let mut state = OrderState::new();
    assert_eq!(state.add_item(item(1, 2)), Ok(()));
    assert_eq!(state.add_item(item(2, 1)), Ok(()));
    assert_eq!(state.add_item(item(1, 1)), Ok(()));
    assert_eq!(cart(&state), vec![(1, 3), (2, 1)]);
    assert_eq!(state.remove_item(item(1, 1)), Ok(()));
    assert_eq!(cart(&state), vec![(1, 2), (2, 1)]);
    assert_eq!(state.remove_item(item(1, 5)), Ok(()));
    assert_eq!(cart(&state), vec![(2, 1)]);
}

#[test]
fn add_item_of_nothing_is_invalid_argument() {
    let mut state = OrderState::new();
    state.add_item(item(7, 4)).unwrap();
    assert_eq!(state.add_item(item(7, 0)), Err(OrderError::InvalidArgument));
    assert_eq!(state.add_item(item(8, 0)), Err(OrderError::InvalidArgument));
    assert_eq!(cart(&state), vec![(7, 4)]);
    // the argument is judged before the status
    state.status = OrderStatus::Pending;
    assert_eq!(state.add_item(item(8, 0)), Err(OrderError::InvalidArgument));
}

#[test]
fn add_item_stops_at_the_largest_quantity() {
    let mut state = OrderState::new();
    state.add_item(item(1, u32::MAX - 1)).unwrap();
    state.add_item(item(1, 1)).unwrap();
    assert_eq!(cart(&state), vec![(1, u32::MAX)]);
    state.add_item(item(1, 1)).unwrap();
    assert_eq!(cart(&state), vec![(1, u32::MAX)]);
    state.add_item(item(1, u32::MAX)).unwrap();
    assert_eq!(cart(&state), vec![(1, u32::MAX)]);
    state.add_item(item(2, u32::MAX)).unwrap();
    assert_eq!(cart(&state), vec![(1, u32::MAX), (2, u32::MAX)]);
}

#[test]
fn cart_is_closed_once_the_order_is_paid() {
    for status in [
        OrderStatus::Pending,
        OrderStatus::Accepted,
        OrderStatus::Preparing,
        OrderStatus::Ready,
        OrderStatus::Completed,
        OrderStatus::Rejected,
    ] {
        let mut state = OrderState::new();
        state.add_item(item(1, 2)).unwrap();
        state.status = status;
        assert_eq!(state.add_item(item(1, 1)), Err(OrderError::InvalidStateTransition));
        assert_eq!(state.add_item(item(3, 1)), Err(OrderError::InvalidStateTransition));
        assert_eq!(state.remove_item(item(1, 1)), Err(OrderError::InvalidStateTransition));
        assert_eq!(cart(&state), vec![(1, 2)]);
        assert_eq!(state.status, status);
    }
}

#[test]
fn remove_item_of_a_missing_product_changes_nothing() {
    let mut state = OrderState::new();
    assert_eq!(state.remove_item(item(1, 1)), Ok(()));
    assert!(state.products.is_empty());
    state.add_item(item(1, 2)).unwrap();
    assert_eq!(state.remove_item(item(9, 1)), Ok(()));
    assert_eq!(cart(&state), vec![(1, 2)]);
    assert_eq!(state.remove_item(item(1, 0)), Ok(()));
    assert_eq!(cart(&state), vec![(1, 2)]);
}

#[test]
fn remove_item_beyond_the_quantity_removes_the_line() {
    let mut state = OrderState::new();
    state.add_item(item(1, 2)).unwrap();
    state.add_item(item(2, 5)).unwrap();
    state.add_item(item(3, 1)).unwrap();
    state.remove_item(item(2, u32::MAX)).unwrap();
    assert_eq!(cart(&state), vec![(1, 2), (3, 1)]);
    state.remove_item(item(1, 2)).unwrap();
    assert_eq!(cart(&state), vec![(3, 1)]);
    state.remove_item(item(3, 2)).unwrap();
    assert!(state.products.is_empty());
}

#[test]
fn remove_item_shrinks_every_line_of_a_product() {
    // A cart written by hand may hold two lines of one product.
    let mut state = OrderState::new();
    state.products = vec![item(1, 5), item(2, 1), item(1, 2), item(1, 3)];
    state.remove_item(item(1, 2)).unwrap();
    assert_eq!(cart(&state), vec![(1, 3), (2, 1), (1, 1)]);
    // and an addition goes to the first of them
    state.add_item(item(1, 4)).unwrap();
    assert_eq!(cart(&state), vec![(1, 7), (2, 1), (1, 1)]);
}

#[test]
fn adding_a_product_twice_gives_one_line_with_the_sum() {
    let mut first = OrderState::new();
    first.add_item(item(4, 3)).unwrap();
    first.add_item(item(4, 9)).unwrap();
    let mut second = OrderState::new();
    second.add_item(item(4, 9)).unwrap();
    second.add_item(item(4, 3)).unwrap();
    let mut once = OrderState::new();
    once.add_item(item(4, 12)).unwrap();
    assert_eq!(cart(&first), vec![(4, 12)]);
    assert_eq!(cart(&second), vec![(4, 12)]);
    assert_eq!(cart(&once), vec![(4, 12)]);
}

#[test]
fn no_line_of_the_cart_ever_has_quantity_zero() {
    let mut state = OrderState::new();
    let mut step: u32 = 0;
    while step < 400 {
        let product_id = (step * 7) % 5;
        let quantity = (step * 13) % 4;
        if step % 3 == 0 {
            let _ = state.remove_item(item(product_id, quantity));
        } else {
            let _ = state.add_item(item(product_id, quantity));
        }
        let mut seen: Vec<u32> = Vec::new();
        for line in &state.products {
            assert!(line.quantity > 0);
            assert!(!seen.contains(&line.product_id));
            seen.push(line.product_id);
        }
        step += 1;
    }
}

#[test]
fn update_status_follows_the_table() {
    let all = [
        OrderStatus::Default,
        OrderStatus::Pending,
        OrderStatus::Accepted,
        OrderStatus::Preparing,
        OrderStatus::Ready,
        OrderStatus::Completed,
        OrderStatus::Rejected,
    ];
    let legal = [
        (OrderStatus::Pending, OrderStatus::Accepted),
        (OrderStatus::Accepted, OrderStatus::Preparing),
        (OrderStatus::Preparing, OrderStatus::Ready),
        (OrderStatus::Ready, OrderStatus::Completed),
        (OrderStatus::Pending, OrderStatus::Rejected),
        (OrderStatus::Accepted, OrderStatus::Rejected),
        (OrderStatus::Preparing, OrderStatus::Rejected),
    ];
    for from in all {
        for to in all {
            let mut state = OrderState::new();
            state.products = vec![item(1, 1)];
            state.status = from;
            let result = state.update_status(to);
            assert_eq!(from.can_advance_to(to), legal.contains(&(from, to)));
            if legal.contains(&(from, to)) {
                assert_eq!(result, Ok(()));
                assert_eq!(state.status, to);
            } else {
                assert_eq!(result, Err(OrderError::InvalidStateTransition));
                assert_eq!(state.status, from);
            }
            assert_eq!(cart(&state), vec![(1, 1)]);
        }
    }
}

#[test]
fn clone_copies_the_whole_order() {
    let mut state = OrderState::new();
    state.collection = true;
    state.email = "a@b.c".to_string();
    state.delivery_address = Some(Address {
        line1: "123 Test St".to_string(),
        line2: None,
        line3: Some("Flat 2".to_string()),
        town: "Test City".to_string(),
        county: None,
        post_code: "12345".to_string(),
    });
    state.add_item(item(1, 2)).unwrap();
    state.add_item(item(5, 1)).unwrap();
    let copy = state.clone();
    assert_eq!(copy.collection, true);
    assert_eq!(copy.email, "a@b.c");
    assert_eq!(cart(&copy), vec![(1, 2), (5, 1)]);
    assert_eq!(copy.status, OrderStatus::Default);
    let address = copy.delivery_address.unwrap();
    assert_eq!(address.line1, "123 Test St");
    assert_eq!(address.line2, None);
    assert_eq!(address.line3, Some("Flat 2".to_string()));
    assert_eq!(address.town, "Test City");
    assert_eq!(address.county, None);
    assert_eq!(address.post_code, "12345");
}

#[test]
fn sample_products_are_the_menu() {
    let products = get_sample_products();
    let listed: Vec<(u32, &str, u32)> =
        products.iter().map(|p| (p.product_id, p.name.as_str(), p.price)).collect();
    assert_eq!(
        listed,
        vec![
            (1, "Margherita Pizza", 1299),
            (2, "Pepperoni Pizza", 1499),
            (3, "Caesar Salad", 899),
            (4, "Chicken Wings", 999),
            (5, "Coca Cola", 299),
        ]
    );
}

#[test]
fn order_names() {
    assert_eq!(ORDER_FOOD_TASK_QUEUE, "order-food");
    assert_eq!(Queries::GET_STATUS, "GET_STATUS");
    assert_eq!(Signals::CHECKOUT, "CHECKOUT");
    assert_eq!(Updates::ADD_ITEM, "ADD_ITEM");
    assert_eq!(Updates::REMOVE_ITEM, "REMOVE_ITEM");
    assert_eq!(Updates::UPDATE_STATUS, "UPDATE_STATUS");
}

fn shopped() -> OrderWorkflow {
    let mut state = OrderState::new();
    state.email = "test@example.com".to_string();
    // whatever status the input carries, the order starts unpaid
    state.status = OrderStatus::Ready;
    let mut order = OrderWorkflow::new(state);
    assert_eq!(order.state.status, OrderStatus::Default);
    assert_eq!(order.phase, OrderPhase::Shopping);
    assert!(matches!(order.handle(Command::AddItem(item(1, 2))).reply, CommandReply::Done));
    assert!(matches!(order.handle(Command::AddItem(item(2, 1))).reply, CommandReply::Done));
    order
}

fn paid() -> OrderWorkflow {
    let mut order = shopped();
    order.handle(Command::Checkout);
    order.on_event(OrderEvent::PaymentFinished(Ok(())));
    order.on_event(OrderEvent::NotificationFinished(Ok(())));
    assert_eq!(order.phase, OrderPhase::AwaitingFulfilment);
    assert_eq!(order.state.status, OrderStatus::Pending);
    order
}

#[test]
fn checkout_runs_the_order_to_completion() {
    let mut order = shopped();
    let checked_out = order.handle(Command::Checkout);
    assert!(matches!(checked_out.reply, CommandReply::Signalled));
    assert!(matches!(
        checked_out.action,
        OrderAction::TakePayment { start_to_close_timeout_secs: 60 }
    ));
    assert_eq!(order.phase, OrderPhase::TakingPayment);
    assert_eq!(order.state.status, OrderStatus::Default);

    match order.on_event(OrderEvent::PaymentFinished(Ok(()))) {
        OrderAction::SendTextMessage { state, start_to_close_timeout_secs } => {
            assert_eq!(state.status, OrderStatus::Pending);
            assert_eq!(cart(&state), vec![(1, 2), (2, 1)]);
            assert_eq!(state.email, "test@example.com");
            assert_eq!(start_to_close_timeout_secs, 60);
        }
        other => panic!("unexpected action {:?}", other),
    }
    assert_eq!(order.state.status, OrderStatus::Pending);

    match order.on_event(OrderEvent::NotificationFinished(Ok(()))) {
        OrderAction::StartTimer { seconds } => {
            assert_eq!(seconds, 10);
            assert_eq!(seconds, FULFILMENT_WAIT_SECS);
        }
        other => panic!("unexpected action {:?}", other),
    }

    match order.on_event(OrderEvent::FulfilmentDue) {
        OrderAction::SendTextMessage { state, .. } => {
            assert_eq!(state.status, OrderStatus::Completed);
        }
        other => panic!("unexpected action {:?}", other),
    }
    assert_eq!(order.state.status, OrderStatus::Completed);
    assert!(!order.is_closed());

    assert!(matches!(
        order.on_event(OrderEvent::NotificationFinished(Ok(()))),
        OrderAction::Finish
    ));
    assert!(order.is_closed());
    assert!(order.rejection.is_none());
    assert!(!order.refund_failed);
    assert_eq!(order.notifications_failed, 0);
}

#[test]
fn failed_payment_rejects_the_order_and_refunds_once() {
    let mut order = shopped();
    order.handle(Command::Checkout);
    let mut refunds = 0;
    let action = order.on_event(OrderEvent::PaymentFinished(Err("card declined".to_string())));
    if matches!(action, OrderAction::RefundPayment { start_to_close_timeout_secs: 60 }) {
        refunds += 1;
    }
    assert_eq!(order.state.status, OrderStatus::Rejected);
    assert_eq!(order.phase, OrderPhase::Refunding);
    match &order.rejection {
        Some(Rejection::PaymentFailed(reason)) => assert_eq!(reason, "card declined"),
        other => panic!("unexpected rejection {:?}", other),
    }
    // nothing that arrives now asks for another refund
    for event in [
        OrderEvent::PaymentFinished(Err("again".to_string())),
        OrderEvent::PaymentFinished(Ok(())),
        OrderEvent::FulfilmentDue,
        OrderEvent::NotificationFinished(Ok(())),
    ] {
        let action = order.on_event(event);
        assert!(matches!(action, OrderAction::Wait));
    }
    assert!(matches!(order.handle(Command::Checkout).action, OrderAction::Wait));
    assert!(matches!(order.on_event(OrderEvent::RefundFinished(Ok(()))), OrderAction::Finish));
    assert!(matches!(order.on_event(OrderEvent::RefundFinished(Ok(()))), OrderAction::Wait));
    assert_eq!(refunds, 1);
    assert_eq!(order.state.status, OrderStatus::Rejected);
    assert!(order.is_closed());
    assert!(!order.refund_failed);
}

#[test]
fn failed_refund_does_not_block_the_end() {
    let mut order = shopped();
    order.handle(Command::Checkout);
    order.on_event(OrderEvent::PaymentFinished(Err("card declined".to_string())));
    let action = order.on_event(OrderEvent::RefundFinished(Err("bank offline".to_string())));
    assert!(matches!(action, OrderAction::Finish));
    assert!(order.is_closed());
    assert!(order.refund_failed);
    assert_eq!(order.state.status, OrderStatus::Rejected);
}

#[test]
fn a_message_that_cannot_be_sent_is_counted() {
    let mut order = shopped();
    order.handle(Command::Checkout);
    order.on_event(OrderEvent::PaymentFinished(Ok(())));
    let action = order.on_event(OrderEvent::NotificationFinished(Err("no signal".to_string())));
    assert!(matches!(action, OrderAction::StartTimer { seconds: 10 }));
    assert_eq!(order.notifications_failed, 1);
    order.on_event(OrderEvent::FulfilmentDue);
    let action = order.on_event(OrderEvent::NotificationFinished(Err("no signal".to_string())));
    assert!(matches!(action, OrderAction::Finish));
    assert_eq!(order.notifications_failed, 2);
    assert_eq!(order.state.status, OrderStatus::Completed);
}

#[test]
fn cart_commands_through_the_workflow() {
    let mut order = shopped();
    let refused = order.handle(Command::AddItem(item(3, 0)));
    assert!(matches!(refused.reply, CommandReply::Refused(OrderError::InvalidArgument)));
    assert!(matches!(refused.action, OrderAction::Wait));
    assert!(matches!(order.handle(Command::AddItem(item(1, 1))).reply, CommandReply::Done));
    assert!(matches!(order.handle(Command::RemoveItem(item(2, 1))).reply, CommandReply::Done));
    assert!(matches!(order.handle(Command::RemoveItem(item(9, 1))).reply, CommandReply::Done));
    assert_eq!(cart(&order.state), vec![(1, 3)]);

    // once checked out, the cart is closed, although the order is still unpaid
    order.handle(Command::Checkout);
    assert_eq!(order.state.status, OrderStatus::Default);
    for command in [Command::AddItem(item(1, 1)), Command::RemoveItem(item(1, 1))] {
        let refused = order.handle(command);
        assert!(matches!(
            refused.reply,
            CommandReply::Refused(OrderError::InvalidStateTransition)
        ));
    }
    // an addition of nothing is still an invalid argument
    assert!(matches!(
        order.handle(Command::AddItem(item(1, 0))).reply,
        CommandReply::Refused(OrderError::InvalidArgument)
    ));
    assert_eq!(cart(&order.state), vec![(1, 3)]);
    // a second checkout is ignored
    let again = order.handle(Command::Checkout);
    assert!(matches!(again.reply, CommandReply::Signalled));
    assert!(matches!(again.action, OrderAction::Wait));
    assert_eq!(order.phase, OrderPhase::TakingPayment);
}

#[test]
fn status_updates_before_payment_are_refused() {
    let mut order = shopped();
    for status in [
        OrderStatus::Default,
        OrderStatus::Pending,
        OrderStatus::Accepted,
        OrderStatus::Completed,
        OrderStatus::Rejected,
    ] {
        let refused = order.handle(Command::UpdateStatus(status));
        assert!(matches!(
            refused.reply,
            CommandReply::Refused(OrderError::InvalidStateTransition)
        ));
        assert_eq!(order.state.status, OrderStatus::Default);
    }
}

#[test]
fn the_restaurant_drives_a_paid_order() {
    let mut order = paid();
    // out of order
    let refused = order.handle(Command::UpdateStatus(OrderStatus::Ready));
    assert!(matches!(refused.reply, CommandReply::Refused(OrderError::InvalidStateTransition)));
    assert_eq!(order.state.status, OrderStatus::Pending);
    for status in [
        OrderStatus::Accepted,
        OrderStatus::Preparing,
        OrderStatus::Ready,
        OrderStatus::Completed,
    ] {
        let done = order.handle(Command::UpdateStatus(status));
        assert!(matches!(done.reply, CommandReply::Done));
        assert!(matches!(done.action, OrderAction::Wait));
        assert_eq!(order.state.status, status);
    }
    // completed is final
    for status in [OrderStatus::Rejected, OrderStatus::Ready, OrderStatus::Completed] {
        let refused = order.handle(Command::UpdateStatus(status));
        assert!(matches!(
            refused.reply,
            CommandReply::Refused(OrderError::InvalidStateTransition)
        ));
    }
    // the end of the wait changes nothing of the order and has the customer told
    match order.on_event(OrderEvent::FulfilmentDue) {
        OrderAction::SendTextMessage { state, .. } => {
            assert_eq!(state.status, OrderStatus::Completed)
        }
        other => panic!("unexpected action {:?}", other),
    }
    assert!(order.rejection.is_none());
}

#[test]
fn the_restaurant_rejects_a_paid_order() {
    let mut order = paid();
    order.handle(Command::UpdateStatus(OrderStatus::Accepted));
    let done = order.handle(Command::UpdateStatus(OrderStatus::Rejected));
    assert!(matches!(done.reply, CommandReply::Done));
    assert_eq!(order.state.status, OrderStatus::Rejected);
    assert!(matches!(order.rejection, Some(Rejection::Kitchen)));
    match order.on_event(OrderEvent::FulfilmentDue) {
        OrderAction::SendTextMessage { state, .. } => {
            assert_eq!(state.status, OrderStatus::Rejected)
        }
        other => panic!("unexpected action {:?}", other),
    }
    assert_eq!(order.state.status, OrderStatus::Rejected);
    assert!(matches!(
        order.on_event(OrderEvent::NotificationFinished(Ok(()))),
        OrderAction::Finish
    ));
}

#[test]
fn a_ready_order_cannot_be_rejected() {
    let mut order = paid();
    order.handle(Command::UpdateStatus(OrderStatus::Accepted));
    order.handle(Command::UpdateStatus(OrderStatus::Preparing));
    order.handle(Command::UpdateStatus(OrderStatus::Ready));
    let refused = order.handle(Command::UpdateStatus(OrderStatus::Rejected));
    assert!(matches!(refused.reply, CommandReply::Refused(OrderError::InvalidStateTransition)));
    assert_eq!(order.state.status, OrderStatus::Ready);
}

#[test]
fn get_status_reads_the_order_and_changes_nothing() {
    let mut order = paid();
    let direct = order.get_status();
    let first = order.handle(Command::GetStatus);
    let second = order.handle(Command::GetStatus);
    assert!(matches!(first.action, OrderAction::Wait));
    assert!(matches!(second.action, OrderAction::Wait));
    for reply in [first.reply, second.reply] {
        match reply {
            CommandReply::Status(state) => {
                assert_eq!(state.status, OrderStatus::Pending);
                assert_eq!(cart(&state), vec![(1, 2), (2, 1)]);
                assert_eq!(state.email, "test@example.com");
                assert_eq!(state.collection, false);
                assert!(state.delivery_address.is_none());
            }
            other => panic!("unexpected reply {:?}", other),
        }
    }
    assert_eq!(direct.status, OrderStatus::Pending);
    assert_eq!(cart(&direct), vec![(1, 2), (2, 1)]);
    assert_eq!(order.phase, OrderPhase::AwaitingFulfilment);
    assert_eq!(order.state.status, OrderStatus::Pending);
    assert_eq!(cart(&order.state), vec![(1, 2), (2, 1)]);
}

#[test]
fn events_out_of_turn_are_ignored() {
    let mut order = shopped();
    for event in [
        OrderEvent::PaymentFinished(Ok(())),
        OrderEvent::PaymentFinished(Err("x".to_string())),
        OrderEvent::NotificationFinished(Ok(())),
        OrderEvent::FulfilmentDue,
        OrderEvent::RefundFinished(Ok(())),
    ] {
        assert!(matches!(order.on_event(event), OrderAction::Wait));
        assert_eq!(order.phase, OrderPhase::Shopping);
        assert_eq!(order.state.status, OrderStatus::Default);
    }
    assert_eq!(cart(&order.state), vec![(1, 2), (2, 1)]);
}

#[test]
fn order_actions_name_their_activity() {
    assert_eq!(
        OrderAction::TakePayment { start_to_close_timeout_secs: 60 }.activity(),
        Some(ActivityKind::TakePayment)
    );
    assert_eq!(
        OrderAction::RefundPayment { start_to_close_timeout_secs: 60 }.activity(),
        Some(ActivityKind::RefundPayment)
    );
    assert_eq!(
        OrderAction::SendTextMessage { state: OrderState::new(), start_to_close_timeout_secs: 60 }
            .activity(),
        Some(ActivityKind::SendTextMessage)
    );
    assert_eq!(OrderAction::Wait.activity(), None);
    assert_eq!(OrderAction::StartTimer { seconds: 10 }.activity(), None);
    assert_eq!(OrderAction::Finish.activity(), None);
}

#[test]
fn commands_have_a_name_and_a_style() {
    let all = [
        (Command::AddItem(item(1, 1)), "ADD_ITEM", CommandStyle::Update),
        (Command::RemoveItem(item(1, 1)), "REMOVE_ITEM", CommandStyle::Update),
        (Command::UpdateStatus(OrderStatus::Ready), "UPDATE_STATUS", CommandStyle::Update),
        (Command::Checkout, "CHECKOUT", CommandStyle::Signal),
        (Command::GetStatus, "GET_STATUS", CommandStyle::Query),
    ];
    for (command, name, style) in all {
        assert_eq!(command.name(), name);
        assert_eq!(command.style(), style);
    }
}
