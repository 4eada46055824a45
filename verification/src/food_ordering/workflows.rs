//! The order workflow as a state machine.
//!
//! An order is open for shopping until it is checked out. Checkout takes the
//! payment; a paid order is announced to the customer and waits to be
//! fulfilled, while the restaurant moves it through its statuses; a
//! fulfilled order is announced once more and the workflow ends. A payment
//! that fails for good rejects the order, and a refund is attempted, once,
//! before the workflow ends.

use crate::food_ordering::cart::{
    cart_add, cart_remove, lemma_add_keeps_wf, lemma_add_line_items, lemma_add_twice,
    lemma_first_index, lemma_remove_keeps_wf, quantity_of, saturating_sum, OrderProduct,
};
use crate::food_ordering::constants::{Queries, Signals, Updates};
use crate::food_ordering::types::{
    kitchen_edge, table_edge, OrderError, OrderState, OrderStateView, OrderStatus,
};
use crate::runtime::{ActivityKind, ACTIVITY_TIMEOUT_SECS};
use vstd::prelude::*;

verus! {

/// How long a paid order waits before it is taken as fulfilled, in seconds.
pub const FULFILMENT_WAIT_SECS: u64 = 10;

/// The stages of the order workflow.
#[derive(Debug, Clone, Copy, PartialEq, Eq, Structural)]
pub enum OrderPhase {
    /// The cart is open.
    Shopping,
    /// Checked out; the payment is being taken.
    TakingPayment,
    /// Paid; the customer is being told.
    NotifyingPaid,
    /// Waiting for the order to be fulfilled.
    AwaitingFulfilment,
    /// The order has reached its end; the customer is being told.
    NotifyingDone,
    /// The payment failed; a refund is being attempted.
    Refunding,
    /// The workflow has ended.
    Closed,
}

/// Why an order was rejected.
#[derive(Debug)]
pub enum Rejection {
    /// The payment failed for good, for the reason given.
    PaymentFailed(String),
    /// The restaurant rejected the order.
    Kitchen,
}

/// The mathematical value of a [`Rejection`].
pub enum RejectionView {
    PaymentFailed(Seq<char>),
    Kitchen,
}

impl View for Rejection {
    type V = RejectionView;

    open spec fn view(&self) -> RejectionView {
        match self {
            Rejection::PaymentFailed(reason) => RejectionView::PaymentFailed(reason@),
            Rejection::Kitchen => RejectionView::Kitchen,
        }
    }
}

/// The mathematical value of an optional [`Rejection`].
pub open spec fn rejection_of(rejection: Option<Rejection>) -> Option<RejectionView> {
    match rejection {
        Some(r) => Some(r@),
        None => None,
    }
}

/// What a client asks of an order.
#[derive(Debug, Clone, Copy, PartialEq, Eq, Structural)]
pub enum Command {
    /// Update: add to the cart.
    AddItem(OrderProduct),
    /// Update: remove from the cart.
    RemoveItem(OrderProduct),
    /// Update: the restaurant moves the order to a status.
    UpdateStatus(OrderStatus),
    /// Signal: check the order out. There is no reply.
    Checkout,
    /// Query: read the order.
    GetStatus,
}

/// How a command is delivered and answered.
#[derive(Debug, Clone, Copy, PartialEq, Eq, Structural)]
pub enum CommandStyle {
    /// A request that may change the order and is answered.
    Update,
    /// An event that is delivered and not answered.
    Signal,
    /// A read of the order that changes nothing.
    Query,
}

/// The name under which a command is delivered.
pub open spec fn command_name(command: Command) -> Seq<char> {
    match command {
        Command::AddItem(_) => Updates::ADD_ITEM@,
        Command::RemoveItem(_) => Updates::REMOVE_ITEM@,
        Command::UpdateStatus(_) => Updates::UPDATE_STATUS@,
        Command::Checkout => Signals::CHECKOUT@,
        Command::GetStatus => Queries::GET_STATUS@,
    }
}

/// How a command is delivered and answered.
pub open spec fn command_style(command: Command) -> CommandStyle {
    match command {
        Command::AddItem(_) | Command::RemoveItem(_) | Command::UpdateStatus(_) => {
            CommandStyle::Update
        },
        Command::Checkout => CommandStyle::Signal,
        Command::GetStatus => CommandStyle::Query,
    }
}

impl Command {
    /// The name under which the command is delivered.
    pub fn name(&self) -> (r: &'static str)
        ensures
            r@ == command_name(*self),
    {
        match self {
            Command::AddItem(_) => Updates::ADD_ITEM,
            Command::RemoveItem(_) => Updates::REMOVE_ITEM,
            Command::UpdateStatus(_) => Updates::UPDATE_STATUS,
            Command::Checkout => Signals::CHECKOUT,
            Command::GetStatus => Queries::GET_STATUS,
        }
    }

    /// How the command is delivered and answered.
    pub fn style(&self) -> (r: CommandStyle)
        ensures
            r == command_style(*self),
    {
        match self {
            Command::AddItem(_) | Command::RemoveItem(_) | Command::UpdateStatus(_) => {
                CommandStyle::Update
            },
            Command::Checkout => CommandStyle::Signal,
            Command::GetStatus => CommandStyle::Query,
        }
    }
}

/// The answer to a command.
#[derive(Debug)]
pub enum CommandReply {
    /// The update was applied.
    Done,
    /// The update was refused; the order is unchanged.
    Refused(OrderError),
    /// The order as it stands, in answer to the query.
    Status(OrderState),
    /// A signal was taken in; signals are not answered.
    Signalled,
}

/// The mathematical value of a [`CommandReply`].
pub enum CommandReplyView {
    Done,
    Refused(OrderError),
    Status(OrderStateView),
    Signalled,
}

impl View for CommandReply {
    type V = CommandReplyView;

    open spec fn view(&self) -> CommandReplyView {
        match self {
            CommandReply::Done => CommandReplyView::Done,
            CommandReply::Refused(error) => CommandReplyView::Refused(*error),
            CommandReply::Status(state) => CommandReplyView::Status(state@),
            CommandReply::Signalled => CommandReplyView::Signalled,
        }
    }
}

/// What the runtime delivers to an order workflow. An activity result
/// arrives once the activity has succeeded or its retries are spent.
#[derive(Debug)]
pub enum OrderEvent {
    /// The take-payment activity ended.
    PaymentFinished(Result<(), String>),
    /// The send-text-message activity ended.
    NotificationFinished(Result<(), String>),
    /// The wait for fulfilment is over.
    FulfilmentDue,
    /// The refund-payment activity ended.
    RefundFinished(Result<(), String>),
}

/// The mathematical value of an [`OrderEvent`].
pub enum OrderEventView {
    PaymentFinished(Result<(), Seq<char>>),
    NotificationFinished(Result<(), Seq<char>>),
    FulfilmentDue,
    RefundFinished(Result<(), Seq<char>>),
}

/// The mathematical value of an activity result.
pub open spec fn outcome_view(result: Result<(), String>) -> Result<(), Seq<char>> {
    match result {
        Ok(_) => Ok(()),
        Err(reason) => Err(reason@),
    }
}

impl View for OrderEvent {
    type V = OrderEventView;

    open spec fn view(&self) -> OrderEventView {
        match self {
            OrderEvent::PaymentFinished(result) => OrderEventView::PaymentFinished(
                outcome_view(*result),
            ),
            OrderEvent::NotificationFinished(result) => OrderEventView::NotificationFinished(
                outcome_view(*result),
            ),
            OrderEvent::FulfilmentDue => OrderEventView::FulfilmentDue,
            OrderEvent::RefundFinished(result) => OrderEventView::RefundFinished(
                outcome_view(*result),
            ),
        }
    }
}

/// What an order workflow asks of the runtime.
#[derive(Debug)]
pub enum OrderAction {
    /// Nothing: the workflow waits for the next command or event.
    Wait,
    /// Run the take-payment activity.
    TakePayment { start_to_close_timeout_secs: u64 },
    /// Run the send-text-message activity on a copy of the order.
    SendTextMessage { state: OrderState, start_to_close_timeout_secs: u64 },
    /// Wake the workflow after a wait.
    StartTimer { seconds: u64 },
    /// Run the refund-payment activity.
    RefundPayment { start_to_close_timeout_secs: u64 },
    /// End the workflow.
    Finish,
}

/// The mathematical value of an [`OrderAction`].
pub enum OrderActionView {
    Wait,
    TakePayment { start_to_close_timeout_secs: u64 },
    SendTextMessage { state: OrderStateView, start_to_close_timeout_secs: u64 },
    StartTimer { seconds: u64 },
    RefundPayment { start_to_close_timeout_secs: u64 },
    Finish,
}

impl View for OrderAction {
    type V = OrderActionView;

    open spec fn view(&self) -> OrderActionView {
        match self {
            OrderAction::Wait => OrderActionView::Wait,
            OrderAction::TakePayment { start_to_close_timeout_secs } => {
                OrderActionView::TakePayment {
                    start_to_close_timeout_secs: *start_to_close_timeout_secs,
                }
            },
            OrderAction::SendTextMessage { state, start_to_close_timeout_secs } => {
                OrderActionView::SendTextMessage {
                    state: state@,
                    start_to_close_timeout_secs: *start_to_close_timeout_secs,
                }
            },
            OrderAction::StartTimer { seconds } => OrderActionView::StartTimer {
                seconds: *seconds,
            },
            OrderAction::RefundPayment { start_to_close_timeout_secs } => {
                OrderActionView::RefundPayment {
                    start_to_close_timeout_secs: *start_to_close_timeout_secs,
                }
            },
            OrderAction::Finish => OrderActionView::Finish,
        }
    }
}

impl OrderAction {
    /// The activity that the action runs, if it runs one.
    pub fn activity(&self) -> (r: Option<ActivityKind>)
        ensures
            r == (match self@ {
                OrderActionView::TakePayment { .. } => Some(ActivityKind::TakePayment),
                OrderActionView::SendTextMessage { .. } => Some(ActivityKind::SendTextMessage),
                OrderActionView::RefundPayment { .. } => Some(ActivityKind::RefundPayment),
                _ => None,
            }),
    {
        match self {
            OrderAction::TakePayment { .. } => Some(ActivityKind::TakePayment),
            OrderAction::SendTextMessage { .. } => Some(ActivityKind::SendTextMessage),
            OrderAction::RefundPayment { .. } => Some(ActivityKind::RefundPayment),
            _ => None,
        }
    }
}

/// The answer to a command, and what the workflow asks of the runtime
/// because of it.
#[derive(Debug)]
pub struct CommandOutcome {
    pub reply: CommandReply,
    pub action: OrderAction,
}

/// One order: its state and where its workflow stands.
#[derive(Debug)]
pub struct OrderWorkflow {
    pub state: OrderState,
    pub phase: OrderPhase,
    /// Why the order was rejected, once it has been.
    pub rejection: Option<Rejection>,
    /// Whether the refund that followed a failed payment failed too.
    pub refund_failed: bool,
    /// How many messages to the customer could not be sent.
    pub notifications_failed: u32,
}

/// The mathematical value of an [`OrderWorkflow`].
pub struct OrderWorkflowView {
    pub state: OrderStateView,
    pub phase: OrderPhase,
    pub rejection: Option<RejectionView>,
    pub refund_failed: bool,
    pub notifications_failed: u32,
}

impl View for OrderWorkflow {
    type V = OrderWorkflowView;

    open spec fn view(&self) -> OrderWorkflowView {
        OrderWorkflowView {
            state: self.state@,
            phase: self.phase,
            rejection: rejection_of(self.rejection),
            refund_failed: self.refund_failed,
            notifications_failed: self.notifications_failed,
        }
    }
}

impl OrderWorkflowView {
    /// The cart can change: the order is still being shopped for.
    pub open spec fn cart_open(self) -> bool {
        self.phase == OrderPhase::Shopping && self.state.status == OrderStatus::Default
    }

    /// The stage agrees with the status, and the cart is well formed.
    pub open spec fn wf(self) -> bool {
        &&& self.state.wf()
        &&& match self.phase {
            OrderPhase::Shopping | OrderPhase::TakingPayment => self.state.status
                == OrderStatus::Default,
            OrderPhase::NotifyingPaid | OrderPhase::AwaitingFulfilment => self.state.status
                != OrderStatus::Default,
            OrderPhase::NotifyingDone | OrderPhase::Closed => self.state.status.is_terminal(),
            OrderPhase::Refunding => self.state.status == OrderStatus::Rejected,
        }
    }

    /// The order with another status.
    pub open spec fn with_status(self, status: OrderStatus) -> OrderWorkflowView {
        OrderWorkflowView { state: OrderStateView { status, ..self.state }, ..self }
    }

    /// The order with another cart.
    pub open spec fn with_products(self, products: Seq<OrderProduct>) -> OrderWorkflowView {
        OrderWorkflowView { state: OrderStateView { products, ..self.state }, ..self }
    }

    /// The order after the end of a send-text-message activity: a message
    /// that could not be sent is counted.
    pub open spec fn notified(self, result: Result<(), Seq<char>>) -> OrderWorkflowView {
        OrderWorkflowView {
            notifications_failed: if result is Err && self.notifications_failed < u32::MAX {
                (self.notifications_failed + 1) as u32
            } else {
                self.notifications_failed
            },
            ..self
        }
    }
}

/// The effect of a command: the order after it, the answer, and what is
/// asked of the runtime.
///
/// The cart changes only while it is open, and an addition of nothing is
/// refused. The restaurant moves the status along its edges of the table and
/// nowhere else. Checkout starts the payment of an open cart and is ignored
/// otherwise. The query reads the order and changes nothing.
pub open spec fn command_step(w: OrderWorkflowView, command: Command) -> (
    OrderWorkflowView,
    CommandReplyView,
    OrderActionView,
) {
    match command {
        Command::AddItem(item) => {
            if item.quantity == 0 {
                (w, CommandReplyView::Refused(OrderError::InvalidArgument), OrderActionView::Wait)
            } else if !w.cart_open() {
                (
                    w,
                    CommandReplyView::Refused(OrderError::InvalidStateTransition),
                    OrderActionView::Wait,
                )
            } else {
                (
                    w.with_products(cart_add(w.state.products, item.product_id, item.quantity)),
                    CommandReplyView::Done,
                    OrderActionView::Wait,
                )
            }
        },
        Command::RemoveItem(item) => {
            if !w.cart_open() {
                (
                    w,
                    CommandReplyView::Refused(OrderError::InvalidStateTransition),
                    OrderActionView::Wait,
                )
            } else {
                (
                    w.with_products(cart_remove(w.state.products, item.product_id, item.quantity)),
                    CommandReplyView::Done,
                    OrderActionView::Wait,
                )
            }
        },
        Command::UpdateStatus(status) => {
            if kitchen_edge(w.state.status, status) {
                (
                    OrderWorkflowView {
                        rejection: if status == OrderStatus::Rejected {
                            Some(RejectionView::Kitchen)
                        } else {
                            w.rejection
                        },
                        ..w.with_status(status)
                    },
                    CommandReplyView::Done,
                    OrderActionView::Wait,
                )
            } else {
                (
                    w,
                    CommandReplyView::Refused(OrderError::InvalidStateTransition),
                    OrderActionView::Wait,
                )
            }
        },
        Command::Checkout => {
            if w.cart_open() {
                (
                    OrderWorkflowView { phase: OrderPhase::TakingPayment, ..w },
                    CommandReplyView::Signalled,
                    OrderActionView::TakePayment {
                        start_to_close_timeout_secs: ACTIVITY_TIMEOUT_SECS,
                    },
                )
            } else {
                (w, CommandReplyView::Signalled, OrderActionView::Wait)
            }
        },
        Command::GetStatus => (w, CommandReplyView::Status(w.state), OrderActionView::Wait),
    }
}

/// The effect of an event: the order after it, and what is asked of the
/// runtime.
///
/// A payment taken makes the order pending and has the customer told; a
/// payment failed rejects the order and has a refund attempted. After the
/// first message the order waits to be fulfilled; when the wait is over, an
/// order that has not reached an end is completed, and the customer is told
/// once more. The end of the last message, or of the refund, ends the
/// workflow. An event that the stage does not expect changes nothing.
pub open spec fn event_step(w: OrderWorkflowView, event: OrderEventView) -> (
    OrderWorkflowView,
    OrderActionView,
) {
    let ignored = (w, OrderActionView::Wait);
    match (w.phase, event) {
        (OrderPhase::TakingPayment, OrderEventView::PaymentFinished(result)) => {
            if w.state.status != OrderStatus::Default {
                ignored
            } else {
                match result {
                    Ok(_) => {
                        let paid = OrderWorkflowView {
                            phase: OrderPhase::NotifyingPaid,
                            ..w.with_status(OrderStatus::Pending)
                        };
                        (
                            paid,
                            OrderActionView::SendTextMessage {
                                state: paid.state,
                                start_to_close_timeout_secs: ACTIVITY_TIMEOUT_SECS,
                            },
                        )
                    },
                    Err(reason) => (
                        OrderWorkflowView {
                            phase: OrderPhase::Refunding,
                            rejection: Some(RejectionView::PaymentFailed(reason)),
                            ..w.with_status(OrderStatus::Rejected)
                        },
                        OrderActionView::RefundPayment {
                            start_to_close_timeout_secs: ACTIVITY_TIMEOUT_SECS,
                        },
                    ),
                }
            }
        },
        (OrderPhase::NotifyingPaid, OrderEventView::NotificationFinished(result)) => (
            OrderWorkflowView { phase: OrderPhase::AwaitingFulfilment, ..w.notified(result) },
            OrderActionView::StartTimer { seconds: FULFILMENT_WAIT_SECS },
        ),
        (OrderPhase::AwaitingFulfilment, OrderEventView::FulfilmentDue) => {
            if w.state.status == OrderStatus::Default {
                ignored
            } else {
                let status = if w.state.status.is_terminal() {
                    w.state.status
                } else {
                    OrderStatus::Completed
                };
                let done = OrderWorkflowView {
                    phase: OrderPhase::NotifyingDone,
                    ..w.with_status(status)
                };
                (
                    done,
                    OrderActionView::SendTextMessage {
                        state: done.state,
                        start_to_close_timeout_secs: ACTIVITY_TIMEOUT_SECS,
                    },
                )
            }
        },
        (OrderPhase::NotifyingDone, OrderEventView::NotificationFinished(result)) => (
            OrderWorkflowView { phase: OrderPhase::Closed, ..w.notified(result) },
            OrderActionView::Finish,
        ),
        (OrderPhase::Refunding, OrderEventView::RefundFinished(result)) => (
            OrderWorkflowView { phase: OrderPhase::Closed, refund_failed: result is Err, ..w },
            OrderActionView::Finish,
        ),
        _ => ignored,
    }
}

impl OrderWorkflow {
    /// The workflow of an order that is about to be shopped for. Whatever
    /// status `state` came with, the order starts unpaid.
    pub fn new(state: OrderState) -> (r: OrderWorkflow)
        ensures
            r@ == (OrderWorkflowView {
                state: OrderStateView { status: OrderStatus::Default, ..state@ },
                phase: OrderPhase::Shopping,
                rejection: None,
                refund_failed: false,
                notifications_failed: 0,
            }),
            state@.wf() ==> r@.wf(),
    {
        let mut state = state;
        // Force to be default state - payment not taken yet
        state.status = OrderStatus::Default;
        OrderWorkflow {
            state,
            phase: OrderPhase::Shopping,
            rejection: None,
            refund_failed: false,
            notifications_failed: 0,
        }
    }

    /// The order as it stands. Nothing changes and nothing is asked of the
    /// runtime.
    pub fn get_status(&self) -> (r: OrderState)
        ensures
            r@ == self@.state,
    {
        self.state.clone()
    }

    /// Whether the workflow has ended.
    pub fn is_closed(&self) -> (r: bool)
        ensures
            r == (self@.phase == OrderPhase::Closed),
    {
        matches!(self.phase, OrderPhase::Closed)
    }

    /// Whether the cart can change.
    fn cart_is_open(&self) -> (r: bool)
        ensures
            r == self@.cart_open(),
    {
        matches!(self.phase, OrderPhase::Shopping) && matches!(self.state.status, OrderStatus::Default)
    }

    /// Counts a message that could not be sent.
    fn note_notification(&mut self, result: &Result<(), String>)
        ensures
            final(self)@ == old(self)@.notified(outcome_view(*result)),
    {
        if result.is_err() {
            self.notifications_failed = self.notifications_failed.saturating_add(1);
        }
    }

    /// Takes one command of a client and returns the answer and what the
    /// workflow asks of the runtime.
    pub fn handle(&mut self, command: Command) -> (r: CommandOutcome)
        ensures
            (final(self)@, r.reply@, r.action@) == command_step(old(self)@, command),
            old(self)@.wf() ==> final(self)@.wf(),
    {
        proof {
            if self@.wf() {
                lemma_command_keeps_wf(self@, command);
            }
        }
        let refused = CommandOutcome {
            reply: CommandReply::Refused(OrderError::InvalidStateTransition),
            action: OrderAction::Wait,
        };
        match command {
            Command::AddItem(item) => {
                if item.quantity > 0 && !self.cart_is_open() {
                    refused
                } else {
                    match self.state.add_item(item) {
                        Ok(_) => CommandOutcome {
                            reply: CommandReply::Done,
                            action: OrderAction::Wait,
                        },
                        Err(error) => CommandOutcome {
                            reply: CommandReply::Refused(error),
                            action: OrderAction::Wait,
                        },
                    }
                }
            },
            Command::RemoveItem(item) => {
                if !self.cart_is_open() {
                    refused
                } else {
                    match self.state.remove_item(item) {
                        Ok(_) => CommandOutcome {
                            reply: CommandReply::Done,
                            action: OrderAction::Wait,
                        },
                        Err(error) => CommandOutcome {
                            reply: CommandReply::Refused(error),
                            action: OrderAction::Wait,
                        },
                    }
                }
            },
            Command::UpdateStatus(status) => {
                match self.state.update_status(status) {
                    Ok(_) => {
                        if matches!(status, OrderStatus::Rejected) {
                            self.rejection = Some(Rejection::Kitchen);
                        }
                        CommandOutcome { reply: CommandReply::Done, action: OrderAction::Wait }
                    },
                    Err(error) => CommandOutcome {
                        reply: CommandReply::Refused(error),
                        action: OrderAction::Wait,
                    },
                }
            },
            Command::Checkout => {
                if self.cart_is_open() {
                    self.phase = OrderPhase::TakingPayment;
                    CommandOutcome {
                        reply: CommandReply::Signalled,
                        action: OrderAction::TakePayment {
                            start_to_close_timeout_secs: ACTIVITY_TIMEOUT_SECS,
                        },
                    }
                } else {
                    CommandOutcome { reply: CommandReply::Signalled, action: OrderAction::Wait }
                }
            },
            Command::GetStatus => CommandOutcome {
                reply: CommandReply::Status(self.state.clone()),
                action: OrderAction::Wait,
            },
        }
    }

    /// Takes one event of the runtime and returns what the workflow asks of
    /// the runtime next.
    pub fn on_event(&mut self, event: OrderEvent) -> (action: OrderAction)
        ensures
            (final(self)@, action@) == event_step(old(self)@, event@),
            old(self)@.wf() ==> final(self)@.wf(),
    {
        match (self.phase, event) {
            (OrderPhase::TakingPayment, OrderEvent::PaymentFinished(result)) => {
                if !matches!(self.state.status, OrderStatus::Default) {
                    OrderAction::Wait
                } else {
                    match result {
                        Ok(_) => {
                            // Set order status to pending
                            self.state.status = OrderStatus::Pending;
                            self.phase = OrderPhase::NotifyingPaid;
                            OrderAction::SendTextMessage {
                                state: self.state.clone(),
                                start_to_close_timeout_secs: ACTIVITY_TIMEOUT_SECS,
                            }
                        },
                        Err(reason) => {
                            self.state.status = OrderStatus::Rejected;
                            self.phase = OrderPhase::Refunding;
                            self.rejection = Some(Rejection::PaymentFailed(reason));
                            OrderAction::RefundPayment {
                                start_to_close_timeout_secs: ACTIVITY_TIMEOUT_SECS,
                            }
                        },
                    }
                }
            },
            (OrderPhase::NotifyingPaid, OrderEvent::NotificationFinished(result)) => {
                self.note_notification(&result);
                self.phase = OrderPhase::AwaitingFulfilment;
                OrderAction::StartTimer { seconds: FULFILMENT_WAIT_SECS }
            },
            (OrderPhase::AwaitingFulfilment, OrderEvent::FulfilmentDue) => {
                if matches!(self.state.status, OrderStatus::Default) {
                    OrderAction::Wait
                } else {
                    if !self.state.status.is_terminal() {
                        self.state.status = OrderStatus::Completed;
                    }
                    self.phase = OrderPhase::NotifyingDone;
                    // Send final notification
                    OrderAction::SendTextMessage {
                        state: self.state.clone(),
                        start_to_close_timeout_secs: ACTIVITY_TIMEOUT_SECS,
                    }
                }
            },
            (OrderPhase::NotifyingDone, OrderEvent::NotificationFinished(result)) => {
                self.note_notification(&result);
                self.phase = OrderPhase::Closed;
                OrderAction::Finish
            },
            (OrderPhase::Refunding, OrderEvent::RefundFinished(result)) => {
                self.refund_failed = result.is_err();
                self.phase = OrderPhase::Closed;
                OrderAction::Finish
            },
            _ => OrderAction::Wait,
        }
    }
}

/// A command keeps the stage and the status in agreement and the cart well
/// formed.
pub proof fn lemma_command_keeps_wf(w: OrderWorkflowView, command: Command)
    requires
        w.wf(),
    ensures
        command_step(w, command).0.wf(),
{
    match command {
        Command::AddItem(item) => {
            if item.quantity > 0 {
                lemma_add_keeps_wf(w.state.products, item.product_id, item.quantity);
            }
        },
        Command::RemoveItem(item) => {
            lemma_remove_keeps_wf(w.state.products, item.product_id, item.quantity);
        },
        _ => {},
    }
}

/// The moves of the status over the life of an order: the edges of the
/// status table, the rejection of an unpaid order whose payment failed, and
/// the completion of an order that is fulfilled before the restaurant has
/// brought it to ready.
pub open spec fn lifecycle_edge(from: OrderStatus, to: OrderStatus) -> bool {
    ||| table_edge(from, to)
    ||| from == OrderStatus::Default && to == OrderStatus::Rejected
    ||| (from == OrderStatus::Pending || from == OrderStatus::Accepted || from
        == OrderStatus::Preparing) && to == OrderStatus::Completed
}

/// No command moves the status off the status table: after a command the
/// status is what it was, or one edge of the table further. A status update
/// that is not such an edge is refused as `InvalidStateTransition`, and a
/// refused command leaves the whole order as it was.
pub proof fn lemma_command_follows_table(w: OrderWorkflowView, command: Command)
    ensures
        ({
            let (next, reply, action) = command_step(w, command);
            &&& next.state.status == w.state.status || table_edge(
                w.state.status,
                next.state.status,
            )
            &&& reply is Refused ==> next == w && action is Wait
            &&& match command {
                Command::UpdateStatus(status) => if kitchen_edge(w.state.status, status) {
                    reply is Done && next.state.status == status
                } else {
                    reply == CommandReplyView::Refused(OrderError::InvalidStateTransition)
                        && next == w
                },
                _ => true,
            }
        }),
{
}

/// Whether the event is the end of a payment that failed.
pub open spec fn is_failed_payment(event: OrderEventView) -> bool {
    match event {
        OrderEventView::PaymentFinished(Err(_)) => true,
        _ => false,
    }
}

/// Whether the event takes the status off the status table: a payment that
/// fails while it is being taken rejects the unpaid order, and the end of
/// the wait for fulfilment completes an order that is pending, accepted or
/// preparing.
pub open spec fn leaves_table(w: OrderWorkflowView, event: OrderEventView) -> bool {
    ||| w.phase == OrderPhase::TakingPayment && w.state.status == OrderStatus::Default
        && is_failed_payment(event)
    ||| w.phase == OrderPhase::AwaitingFulfilment && event is FulfilmentDue && (w.state.status
        == OrderStatus::Pending || w.state.status == OrderStatus::Accepted || w.state.status
        == OrderStatus::Preparing)
}

/// Every other event moves the status along an edge of the status table, or
/// not at all.
pub proof fn lemma_event_follows_table(w: OrderWorkflowView, event: OrderEventView)
    requires
        !leaves_table(w, event),
    ensures
        ({
            let next = event_step(w, event).0;
            next.state.status == w.state.status || table_edge(w.state.status, next.state.status)
        }),
{
}

/// An event that takes the status off the status table rejects an unpaid
/// order or completes a paid one.
pub proof fn lemma_event_off_table(w: OrderWorkflowView, event: OrderEventView)
    requires
        leaves_table(w, event),
    ensures
        ({
            let next = event_step(w, event).0;
            &&& !table_edge(w.state.status, next.state.status)
            &&& if is_failed_payment(event) {
                next.state.status == OrderStatus::Rejected
            } else {
                next.state.status == OrderStatus::Completed
            }
        }),
{
}

/// Every event moves the status along an edge of the life of an order, or
/// not at all.
pub proof fn lemma_event_follows_lifecycle(w: OrderWorkflowView, event: OrderEventView)
    ensures
        ({
            let next = event_step(w, event).0;
            next.state.status == w.state.status || lifecycle_edge(
                w.state.status,
                next.state.status,
            )
        }),
{
}

/// An order that is completed or rejected does not change any more,
/// whatever command or event arrives.
pub proof fn lemma_terminal_is_final(
    w: OrderWorkflowView,
    command: Command,
    event: OrderEventView,
)
    requires
        w.state.status.is_terminal(),
    ensures
        command_step(w, command).0.state == w.state,
        event_step(w, event).0.state == w.state,
{
}

/// The query returns the order exactly as it stands and changes nothing, so
/// asking again gives the same answer.
pub proof fn lemma_query_is_pure(w: OrderWorkflowView)
    ensures
        command_step(w, Command::GetStatus) == (
            w,
            CommandReplyView::Status(w.state),
            OrderActionView::Wait,
        ),
        command_step(command_step(w, Command::GetStatus).0, Command::GetStatus) == command_step(
            w,
            Command::GetStatus,
        ),
{
}

/// How far a stage is along the workflow.
pub open spec fn phase_rank(phase: OrderPhase) -> nat {
    match phase {
        OrderPhase::Shopping => 0,
        OrderPhase::TakingPayment => 1,
        OrderPhase::NotifyingPaid => 2,
        OrderPhase::Refunding => 2,
        OrderPhase::AwaitingFulfilment => 3,
        OrderPhase::NotifyingDone => 4,
        OrderPhase::Closed => 5,
    }
}

/// The workflow only moves forward, and it asks for an activity or a timer
/// only as it moves forward. So each is asked for at most once in the life
/// of an order: the payment on checkout, the refund on the failure of the
/// payment.
pub proof fn lemma_workflow_moves_forward(
    w: OrderWorkflowView,
    command: Command,
    event: OrderEventView,
)
    ensures
        ({
            let (next, reply, action) = command_step(w, command);
            &&& phase_rank(next.phase) >= phase_rank(w.phase)
            &&& !(action is Wait) ==> phase_rank(next.phase) > phase_rank(w.phase)
            &&& action is TakePayment <==> command is Checkout && w.cart_open()
        }),
        ({
            let (next, action) = event_step(w, event);
            &&& phase_rank(next.phase) >= phase_rank(w.phase)
            &&& !(action is Wait) ==> phase_rank(next.phase) > phase_rank(w.phase)
            &&& action is RefundPayment <==> w.phase == OrderPhase::TakingPayment && w.state.status
                == OrderStatus::Default && is_failed_payment(event)
            &&& action is RefundPayment ==> next.state.status == OrderStatus::Rejected
                && next.phase == OrderPhase::Refunding
        }),
{
}

/// A refund ends the workflow whether it succeeded or not; its failure is
/// recorded and the order stays rejected.
pub proof fn lemma_refund_never_blocks(w: OrderWorkflowView, result: Result<(), Seq<char>>)
    requires
        w.phase == OrderPhase::Refunding,
    ensures
        ({
            let (next, action) = event_step(w, OrderEventView::RefundFinished(result));
            &&& action is Finish
            &&& next.phase == OrderPhase::Closed
            &&& next.state == w.state
            &&& next.refund_failed == (result is Err)
        }),
{
}

/// An event keeps the stage and the status in agreement and leaves the cart
/// alone.
pub proof fn lemma_event_keeps_wf(w: OrderWorkflowView, event: OrderEventView)
    ensures
        event_step(w, event).0.state.products == w.state.products,
        w.wf() ==> event_step(w, event).0.wf(),
{
}

/// The order after a list of commands, taken in order.
pub open spec fn order_after_commands(w: OrderWorkflowView, commands: Seq<Command>) -> OrderWorkflowView
    decreases commands.len(),
{
    if commands.len() == 0 {
        w
    } else {
        command_step(order_after_commands(w, commands.drop_last()), commands.last()).0
    }
}

/// Whatever commands an order receives, its cart never holds a product
/// twice, and never a product with a quantity of zero, in the list or in the
/// mapping from product to quantity.
pub proof fn lemma_commands_keep_cart_positive(w: OrderWorkflowView, commands: Seq<Command>)
    requires
        w.wf(),
    ensures
        order_after_commands(w, commands).wf(),
        forall|product_id: u32| #[trigger]
            order_after_commands(w, commands).state.line_items().dom().contains(product_id)
                ==> order_after_commands(w, commands).state.line_items()[product_id] > 0,
    decreases commands.len(),
{
    if commands.len() > 0 {
        lemma_commands_keep_cart_positive(w, commands.drop_last());
        lemma_command_keeps_wf(order_after_commands(w, commands.drop_last()), commands.last());
    }
    let after = order_after_commands(w, commands);
    assert forall|product_id: u32| #[trigger]
        after.state.line_items().dom().contains(product_id) implies after.state.line_items()[product_id]
        > 0 by {
        lemma_first_index(after.state.products, product_id);
    }
}

/// While the cart is open, the cart commands of the order are the
/// operations of the cart: an addition of `a` and then of `b` of one product
/// leaves what one addition of their sum leaves, in either order.
pub proof fn lemma_order_adds_sum_up(w: OrderWorkflowView, product_id: u32, a: u32, b: u32)
    requires
        w.cart_open(),
        a > 0,
        b > 0,
    ensures
        ({
            let add_a = Command::AddItem(OrderProduct { product_id, quantity: a });
            let add_b = Command::AddItem(OrderProduct { product_id, quantity: b });
            let add_both = Command::AddItem(
                OrderProduct { product_id, quantity: saturating_sum(a, b) },
            );
            let a_then_b = command_step(command_step(w, add_a).0, add_b).0;
            let b_then_a = command_step(command_step(w, add_b).0, add_a).0;
            let sum = command_step(w, add_both).0;
            &&& a_then_b == sum
            &&& b_then_a == sum
            &&& sum.state.line_items() == w.state.line_items().insert(
                product_id,
                saturating_sum(quantity_of(w.state.products, product_id), saturating_sum(a, b)),
            )
        }),
{
    lemma_add_twice(w.state.products, product_id, a, b);
    lemma_add_twice(w.state.products, product_id, b, a);
    lemma_add_line_items(w.state.products, product_id, saturating_sum(a, b));
}

/// The answer fits the style of the command: an update is applied or
/// refused, a signal is taken in without an answer, and the query is
/// answered with the order. Only the signal asks anything of the runtime.
pub proof fn lemma_reply_fits_style(w: OrderWorkflowView, command: Command)
    ensures
        ({
            let (next, reply, action) = command_step(w, command);
            match command_style(command) {
                CommandStyle::Update => (reply is Done || reply is Refused) && action is Wait,
                CommandStyle::Signal => reply is Signalled,
                CommandStyle::Query => reply == CommandReplyView::Status(w.state) && action
                    is Wait && next == w,
            }
        }),
{
}

} // verus!
