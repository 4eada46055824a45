//! The data of an order and the commands that change it.

pub use crate::food_ordering::cart::OrderProduct;
use crate::food_ordering::cart::{
    cart_add, cart_remove, cart_wf, lemma_add_keeps_wf, lemma_add_line_items,
    lemma_first_index_is, lemma_remove_keeps_wf, lemma_remove_line_items, line_items, quantity_of,
    saturating_sum,
};
use crate::text::{join, str_eq, to_uppercase, uppercased};
use vstd::prelude::*;
use vstd::string::StringExecFns;

verus! {

/// The status of an order.
#[derive(Debug, Clone, Copy, PartialEq, Eq, Structural)]
pub enum OrderStatus {
    /// Order not paid yet
    Default,
    /// Order paid and waiting for restaurant to accept
    Pending,
    /// Restaurant accepted order, but not started work yet
    Accepted,
    /// Restaurant is cooking your food
    Preparing,
    /// Food is ready for collection/out for delivery
    Ready,
    /// Food given to a hungry person
    Completed,
    /// Kitchen has rejected the order
    Rejected,
}

/// Why a command on an order was refused.
#[derive(Debug, Clone, Copy, PartialEq, Eq, Structural)]
pub enum OrderError {
    /// The arguments of the command are not acceptable.
    InvalidArgument,
    /// The command is not allowed in the order's current status.
    InvalidStateTransition,
}

/// The name of a status, in upper case.
pub open spec fn status_name(status: OrderStatus) -> Seq<char> {
    match status {
        OrderStatus::Default => "DEFAULT"@,
        OrderStatus::Pending => "PENDING"@,
        OrderStatus::Accepted => "ACCEPTED"@,
        OrderStatus::Preparing => "PREPARING"@,
        OrderStatus::Ready => "READY"@,
        OrderStatus::Rejected => "REJECTED"@,
        OrderStatus::Completed => "COMPLETED"@,
    }
}

/// The status that an upper-case name stands for, if any.
pub open spec fn status_named(name: Seq<char>) -> Option<OrderStatus> {
    if name == "DEFAULT"@ {
        Some(OrderStatus::Default)
    } else if name == "PENDING"@ {
        Some(OrderStatus::Pending)
    } else if name == "ACCEPTED"@ {
        Some(OrderStatus::Accepted)
    } else if name == "PREPARING"@ {
        Some(OrderStatus::Preparing)
    } else if name == "READY"@ {
        Some(OrderStatus::Ready)
    } else if name == "REJECTED"@ {
        Some(OrderStatus::Rejected)
    } else if name == "COMPLETED"@ {
        Some(OrderStatus::Completed)
    } else {
        None
    }
}

/// Every status is the one that its own name stands for.
pub proof fn lemma_status_name_round_trip(status: OrderStatus)
    ensures
        status_named(status_name(status)) == Some(status),
{
    reveal_strlit("DEFAULT");
    reveal_strlit("PENDING");
    reveal_strlit("ACCEPTED");
    reveal_strlit("PREPARING");
    reveal_strlit("READY");
    reveal_strlit("REJECTED");
    reveal_strlit("COMPLETED");
    assert("DEFAULT"@[0] == 'D');
    assert("PENDING"@[1] == 'E');
    assert("ACCEPTED"@[0] == 'A');
    assert("PREPARING"@[1] == 'R');
    assert("READY"@[2] == 'A');
    assert("REJECTED"@[2] == 'J');
    assert("COMPLETED"@[0] == 'C');
}

/// The edges of the status table that the restaurant drives: an order
/// advances from pending through accepted, preparing and ready to completed,
/// and can be rejected while it is pending, accepted or preparing.
pub open spec fn kitchen_edge(from: OrderStatus, to: OrderStatus) -> bool {
    ||| from == OrderStatus::Pending && to == OrderStatus::Accepted
    ||| from == OrderStatus::Accepted && to == OrderStatus::Preparing
    ||| from == OrderStatus::Preparing && to == OrderStatus::Ready
    ||| from == OrderStatus::Ready && to == OrderStatus::Completed
    ||| (from == OrderStatus::Pending || from == OrderStatus::Accepted || from
        == OrderStatus::Preparing) && to == OrderStatus::Rejected
}

/// The status table: payment takes an order from default to pending, and the
/// restaurant drives it from there.
pub open spec fn table_edge(from: OrderStatus, to: OrderStatus) -> bool {
    ||| from == OrderStatus::Default && to == OrderStatus::Pending
    ||| kitchen_edge(from, to)
}

impl OrderStatus {
    /// Completed and rejected orders accept no further change.
    pub open spec fn spec_is_terminal(self) -> bool {
        self == OrderStatus::Completed || self == OrderStatus::Rejected
    }

    /// Whether the status is one that accepts no further change.
    #[verifier::when_used_as_spec(spec_is_terminal)]
    pub fn is_terminal(self) -> (r: bool)
        ensures
            r == self.spec_is_terminal(),
    {
        match self {
            OrderStatus::Completed | OrderStatus::Rejected => true,
            _ => false,
        }
    }

    /// The name of the status, in upper case.
    pub fn as_str(self) -> (r: &'static str)
        ensures
            r@ == status_name(self),
    {
        match self {
            OrderStatus::Default => "DEFAULT",
            OrderStatus::Pending => "PENDING",
            OrderStatus::Accepted => "ACCEPTED",
            OrderStatus::Preparing => "PREPARING",
            OrderStatus::Ready => "READY",
            OrderStatus::Rejected => "REJECTED",
            OrderStatus::Completed => "COMPLETED",
        }
    }

    /// The name of the status as an owned string.
    pub fn to_string(self) -> (r: String)
        ensures
            r@ == status_name(self),
    {
        String::from_str(self.as_str())
    }

    /// The status that an upper-case name stands for.
    pub fn from_upper(name: &str) -> (r: Option<OrderStatus>)
        ensures
            r == status_named(name@),
    {
        if str_eq(name, "DEFAULT") {
            Some(OrderStatus::Default)
        } else if str_eq(name, "PENDING") {
            Some(OrderStatus::Pending)
        } else if str_eq(name, "ACCEPTED") {
            Some(OrderStatus::Accepted)
        } else if str_eq(name, "PREPARING") {
            Some(OrderStatus::Preparing)
        } else if str_eq(name, "READY") {
            Some(OrderStatus::Ready)
        } else if str_eq(name, "REJECTED") {
            Some(OrderStatus::Rejected)
        } else if str_eq(name, "COMPLETED") {
            Some(OrderStatus::Completed)
        } else {
            None
        }
    }

    /// Reads a status from its name in any letter case. A text that names no
    /// status is refused with a message that quotes it.
    pub fn parse(s: &str) -> (r: Result<OrderStatus, String>)
        ensures
            match r {
                Ok(status) => status_named(uppercased(s@)) == Some(status),
                Err(message) => status_named(uppercased(s@)) is None && message@
                    == "Invalid status: "@ + s@,
            },
    {
        let upper = to_uppercase(s);
        match OrderStatus::from_upper(upper.as_str()) {
            Some(status) => Ok(status),
            None => Err(join("Invalid status: ", s)),
        }
    }

    /// Whether the restaurant may move an order from this status to `to`.
    pub fn can_advance_to(self, to: OrderStatus) -> (r: bool)
        ensures
            r == kitchen_edge(self, to),
    {
        match (self, to) {
            (OrderStatus::Pending, OrderStatus::Accepted) => true,
            (OrderStatus::Accepted, OrderStatus::Preparing) => true,
            (OrderStatus::Preparing, OrderStatus::Ready) => true,
            (OrderStatus::Ready, OrderStatus::Completed) => true,
            (OrderStatus::Pending, OrderStatus::Rejected) => true,
            (OrderStatus::Accepted, OrderStatus::Rejected) => true,
            (OrderStatus::Preparing, OrderStatus::Rejected) => true,
            _ => false,
        }
    }
}

impl std::str::FromStr for OrderStatus {
    type Err = String;

    fn from_str(s: &str) -> (r: Result<OrderStatus, String>)
        ensures
            match r {
                Ok(status) => status_named(uppercased(s@)) == Some(status),
                Err(message) => status_named(uppercased(s@)) is None && message@
                    == "Invalid status: "@ + s@,
            },
    {
        OrderStatus::parse(s)
    }
}

impl OrderError {
    /// The name of the error.
    pub fn as_str(self) -> (r: &'static str)
        ensures
            r@ == (match self {
                OrderError::InvalidArgument => "InvalidArgument"@,
                OrderError::InvalidStateTransition => "InvalidStateTransition"@,
            }),
    {
        match self {
            OrderError::InvalidArgument => "InvalidArgument",
            OrderError::InvalidStateTransition => "InvalidStateTransition",
        }
    }
}

/// A delivery address.
#[derive(Debug)]
pub struct Address {
    pub line1: String,
    pub line2: Option<String>,
    pub line3: Option<String>,
    pub town: String,
    pub county: Option<String>,
    pub post_code: String,
}

/// The mathematical value of an [`Address`].
pub struct AddressView {
    pub line1: Seq<char>,
    pub line2: Option<Seq<char>>,
    pub line3: Option<Seq<char>>,
    pub town: Seq<char>,
    pub county: Option<Seq<char>>,
    pub post_code: Seq<char>,
}

/// The mathematical value of an optional text.
pub open spec fn text_of(text: Option<String>) -> Option<Seq<char>> {
    match text {
        Some(s) => Some(s@),
        None => None,
    }
}

impl View for Address {
    type V = AddressView;

    open spec fn view(&self) -> AddressView {
        AddressView {
            line1: self.line1@,
            line2: text_of(self.line2),
            line3: text_of(self.line3),
            town: self.town@,
            county: text_of(self.county),
            post_code: self.post_code@,
        }
    }
}

/// Copies an optional text.
fn clone_text(text: &Option<String>) -> (r: Option<String>)
    ensures
        text_of(r) == text_of(*text),
{
    match text {
        Some(s) => Some(s.clone()),
        None => None,
    }
}

impl Clone for Address {
    fn clone(&self) -> (r: Self)
        ensures
            r@ == self@,
    {
        Address {
            line1: self.line1.clone(),
            line2: clone_text(&self.line2),
            line3: clone_text(&self.line3),
            town: self.town.clone(),
            county: clone_text(&self.county),
            post_code: self.post_code.clone(),
        }
    }
}

/// The state of one order.
#[derive(Debug)]
pub struct OrderState {
    /// Whether the customer collects the order.
    pub collection: bool,
    pub delivery_address: Option<Address>,
    pub email: String,
    /// The cart: one line per product, in the order of first addition.
    pub products: Vec<OrderProduct>,
    pub status: OrderStatus,
}

/// The mathematical value of an [`OrderState`].
pub struct OrderStateView {
    pub collection: bool,
    pub delivery_address: Option<AddressView>,
    pub email: Seq<char>,
    pub products: Seq<OrderProduct>,
    pub status: OrderStatus,
}

impl OrderStateView {
    /// The cart as a mapping from product to quantity.
    pub open spec fn line_items(self) -> Map<u32, u32> {
        line_items(self.products)
    }

    /// The cart is well formed: one line per product, none of quantity zero.
    pub open spec fn wf(self) -> bool {
        cart_wf(self.products)
    }
}

impl View for OrderState {
    type V = OrderStateView;

    open spec fn view(&self) -> OrderStateView {
        OrderStateView {
            collection: self.collection,
            delivery_address: match self.delivery_address {
                Some(address) => Some(address@),
                None => None,
            },
            email: self.email@,
            products: self.products@,
            status: self.status,
        }
    }
}

impl Clone for OrderState {
    fn clone(&self) -> (r: Self)
        ensures
            r@ == self@,
    {
        let mut products: Vec<OrderProduct> = Vec::new();
        let mut i: usize = 0;
        while i < self.products.len()
            invariant
                i <= self.products.len(),
                products@ == self.products@.take(i as int),
            decreases self.products.len() - i,
        {
            products.push(self.products[i]);
            assert(products@ =~= self.products@.take(i as int + 1));
            i += 1;
        }
        assert(products@ =~= self.products@);
        OrderState {
            collection: self.collection,
            delivery_address: match &self.delivery_address {
                Some(address) => Some(address.clone()),
                None => None,
            },
            email: self.email.clone(),
            products,
            status: self.status,
        }
    }
}

/// The error, if any, that refuses the addition of `quantity` to the cart of
/// an order in `status`: nothing can be added of nothing, and a cart changes
/// only while the order is unpaid.
pub open spec fn add_refusal(status: OrderStatus, quantity: u32) -> Option<OrderError> {
    if quantity == 0 {
        Some(OrderError::InvalidArgument)
    } else if status != OrderStatus::Default {
        Some(OrderError::InvalidStateTransition)
    } else {
        None
    }
}

/// The error, if any, that refuses a removal from the cart of an order in
/// `status`.
pub open spec fn remove_refusal(status: OrderStatus) -> Option<OrderError> {
    if status != OrderStatus::Default {
        Some(OrderError::InvalidStateTransition)
    } else {
        None
    }
}

impl OrderState {
    /// An empty, unpaid order.
    pub fn new() -> (r: Self)
        ensures
            r@ == (OrderStateView {
                collection: false,
                delivery_address: None,
                email: Seq::empty(),
                products: Seq::empty(),
                status: OrderStatus::Default,
            }),
            r@.wf(),
    {
        OrderState {
            collection: false,
            delivery_address: None,
            email: String::new(),
            products: Vec::new(),
            status: OrderStatus::Default,
        }
    }

    /// Adds `item.quantity` of `item.product_id` to the cart.
    ///
    /// A product already in the cart has its quantity raised, stopping at
    /// `u32::MAX`; a new product gets a line at the end of the cart. A
    /// quantity of zero is refused as `InvalidArgument`; on an order that is
    /// no longer unpaid a positive quantity is refused as
    /// `InvalidStateTransition`. A refused command changes nothing.
    pub fn add_item(&mut self, item: OrderProduct) -> (r: Result<(), OrderError>)
        ensures
            match add_refusal(old(self)@.status, item.quantity) {
                Some(error) => r == Err::<(), OrderError>(error) && final(self)@ == old(self)@,
                None => r is Ok && final(self)@ == (OrderStateView {
                    products: cart_add(old(self)@.products, item.product_id, item.quantity),
                    ..old(self)@
                }),
            },
            r is Ok ==> final(self)@.line_items() == old(self)@.line_items().insert(
                item.product_id,
                saturating_sum(
                    quantity_of(old(self)@.products, item.product_id),
                    item.quantity,
                ),
            ),
            old(self)@.wf() ==> final(self)@.wf(),
    {
        proof {
            lemma_add_line_items(self.products@, item.product_id, item.quantity);
        }
        if item.quantity == 0 {
            return Err(OrderError::InvalidArgument);
        }
        if !matches!(self.status, OrderStatus::Default) {
            return Err(OrderError::InvalidStateTransition);
        }
        proof {
            if cart_wf(self.products@) {
                lemma_add_keeps_wf(self.products@, item.product_id, item.quantity);
            }
        }
        // Check if we're updating existing products
        let mut i: usize = 0;
        while i < self.products.len()
            invariant
                i <= self.products.len(),
                *self == *old(self),
                add_refusal(self.status, item.quantity) is None,
                line_items(cart_add(self.products@, item.product_id, item.quantity))
                    == line_items(self.products@).insert(
                    item.product_id,
                    saturating_sum(quantity_of(self.products@, item.product_id), item.quantity),
                ),
                cart_wf(self.products@) ==> cart_wf(
                    cart_add(self.products@, item.product_id, item.quantity),
                ),
                forall|j: int| 0 <= j < i ==> (#[trigger] self.products@[j]).product_id
                    != item.product_id,
            decreases self.products.len() - i,
        {
            let existing = self.products[i];
            if existing.product_id == item.product_id {
                proof {
                    lemma_first_index_is(self.products@, item.product_id, i as int);
                }
                let raised: u32 = existing.quantity.saturating_add(item.quantity);
                self.products.set(i, OrderProduct { product_id: item.product_id, quantity: raised });
                return Ok(());
            }
            i += 1;
        }
        proof {
            lemma_first_index_is(self.products@, item.product_id, self.products@.len() as int);
        }
        // Otherwise, add new product
        self.products.push(item);
        Ok(())
    }

    /// Removes `item.quantity` of `item.product_id` from the cart.
    ///
    /// The product's quantity drops by `item.quantity`; when nothing is left
    /// of it, its line leaves the cart. Removing a product that is not in the
    /// cart changes nothing and is no error. On an order that is no longer
    /// unpaid the command is refused as `InvalidStateTransition` and changes
    /// nothing.
    pub fn remove_item(&mut self, item: OrderProduct) -> (r: Result<(), OrderError>)
        ensures
            match remove_refusal(old(self)@.status) {
                Some(error) => r == Err::<(), OrderError>(error) && final(self)@ == old(self)@,
                None => r is Ok && final(self)@ == (OrderStateView {
                    products: cart_remove(old(self)@.products, item.product_id, item.quantity),
                    ..old(self)@
                }),
            },
            r is Ok && old(self)@.wf() ==> final(self)@.line_items() == (if quantity_of(
                old(self)@.products,
                item.product_id,
            ) > item.quantity {
                old(self)@.line_items().insert(
                    item.product_id,
                    (quantity_of(old(self)@.products, item.product_id) - item.quantity) as u32,
                )
            } else {
                old(self)@.line_items().remove(item.product_id)
            }),
            old(self)@.wf() ==> final(self)@.wf(),
    {
        proof {
            if cart_wf(self.products@) {
                lemma_remove_line_items(self.products@, item.product_id, item.quantity);
            }
        }
        if !matches!(self.status, OrderStatus::Default) {
            return Err(OrderError::InvalidStateTransition);
        }
        proof {
            if cart_wf(self.products@) {
                lemma_remove_keeps_wf(self.products@, item.product_id, item.quantity);
            }
        }
        let mut kept: Vec<OrderProduct> = Vec::new();
        let mut i: usize = 0;
        while i < self.products.len()
            invariant
                i <= self.products.len(),
                *self == *old(self),
                kept@ == cart_remove(
                    self.products@.take(i as int),
                    item.product_id,
                    item.quantity,
                ),
            decreases self.products.len() - i,
        {
            let existing = self.products[i];
            proof {
                assert(self.products@.take(i as int + 1).drop_last() =~= self.products@.take(
                    i as int,
                ));
            }
            if existing.product_id == item.product_id {
                let left: u32 = existing.quantity.saturating_sub(item.quantity);
                if left > 0 {
                    kept.push(OrderProduct { product_id: existing.product_id, quantity: left });
                }
            } else {
                kept.push(existing);
            }
            i += 1;
        }
        proof {
            assert(self.products@.take(self.products@.len() as int) =~= self.products@);
        }
        self.products = kept;
        Ok(())
    }

    /// Moves the order to `new_status` on behalf of the restaurant.
    ///
    /// The move must be an edge of the status table that the restaurant
    /// drives; any other is refused as `InvalidStateTransition` and changes
    /// nothing.
    pub fn update_status(&mut self, new_status: OrderStatus) -> (r: Result<(), OrderError>)
        ensures
            kitchen_edge(old(self)@.status, new_status) ==> r is Ok && final(self)@ == (
            OrderStateView { status: new_status, ..old(self)@ }),
            !kitchen_edge(old(self)@.status, new_status) ==> r == Err::<(), OrderError>(
                OrderError::InvalidStateTransition,
            ) && final(self)@ == old(self)@,
    {
        if self.status.can_advance_to(new_status) {
            self.status = new_status;
            Ok(())
        } else {
            Err(OrderError::InvalidStateTransition)
        }
    }
}

/// A product on the menu.
#[derive(Debug)]
pub struct Product {
    pub product_id: u32,
    pub name: String,
    /// The price in pence.
    pub price: u32,
}

/// The mathematical value of a [`Product`].
pub struct ProductView {
    pub product_id: u32,
    pub name: Seq<char>,
    pub price: u32,
}

impl View for Product {
    type V = ProductView;

    open spec fn view(&self) -> ProductView {
        ProductView { product_id: self.product_id, name: self.name@, price: self.price }
    }
}

impl DeepView for Product {
    type V = ProductView;

    open spec fn deep_view(&self) -> ProductView {
        self@
    }
}

/// The sample menu.
pub open spec fn sample_products() -> Seq<ProductView> {
    seq![
        ProductView { product_id: 1, name: "Margherita Pizza"@, price: 1299 },
        ProductView { product_id: 2, name: "Pepperoni Pizza"@, price: 1499 },
        ProductView { product_id: 3, name: "Caesar Salad"@, price: 899 },
        ProductView { product_id: 4, name: "Chicken Wings"@, price: 999 },
        ProductView { product_id: 5, name: "Coca Cola"@, price: 299 },
    ]
}

/// Sample products data
pub fn get_sample_products() -> (r: Vec<Product>)
    ensures
        r.deep_view() == sample_products(),
{
    let mut products: Vec<Product> = Vec::new();
    products.push(
        Product { product_id: 1, name: String::from_str("Margherita Pizza"), price: 1299 },
    );
    products.push(
        Product { product_id: 2, name: String::from_str("Pepperoni Pizza"), price: 1499 },
    );
    products.push(Product { product_id: 3, name: String::from_str("Caesar Salad"), price: 899 });
    products.push(Product { product_id: 4, name: String::from_str("Chicken Wings"), price: 999 });
    products.push(Product { product_id: 5, name: String::from_str("Coca Cola"), price: 299 });
    proof {
        assert(products.deep_view() =~= sample_products()) by {
            assert forall|i: int| 0 <= i < 5 implies products.deep_view()[i]
                == sample_products()[i] by {
                assert(products.deep_view()[i] == products[i]@);
            }
        }
    }
    products
}

} // verus!
