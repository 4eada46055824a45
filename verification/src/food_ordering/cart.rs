//! The mathematics of a cart: a list of line items in the order in which the
//! products were first added, read as a mapping from product to quantity.

use vstd::prelude::*;

verus! {

/// One line of an order: a product and how many of it.
#[derive(Debug, Clone, Copy, PartialEq, Eq, Structural)]
pub struct OrderProduct {
    pub product_id: u32,
    pub quantity: u32,
}

/// The largest quantity a line can hold; sums stop there.
pub const MAX_QUANTITY: u32 = u32::MAX;

/// The sum of two quantities, stopped at [`MAX_QUANTITY`].
pub open spec fn saturating_sum(a: u32, b: u32) -> u32 {
    if a + b > MAX_QUANTITY {
        MAX_QUANTITY
    } else {
        (a + b) as u32
    }
}

/// The position of the first line of `product_id`, or the length of `items`
/// when there is none.
pub open spec fn first_index(items: Seq<OrderProduct>, product_id: u32) -> int
    decreases items.len(),
{
    if items.len() == 0 {
        0
    } else if items[0].product_id == product_id {
        0
    } else {
        1 + first_index(items.drop_first(), product_id)
    }
}

/// Whether the cart has a line of `product_id`.
pub open spec fn has_product(items: Seq<OrderProduct>, product_id: u32) -> bool {
    first_index(items, product_id) < items.len()
}

/// The quantity of `product_id` in the cart; 0 when the cart has none.
pub open spec fn quantity_of(items: Seq<OrderProduct>, product_id: u32) -> u32 {
    if has_product(items, product_id) {
        items[first_index(items, product_id)].quantity
    } else {
        0
    }
}

/// The cart as a mapping from product to quantity.
pub open spec fn line_items(items: Seq<OrderProduct>) -> Map<u32, u32> {
    Map::new(
        |product_id: u32| has_product(items, product_id),
        |product_id: u32| quantity_of(items, product_id),
    )
}

/// A cart is well formed when no product has two lines and no line has
/// quantity zero.
pub open spec fn cart_wf(items: Seq<OrderProduct>) -> bool {
    &&& forall|i: int| 0 <= i < items.len() ==> (#[trigger] items[i]).quantity > 0
    &&& forall|i: int, j: int|
        0 <= i < j < items.len() ==> (#[trigger] items[i]).product_id != (
        #[trigger] items[j]).product_id
}

/// The cart after `quantity` of `product_id` is added: the product's line
/// grows by `quantity`, stopping at [`MAX_QUANTITY`]; a product new to the
/// cart gets a line at the end.
pub open spec fn cart_add(items: Seq<OrderProduct>, product_id: u32, quantity: u32) -> Seq<
    OrderProduct,
> {
    let at = first_index(items, product_id);
    if at < items.len() {
        items.update(
            at,
            OrderProduct { product_id, quantity: saturating_sum(items[at].quantity, quantity) },
        )
    } else {
        items.push(OrderProduct { product_id, quantity })
    }
}

/// The cart after `quantity` of `product_id` is removed: every line of the
/// product shrinks by `quantity` and leaves the cart when nothing is left of
/// it; the other lines stay as they are, in their order.
pub open spec fn cart_remove(items: Seq<OrderProduct>, product_id: u32, quantity: u32) -> Seq<
    OrderProduct,
>
    decreases items.len(),
{
    if items.len() == 0 {
        items
    } else {
        let earlier = cart_remove(items.drop_last(), product_id, quantity);
        let line = items.last();
        if line.product_id != product_id {
            earlier.push(line)
        } else if line.quantity > quantity {
            earlier.push(OrderProduct { product_id, quantity: (line.quantity - quantity) as u32 })
        } else {
            earlier
        }
    }
}

/// `first_index` finds the first line of the product and nothing before it.
pub proof fn lemma_first_index(items: Seq<OrderProduct>, product_id: u32)
    ensures
        0 <= first_index(items, product_id) <= items.len(),
        has_product(items, product_id) ==> items[first_index(items, product_id)].product_id
            == product_id,
        forall|j: int|
            0 <= j < first_index(items, product_id) ==> (#[trigger] items[j]).product_id
                != product_id,
    decreases items.len(),
{
    if items.len() > 0 && items[0].product_id != product_id {
        let rest = items.drop_first();
        lemma_first_index(rest, product_id);
        assert forall|j: int| 0 <= j < first_index(items, product_id) implies (
        #[trigger] items[j]).product_id != product_id by {
            if j > 0 {
                assert(rest[j - 1] == items[j]);
            }
        }
    }
}

/// A position that holds the product and has no line of it before is the
/// product's first index; a cart without a line of the product has none.
pub proof fn lemma_first_index_is(items: Seq<OrderProduct>, product_id: u32, at: int)
    requires
        0 <= at <= items.len(),
        forall|j: int| 0 <= j < at ==> (#[trigger] items[j]).product_id != product_id,
        at < items.len() ==> items[at].product_id == product_id,
    ensures
        first_index(items, product_id) == at,
{
    lemma_first_index(items, product_id);
    let found = first_index(items, product_id);
    if found < at {
        assert(items[found].product_id != product_id);
    }
}

/// In a well-formed cart the line of a product is the only one of it.
pub proof fn lemma_unique_line(items: Seq<OrderProduct>, at: int)
    requires
        cart_wf(items),
        0 <= at < items.len(),
    ensures
        first_index(items, items[at].product_id) == at,
        quantity_of(items, items[at].product_id) == items[at].quantity,
{
    lemma_first_index_is(items, items[at].product_id, at);
}

/// Adding a positive quantity keeps a cart well formed.
pub proof fn lemma_add_keeps_wf(items: Seq<OrderProduct>, product_id: u32, quantity: u32)
    requires
        cart_wf(items),
        quantity > 0,
    ensures
        cart_wf(cart_add(items, product_id, quantity)),
{
    lemma_first_index(items, product_id);
    let at = first_index(items, product_id);
    let after = cart_add(items, product_id, quantity);
    if at < items.len() {
        assert forall|i: int, j: int| 0 <= i < j < after.len() implies (
        #[trigger] after[i]).product_id != (#[trigger] after[j]).product_id by {
            assert(after[i].product_id == items[i].product_id);
            assert(after[j].product_id == items[j].product_id);
        }
    } else {
        assert forall|i: int, j: int| 0 <= i < j < after.len() implies (
        #[trigger] after[i]).product_id != (#[trigger] after[j]).product_id by {
            if j < items.len() {
                assert(after[i] == items[i] && after[j] == items[j]);
            } else {
                assert(after[i] == items[i]);
            }
        }
    }
}

/// Removal in a well-formed cart touches the one line of the product: it
/// shrinks when more is left of it and goes when not; a cart without the
/// product stays as it is.
pub proof fn lemma_remove_in_wf_cart(items: Seq<OrderProduct>, product_id: u32, quantity: u32)
    requires
        cart_wf(items),
    ensures
        cart_remove(items, product_id, quantity) == ({
            let at = first_index(items, product_id);
            if !has_product(items, product_id) {
                items
            } else if items[at].quantity > quantity {
                items.update(
                    at,
                    OrderProduct { product_id, quantity: (items[at].quantity - quantity) as u32 },
                )
            } else {
                items.remove(at)
            }
        }),
    decreases items.len(),
{
    lemma_first_index(items, product_id);
    if items.len() > 0 {
        let earlier = items.drop_last();
        let last = items.last();
        let top = items.len() - 1;
        assert(cart_wf(earlier)) by {
            assert forall|i: int| 0 <= i < earlier.len() implies (#[trigger] earlier[i]).quantity
                > 0 by {
                assert(earlier[i] == items[i]);
            }
            assert forall|i: int, j: int| 0 <= i < j < earlier.len() implies (
            #[trigger] earlier[i]).product_id != (#[trigger] earlier[j]).product_id by {
                assert(earlier[i] == items[i] && earlier[j] == items[j]);
            }
        }
        lemma_remove_in_wf_cart(earlier, product_id, quantity);
        lemma_first_index(earlier, product_id);
        if last.product_id == product_id {
            assert forall|j: int| 0 <= j < top implies (#[trigger] items[j]).product_id
                != product_id by {
                assert(items[top].product_id == product_id);
            }
            lemma_first_index_is(items, product_id, top);
            assert forall|j: int| 0 <= j < earlier.len() implies (#[trigger] earlier[j]).product_id
                != product_id by {
                assert(earlier[j] == items[j]);
            }
            lemma_first_index_is(earlier, product_id, earlier.len() as int);
            if last.quantity > quantity {
                assert(earlier.push(
                    OrderProduct { product_id, quantity: (last.quantity - quantity) as u32 },
                ) =~= items.update(
                    top,
                    OrderProduct { product_id, quantity: (last.quantity - quantity) as u32 },
                ));
            } else {
                assert(earlier =~= items.remove(top));
            }
        } else {
            let at_earlier = first_index(earlier, product_id);
            if at_earlier < earlier.len() {
                assert forall|j: int| 0 <= j < at_earlier implies (#[trigger] items[j]).product_id
                    != product_id by {
                    assert(earlier[j] == items[j]);
                }
                assert(items[at_earlier] == earlier[at_earlier]);
                lemma_first_index_is(items, product_id, at_earlier);
                if earlier[at_earlier].quantity > quantity {
                    let shrunk = OrderProduct {
                        product_id,
                        quantity: (earlier[at_earlier].quantity - quantity) as u32,
                    };
                    assert(earlier.update(at_earlier, shrunk).push(last) =~= items.update(
                        at_earlier,
                        shrunk,
                    ));
                } else {
                    assert(earlier.remove(at_earlier).push(last) =~= items.remove(at_earlier));
                }
            } else {
                assert forall|j: int| 0 <= j < items.len() implies (#[trigger] items[j]).product_id
                    != product_id by {
                    if j < earlier.len() {
                        assert(earlier[j] == items[j]);
                    }
                }
                lemma_first_index_is(items, product_id, items.len() as int);
                assert(earlier.push(last) =~= items);
            }
        }
    }
}

/// Removing keeps a cart well formed.
pub proof fn lemma_remove_keeps_wf(items: Seq<OrderProduct>, product_id: u32, quantity: u32)
    requires
        cart_wf(items),
    ensures
        cart_wf(cart_remove(items, product_id, quantity)),
{
    lemma_remove_in_wf_cart(items, product_id, quantity);
    lemma_first_index(items, product_id);
    let at = first_index(items, product_id);
    let after = cart_remove(items, product_id, quantity);
    if has_product(items, product_id) {
        if items[at].quantity > quantity {
            assert forall|i: int, j: int| 0 <= i < j < after.len() implies (
            #[trigger] after[i]).product_id != (#[trigger] after[j]).product_id by {
                assert(after[i].product_id == items[i].product_id);
                assert(after[j].product_id == items[j].product_id);
            }
        } else {
            assert forall|i: int| 0 <= i < after.len() implies (#[trigger] after[i]).quantity
                > 0 by {
                assert(after[i] == items[if i < at {
                    i
                } else {
                    i + 1
                }]);
            }
            assert forall|i: int, j: int| 0 <= i < j < after.len() implies (
            #[trigger] after[i]).product_id != (#[trigger] after[j]).product_id by {
                assert(after[i] == items[if i < at {
                    i
                } else {
                    i + 1
                }]);
                assert(after[j] == items[if j < at {
                    j
                } else {
                    j + 1
                }]);
            }
        }
    }
}

/// Adding to a cart, read as a mapping: the product's quantity becomes the
/// sum of what the cart held of it and what was added, stopped at
/// [`MAX_QUANTITY`]; no other product changes.
pub proof fn lemma_add_line_items(items: Seq<OrderProduct>, product_id: u32, quantity: u32)
    ensures
        line_items(cart_add(items, product_id, quantity)) == line_items(items).insert(
            product_id,
            saturating_sum(quantity_of(items, product_id), quantity),
        ),
{
    let after = cart_add(items, product_id, quantity);
    let at = first_index(items, product_id);
    lemma_first_index(items, product_id);
    lemma_first_index_is(after, product_id, at);
    assert forall|other: u32| other != product_id implies has_product(after, other)
        == has_product(items, other) && quantity_of(after, other) == quantity_of(
        items,
        other,
    ) by {
        lemma_first_index(items, other);
        let at_other = first_index(items, other);
        if at_other < items.len() {
            assert(after[at_other] == items[at_other]);
            assert forall|j: int| 0 <= j < at_other implies (#[trigger] after[j]).product_id
                != other by {
                assert(after[j].product_id == items[j].product_id);
            }
            lemma_first_index_is(after, other, at_other);
        } else {
            assert forall|j: int| 0 <= j < after.len() implies (#[trigger] after[j]).product_id
                != other by {
                if j < items.len() {
                    assert(after[j].product_id == items[j].product_id);
                }
            }
            lemma_first_index_is(after, other, after.len() as int);
        }
    }
    assert(line_items(after) =~= line_items(items).insert(
        product_id,
        saturating_sum(quantity_of(items, product_id), quantity),
    ));
}

/// Removing from a well-formed cart, read as a mapping: the product keeps
/// what is left of it, or leaves the mapping when the quantity removed is
/// all of it or more; no other product changes.
pub proof fn lemma_remove_line_items(items: Seq<OrderProduct>, product_id: u32, quantity: u32)
    requires
        cart_wf(items),
    ensures
        line_items(cart_remove(items, product_id, quantity)) == (if quantity_of(items, product_id)
            > quantity {
            line_items(items).insert(
                product_id,
                (quantity_of(items, product_id) - quantity) as u32,
            )
        } else {
            line_items(items).remove(product_id)
        }),
{
    let after = cart_remove(items, product_id, quantity);
    let at = first_index(items, product_id);
    lemma_remove_in_wf_cart(items, product_id, quantity);
    lemma_remove_keeps_wf(items, product_id, quantity);
    lemma_first_index(items, product_id);
    lemma_first_index(after, product_id);
    let expected = if quantity_of(items, product_id) > quantity {
        line_items(items).insert(product_id, (quantity_of(items, product_id) - quantity) as u32)
    } else {
        line_items(items).remove(product_id)
    };
    if has_product(items, product_id) && items[at].quantity > quantity {
        lemma_first_index_is(after, product_id, at);
    } else if has_product(items, product_id) {
        if has_product(after, product_id) {
            let k = first_index(after, product_id);
            assert(after[k] == items[if k < at {
                k
            } else {
                k + 1
            }]);
        }
    }
    assert forall|other: u32| other != product_id implies has_product(after, other)
        == has_product(items, other) && quantity_of(after, other) == quantity_of(
        items,
        other,
    ) by {
        lemma_first_index(items, other);
        lemma_first_index(after, other);
        let at_other = first_index(items, other);
        if has_product(items, product_id) && items[at].quantity <= quantity {
            if at_other < items.len() {
                let moved = if at_other < at {
                    at_other
                } else {
                    at_other - 1
                };
                assert(after[moved] == items[at_other]);
                assert forall|j: int| 0 <= j < moved implies (#[trigger] after[j]).product_id
                    != other by {
                    assert(after[j] == items[if j < at {
                        j
                    } else {
                        j + 1
                    }]);
                }
                lemma_first_index_is(after, other, moved);
            } else {
                assert forall|j: int| 0 <= j < after.len() implies (#[trigger] after[j]).product_id
                    != other by {
                    assert(after[j] == items[if j < at {
                        j
                    } else {
                        j + 1
                    }]);
                }
                lemma_first_index_is(after, other, after.len() as int);
            }
        } else if has_product(items, product_id) {
            if at_other < items.len() {
                assert(after[at_other] == items[at_other]);
                assert forall|j: int| 0 <= j < at_other implies (#[trigger] after[j]).product_id
                    != other by {
                    assert(after[j].product_id == items[j].product_id);
                }
                lemma_first_index_is(after, other, at_other);
            } else {
                assert forall|j: int| 0 <= j < after.len() implies (#[trigger] after[j]).product_id
                    != other by {
                    assert(after[j].product_id == items[j].product_id);
                }
                lemma_first_index_is(after, other, after.len() as int);
            }
        }
    }
    assert(line_items(after) =~= expected);
}

/// Two additions of one product are one addition of the sum, whichever
/// comes first. In a cart that had none of the product they leave one line
/// of it, at the end, with the sum of the two quantities.
pub proof fn lemma_add_twice(items: Seq<OrderProduct>, product_id: u32, a: u32, b: u32)
    ensures
        cart_add(cart_add(items, product_id, a), product_id, b) == cart_add(
            items,
            product_id,
            saturating_sum(a, b),
        ),
        cart_add(cart_add(items, product_id, a), product_id, b) == cart_add(
            cart_add(items, product_id, b),
            product_id,
            a,
        ),
        !has_product(items, product_id) ==> cart_add(
            cart_add(items, product_id, a),
            product_id,
            b,
        ) == items.push(OrderProduct { product_id, quantity: saturating_sum(a, b) }),
        !has_product(items, product_id) ==> quantity_of(
            cart_add(cart_add(items, product_id, a), product_id, b),
            product_id,
        ) == saturating_sum(a, b),
{
    lemma_first_index(items, product_id);
    let at = first_index(items, product_id);
    let first_a = cart_add(items, product_id, a);
    let first_b = cart_add(items, product_id, b);
    lemma_first_index_is(first_a, product_id, at);
    lemma_first_index_is(first_b, product_id, at);
    let both = cart_add(first_a, product_id, b);
    assert(both =~= cart_add(items, product_id, saturating_sum(a, b)));
    assert(both =~= cart_add(first_b, product_id, a));
    lemma_first_index_is(both, product_id, at);
}

/// Removing all of a product, or more than the cart holds of it, takes the
/// product out of a well-formed cart and leaves every other product as it
/// was.
pub proof fn lemma_remove_all(items: Seq<OrderProduct>, product_id: u32, quantity: u32)
    requires
        cart_wf(items),
        quantity >= quantity_of(items, product_id),
    ensures
        !has_product(cart_remove(items, product_id, quantity), product_id),
        line_items(cart_remove(items, product_id, quantity)) == line_items(items).remove(
            product_id,
        ),
{
    lemma_remove_line_items(items, product_id, quantity);
    let after = line_items(cart_remove(items, product_id, quantity));
    assert(!after.dom().contains(product_id));
}

/// A change of the cart asked for by a client.
pub enum CartCommand {
    Add(OrderProduct),
    Remove(OrderProduct),
}

/// The cart after one command. An addition of nothing is refused and leaves
/// the cart as it is.
pub open spec fn cart_after(items: Seq<OrderProduct>, command: CartCommand) -> Seq<OrderProduct> {
    match command {
        CartCommand::Add(item) => if item.quantity == 0 {
            items
        } else {
            cart_add(items, item.product_id, item.quantity)
        },
        CartCommand::Remove(item) => cart_remove(items, item.product_id, item.quantity),
    }
}

/// The cart after a list of commands, taken in order.
pub open spec fn cart_after_all(items: Seq<OrderProduct>, commands: Seq<CartCommand>) -> Seq<
    OrderProduct,
>
    decreases commands.len(),
{
    if commands.len() == 0 {
        items
    } else {
        cart_after(cart_after_all(items, commands.drop_last()), commands.last())
    }
}

/// Whatever commands a well-formed cart receives, it stays well formed: no
/// product in it ever has a quantity of zero, in the list or in the mapping.
pub proof fn lemma_commands_keep_wf(items: Seq<OrderProduct>, commands: Seq<CartCommand>)
    requires
        cart_wf(items),
    ensures
        cart_wf(cart_after_all(items, commands)),
        forall|product_id: u32| #[trigger]
            line_items(cart_after_all(items, commands)).dom().contains(product_id) ==> line_items(
                cart_after_all(items, commands),
            )[product_id] > 0,
    decreases commands.len(),
{
    if commands.len() > 0 {
        let before = cart_after_all(items, commands.drop_last());
        lemma_commands_keep_wf(items, commands.drop_last());
        match commands.last() {
            CartCommand::Add(item) => {
                if item.quantity > 0 {
                    lemma_add_keeps_wf(before, item.product_id, item.quantity);
                }
            },
            CartCommand::Remove(item) => {
                lemma_remove_keeps_wf(before, item.product_id, item.quantity);
            },
        }
    }
    let after = cart_after_all(items, commands);
    assert forall|product_id: u32| #[trigger]
        line_items(after).dom().contains(product_id) implies line_items(after)[product_id]
        > 0 by {
        lemma_first_index(after, product_id);
    }
}

} // verus!
