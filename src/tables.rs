//! The storefront's tables as mathematical sequences, what each operation
//! of the store does to them, and the facts the proofs about them rest on.
use crate::checkout::{first_failure, line_failure, CartLine};
use crate::model::{order_status_text, CartItem, Order, OrderItem, PaymentStatus, Product};
use crate::params::{normalized_offset, normalized_page, normalized_per_page, OrderListQuery, SortOrder};
use crate::response::{ApiResponse, Meta};
use crate::model::OrderList;
use vstd::prelude::*;

verus! {

/// The contents of the in-memory store, table by table, in insertion order.
pub struct StoreView {
    pub products: Seq<Product>,
    pub cart_items: Seq<CartItem>,
    pub orders: Seq<Order>,
    pub order_items: Seq<OrderItem>,
}

/// The invariant of the tables: no product has negative stock, product ids
/// are distinct, every cart line has a positive quantity, and a user has at
/// most one cart line per product.
pub open spec fn store_wf(s: StoreView) -> bool {
    &&& forall|j: int| 0 <= j < s.products.len() ==> (#[trigger] s.products[j]).stock >= 0
    &&& forall|a: int, b: int|
        0 <= a < b < s.products.len() ==> (#[trigger] s.products[a]).id != (#[trigger] s.products[b]).id
    &&& forall|j: int| 0 <= j < s.cart_items.len() ==> (#[trigger] s.cart_items[j]).quantity > 0
    &&& cart_lines_distinct(s.cart_items)
}

/// The position of the first product with id `id` at or after `i`, or -1.
pub open spec fn product_index_from(ps: Seq<Product>, id: u128, i: nat) -> int
    decreases ps.len() - i,
{
    if i >= ps.len() {
        -1
    } else if ps[i as int].id == id {
        i as int
    } else {
        product_index_from(ps, id, i + 1)
    }
}

/// The position of the product with id `id`, or -1.
pub open spec fn product_index(ps: Seq<Product>, id: u128) -> int {
    product_index_from(ps, id, 0)
}

/// The position of the first cart line of `user` for `product` at or after `i`, or -1.
pub open spec fn cart_index_from(cart: Seq<CartItem>, user: u128, product: u128, i: nat) -> int
    decreases cart.len() - i,
{
    if i >= cart.len() {
        -1
    } else if cart[i as int].user_id == user && cart[i as int].product_id == product {
        i as int
    } else {
        cart_index_from(cart, user, product, i + 1)
    }
}

/// The position of `user`'s cart line for `product`, or -1.
pub open spec fn cart_index(cart: Seq<CartItem>, user: u128, product: u128) -> int {
    cart_index_from(cart, user, product, 0)
}

/// A cart line joined to its product.
pub open spec fn line_of(p: Product, c: CartItem) -> CartLine {
    CartLine { product_id: c.product_id, quantity: c.quantity, price: p.price, stock: p.stock }
}

/// `user`'s cart lines joined to their products, in cart order; a line whose
/// product is gone is left out, as an inner join does.
pub open spec fn cart_rows(ps: Seq<Product>, cart: Seq<CartItem>, user: u128) -> Seq<CartLine>
    decreases cart.len(),
{
    if cart.len() == 0 {
        Seq::empty()
    } else {
        let prev = cart_rows(ps, cart.drop_last(), user);
        let c = cart.last();
        let j = product_index(ps, c.product_id);
        if c.user_id == user && j >= 0 {
            prev.push(line_of(ps[j], c))
        } else {
            prev
        }
    }
}

/// The cart with `user`'s lines removed.
pub open spec fn without_user(cart: Seq<CartItem>, user: u128) -> Seq<CartItem>
    decreases cart.len(),
{
    if cart.len() == 0 {
        cart
    } else {
        let prev = without_user(cart.drop_last(), user);
        if cart.last().user_id == user {
            prev
        } else {
            prev.push(cart.last())
        }
    }
}

/// The products after each line's quantity is taken off its product's
/// stock, line by line.
pub open spec fn take_stock(ps: Seq<Product>, rows: Seq<CartLine>) -> Seq<Product>
    decreases rows.len(),
{
    if rows.len() == 0 {
        ps
    } else {
        let prev = take_stock(ps, rows.drop_last());
        let l = rows.last();
        let j = product_index(prev, l.product_id);
        if j >= 0 {
            prev.update(j, Product { stock: (prev[j].stock - l.quantity) as i32, ..prev[j] })
        } else {
            prev
        }
    }
}

pub(crate) proof fn lemma_product_index_from(ps: Seq<Product>, id: u128, i: nat)
    ensures
        ({
            let r = product_index_from(ps, id, i);
            &&& r == -1 ==> forall|j: int| i <= j < ps.len() ==> ps[j].id != id
            &&& r != -1 ==> i <= r < ps.len() && ps[r].id == id
        }),
    decreases ps.len() - i,
{
    if i < ps.len() && ps[i as int].id != id {
        lemma_product_index_from(ps, id, i + 1);
    }
}

/// Where the lookup lands: on a product with that id, or nowhere when no
/// product has it.
pub proof fn lemma_product_index(ps: Seq<Product>, id: u128)
    ensures
        product_index(ps, id) == -1 <==> forall|j: int| 0 <= j < ps.len() ==> ps[j].id != id,
        product_index(ps, id) != -1 ==> 0 <= product_index(ps, id) < ps.len() && ps[product_index(
            ps,
            id,
        )].id == id,
{
    lemma_product_index_from(ps, id, 0);
}

pub(crate) proof fn lemma_product_index_same_ids_from(ps: Seq<Product>, qs: Seq<Product>, id: u128, i: nat)
    requires
        ps.len() == qs.len(),
        forall|j: int| 0 <= j < ps.len() ==> ps[j].id == qs[j].id,
    ensures
        product_index_from(ps, id, i) == product_index_from(qs, id, i),
    decreases ps.len() - i,
{
    if i < ps.len() {
        lemma_product_index_same_ids_from(ps, qs, id, i + 1);
    }
}

pub(crate) proof fn lemma_product_index_same_ids(ps: Seq<Product>, qs: Seq<Product>)
    requires
        ps.len() == qs.len(),
        forall|j: int| 0 <= j < ps.len() ==> ps[j].id == qs[j].id,
    ensures
        forall|id: u128| product_index(ps, id) == product_index(qs, id),
{
    assert forall|id: u128| product_index(ps, id) == product_index(qs, id) by {
        lemma_product_index_same_ids_from(ps, qs, id, 0);
    }
}

pub(crate) proof fn lemma_cart_index_from(cart: Seq<CartItem>, user: u128, product: u128, i: nat)
    ensures
        ({
            let r = cart_index_from(cart, user, product, i);
            &&& r == -1 ==> forall|j: int|
                i <= j < cart.len() ==> !(cart[j].user_id == user && cart[j].product_id == product)
            &&& r != -1 ==> i <= r < cart.len() && cart[r].user_id == user && cart[r].product_id
                == product
        }),
    decreases cart.len() - i,
{
    if i < cart.len() && !(cart[i as int].user_id == user && cart[i as int].product_id == product) {
        lemma_cart_index_from(cart, user, product, i + 1);
    }
}


/// The pairwise condition on cart lines: one line per (user, product).
pub open spec fn cart_lines_distinct(cart: Seq<CartItem>) -> bool {
    forall|a: int, b: int|
        0 <= a < b < cart.len() && (#[trigger] cart[a]).user_id == (#[trigger] cart[b]).user_id
            ==> cart[a].product_id != cart[b].product_id
}

/// Each joined row stands for a product that exists, carries that product's
/// price and stock, comes from one of the user's cart lines, and names a
/// product no other row names.
pub(crate) proof fn lemma_cart_rows(ps: Seq<Product>, cart: Seq<CartItem>, user: u128)
    requires
        cart_lines_distinct(cart),
    ensures
        ({
            let rows = cart_rows(ps, cart, user);
            &&& forall|k: int|
                0 <= k < rows.len() ==> {
                    let j = product_index(ps, (#[trigger] rows[k]).product_id);
                    &&& 0 <= j < ps.len()
                    &&& rows[k].price == ps[j].price
                    &&& rows[k].stock == ps[j].stock
                }
            &&& forall|k: int|
                0 <= k < rows.len() ==> exists|i: int|
                    0 <= i < cart.len() && (#[trigger] cart[i]).user_id == user
                        && cart[i].product_id == (#[trigger] rows[k]).product_id
                        && cart[i].quantity == rows[k].quantity
            &&& forall|a: int, b: int|
                0 <= a < b < rows.len() ==> (#[trigger] rows[a]).product_id
                    != (#[trigger] rows[b]).product_id
        }),
    decreases cart.len(),
{
    if cart.len() > 0 {
        let d = cart.drop_last();
        assert(cart_lines_distinct(d)) by {
            assert forall|a: int, b: int|
                0 <= a < b < d.len() && (#[trigger] d[a]).user_id == (#[trigger] d[b]).user_id
                    implies d[a].product_id != d[b].product_id by {
                assert(d[a] == cart[a] && d[b] == cart[b]);
            }
        }
        lemma_cart_rows(ps, d, user);
        lemma_product_index(ps, cart.last().product_id);
        let prev = cart_rows(ps, d, user);
        let rows = cart_rows(ps, cart, user);
        assert forall|k: int| 0 <= k < prev.len() implies exists|i: int|
            0 <= i < cart.len() && (#[trigger] cart[i]).user_id == user && cart[i].product_id
                == (#[trigger] prev[k]).product_id && cart[i].quantity == prev[k].quantity by {
            let i = choose|i: int|
                0 <= i < d.len() && (#[trigger] d[i]).user_id == user && d[i].product_id
                    == prev[k].product_id && d[i].quantity == prev[k].quantity;
            assert(cart[i] == d[i]);
        }
        let c = cart.last();
        if !(c.user_id == user && product_index(ps, c.product_id) >= 0) {
            assert(rows == prev);
        } else {
            let n = cart.len() - 1;
            assert(rows == prev.push(line_of(ps[product_index(ps, c.product_id)], c)));
            assert forall|k: int| 0 <= k < rows.len() implies {
                let j = product_index(ps, (#[trigger] rows[k]).product_id);
                &&& 0 <= j < ps.len()
                &&& rows[k].price == ps[j].price
                &&& rows[k].stock == ps[j].stock
            } by {
                if k < prev.len() {
                    assert(rows[k] == prev[k]);
                }
            }
            assert(rows[prev.len() as int].product_id == cart[n].product_id);
            assert(cart[n].user_id == user);
            assert forall|a: int, b: int|
                0 <= a < b < rows.len() implies (#[trigger] rows[a]).product_id
                != (#[trigger] rows[b]).product_id by {
                if b == prev.len() {
                    assert(rows[a] == prev[a]);
                    let i = choose|i: int|
                        0 <= i < cart.len() && (#[trigger] cart[i]).user_id == user
                            && cart[i].product_id == prev[a].product_id && cart[i].quantity
                            == prev[a].quantity;
                    assert(i < n) by {
                        if i == n {
                        }
                    }
                }
            }
            assert forall|k: int| 0 <= k < rows.len() implies exists|i: int|
                0 <= i < cart.len() && (#[trigger] cart[i]).user_id == user
                    && cart[i].product_id == (#[trigger] rows[k]).product_id && cart[i].quantity
                    == rows[k].quantity by {
                if k == prev.len() {
                    assert(cart[n].user_id == user);
                } else {
                    assert(rows[k] == prev[k]);
                }
            }
        }
    }
}

/// A line with no failure before position `n` passed every check.
pub(crate) proof fn lemma_no_failure(rows: Seq<CartLine>, n: nat)
    requires
        n <= rows.len(),
        first_failure(rows, n) is None,
    ensures
        forall|k: int| 0 <= k < n ==> line_failure(rows, k) is None,
    decreases n,
{
    if n > 0 {
        lemma_no_failure(rows, (n - 1) as nat);
    }
}

/// Rows that passed the checks: each names an existing product, asks for a
/// positive quantity no larger than the stock it read, and no two rows name
/// the same product.
pub open spec fn rows_fit_stock(ps: Seq<Product>, rows: Seq<CartLine>) -> bool {
    &&& forall|k: int|
        0 <= k < rows.len() ==> {
            let j = product_index(ps, (#[trigger] rows[k]).product_id);
            &&& 0 <= j < ps.len()
            &&& rows[k].stock == ps[j].stock
            &&& 0 < rows[k].quantity <= rows[k].stock
        }
    &&& forall|a: int, b: int|
        0 <= a < b < rows.len() ==> (#[trigger] rows[a]).product_id != (#[trigger] rows[b]).product_id
}

/// Taking the stock of the first `m` rows changes only the stock of the
/// products they name, each by exactly its row's quantity.
pub(crate) proof fn lemma_take_stock(ps: Seq<Product>, rows: Seq<CartLine>, m: nat)
    requires
        m <= rows.len(),
        rows_fit_stock(ps, rows),
    ensures
        ({
            let q = take_stock(ps, rows.take(m as int));
            &&& q.len() == ps.len()
            &&& forall|j: int|
                0 <= j < ps.len() ==> (#[trigger] q[j]) == Product { stock: q[j].stock, ..ps[j] }
            &&& forall|j: int|
                0 <= j < ps.len() && (forall|k: int|
                    0 <= k < m ==> product_index(ps, (#[trigger] rows[k]).product_id) != j)
                    ==> (#[trigger] q[j]).stock == ps[j].stock
            &&& forall|k: int|
                0 <= k < m ==> q[product_index(ps, (#[trigger] rows[k]).product_id)].stock
                    == ps[product_index(ps, rows[k].product_id)].stock - rows[k].quantity
        }),
    decreases m,
{
    if m > 0 {
        lemma_take_stock(ps, rows, (m - 1) as nat);
        let t = rows.take(m as int);
        assert(t.drop_last() =~= rows.take(m - 1));
        let prev = take_stock(ps, rows.take(m - 1));
        lemma_product_index_same_ids(ps, prev);
        let l = rows[m - 1];
        let js = product_index(ps, l.product_id);
        lemma_product_index(ps, l.product_id);
        assert forall|k: int| 0 <= k < m - 1 implies product_index(
            ps,
            (#[trigger] rows[k]).product_id,
        ) != js by {
            lemma_product_index(ps, rows[k].product_id);
        }
        assert(prev[js].stock == ps[js].stock);
    }
}

/// Removing a user's lines leaves none of theirs, keeps only lines that were
/// there, and keeps the cart invariant.
pub(crate) proof fn lemma_without_user(cart: Seq<CartItem>, user: u128)
    requires
        cart_lines_distinct(cart),
        forall|j: int| 0 <= j < cart.len() ==> (#[trigger] cart[j]).quantity > 0,
    ensures
        ({
            let r = without_user(cart, user);
            &&& forall|j: int| 0 <= j < r.len() ==> (#[trigger] r[j]).user_id != user
            &&& forall|j: int| 0 <= j < r.len() ==> exists|i: int| 0 <= i < cart.len() && #[trigger] cart[i] == #[trigger] r[j]
            &&& cart_lines_distinct(r)
            &&& forall|j: int| 0 <= j < r.len() ==> (#[trigger] r[j]).quantity > 0
        }),
    decreases cart.len(),
{
    if cart.len() > 0 {
        let d = cart.drop_last();
        assert(cart_lines_distinct(d)) by {
            assert forall|a: int, b: int|
                0 <= a < b < d.len() && (#[trigger] d[a]).user_id == (#[trigger] d[b]).user_id
                    implies d[a].product_id != d[b].product_id by {
                assert(d[a] == cart[a] && d[b] == cart[b]);
            }
        }
        assert forall|j: int| 0 <= j < d.len() implies (#[trigger] d[j]).quantity > 0 by {
            assert(d[j] == cart[j]);
        }
        lemma_without_user(d, user);
        let prev = without_user(d, user);
        let r = without_user(cart, user);
        let n = cart.len() - 1;
        assert forall|j: int| 0 <= j < prev.len() implies exists|i: int|
            0 <= i < n && #[trigger] cart[i] == #[trigger] prev[j] by {
            let i = choose|i: int| 0 <= i < d.len() && #[trigger] d[i] == prev[j];
            assert(cart[i] == d[i]);
        }
        if cart.last().user_id != user {
            assert forall|a: int, b: int|
                0 <= a < b < r.len() && (#[trigger] r[a]).user_id == (#[trigger] r[b]).user_id
                    implies r[a].product_id != r[b].product_id by {
                if b == prev.len() {
                    assert(r[a] == prev[a]);
                    let i = choose|i: int| 0 <= i < n && #[trigger] cart[i] == prev[a];
                    assert(r[b] == cart[n]);
                } else {
                    assert(r[a] == prev[a] && r[b] == prev[b]);
                }
            }
            assert forall|j: int| 0 <= j < r.len() implies exists|i: int|
                0 <= i < cart.len() && #[trigger] cart[i] == #[trigger] r[j] by {
                if j == prev.len() {
                    assert(cart[n] == r[j]);
                } else {
                    assert(r[j] == prev[j]);
                }
            }
        }
    }
}

/// The position of the first order with id `id` at or after `i` that
/// belongs to `owner` (to anyone, when `owner` is `None`), or -1.
pub open spec fn order_index_from(os: Seq<Order>, owner: Option<u128>, id: u128, i: nat) -> int
    decreases os.len() - i,
{
    if i >= os.len() {
        -1
    } else if os[i as int].id == id && (owner is None || owner == Some(os[i as int].user_id)) {
        i as int
    } else {
        order_index_from(os, owner, id, i + 1)
    }
}

/// The position of order `id` as `owner` may see it, or -1.
pub open spec fn order_index(os: Seq<Order>, owner: Option<u128>, id: u128) -> int {
    order_index_from(os, owner, id, 0)
}

/// The lines of order `order_id`, in the order they were recorded.
pub open spec fn items_of(items: Seq<OrderItem>, order_id: u128) -> Seq<OrderItem>
    decreases items.len(),
{
    if items.len() == 0 {
        items
    } else {
        let prev = items_of(items.drop_last(), order_id);
        if items.last().order_id == order_id {
            prev.push(items.last())
        } else {
            prev
        }
    }
}

/// What paying order `id` on behalf of `user` comes to.
pub enum PayOutcome {
    NotFound,
    AlreadyPaid,
    Payable(int),
}

/// A user may pay only an order of their own, and only while it is unpaid.
pub open spec fn pay_outcome(os: Seq<Order>, user: u128, id: u128) -> PayOutcome {
    let j = order_index(os, Some(user), id);
    if j == -1 {
        PayOutcome::NotFound
    } else if os[j].payment_status == PaymentStatus::Paid {
        PayOutcome::AlreadyPaid
    } else {
        PayOutcome::Payable(j)
    }
}

pub(crate) proof fn lemma_order_index_from(os: Seq<Order>, owner: Option<u128>, id: u128, i: nat)
    ensures
        ({
            let r = order_index_from(os, owner, id, i);
            &&& r == -1 || (i <= r < os.len() && os[r].id == id && (owner is None || owner == Some(
                os[r].user_id,
            )))
            &&& r != -1 ==> forall|k: int|
                i <= k < r ==> !(os[k].id == id && (owner is None || owner == Some(os[k].user_id)))
        }),
    decreases os.len() - i,
{
    if i < os.len() && !(os[i as int].id == id && (owner is None || owner == Some(
        os[i as int].user_id,
    ))) {
        lemma_order_index_from(os, owner, id, i + 1);
    }
}

pub(crate) proof fn lemma_order_index_update_from(
    os: Seq<Order>,
    owner: Option<u128>,
    id: u128,
    j: int,
    o: Order,
    i: nat,
)
    requires
        0 <= j < os.len(),
        o.id == os[j].id,
        o.user_id == os[j].user_id,
    ensures
        order_index_from(os.update(j, o), owner, id, i) == order_index_from(os, owner, id, i),
    decreases os.len() - i,
{
    if i < os.len() {
        lemma_order_index_update_from(os, owner, id, j, o, i + 1);
    }
}

/// The products whose stock is at most `threshold`, in catalog order.
pub open spec fn low_stock_of(ps: Seq<Product>, threshold: i32) -> Seq<Product>
    decreases ps.len(),
{
    if ps.len() == 0 {
        ps
    } else {
        let prev = low_stock_of(ps.drop_last(), threshold);
        if ps.last().stock <= threshold {
            prev.push(ps.last())
        } else {
            prev
        }
    }
}

/// Whether an order is visible to `owner` (everyone's, when `None`) and has
/// the status whose text is `status` (any, when `None`).
pub open spec fn order_matches(o: Order, owner: Option<u128>, status: Option<Seq<char>>) -> bool {
    &&& (owner is None || owner == Some(o.user_id))
    &&& (status is None || order_status_text(o.status) == status->Some_0)
}

/// The orders that match, in the order they were placed.
pub open spec fn matching_orders(os: Seq<Order>, owner: Option<u128>, status: Option<Seq<char>>) -> Seq<Order>
    decreases os.len(),
{
    if os.len() == 0 {
        os
    } else {
        let prev = matching_orders(os.drop_last(), owner, status);
        if order_matches(os.last(), owner, status) {
            prev.push(os.last())
        } else {
            prev
        }
    }
}

/// The status a listing filters by: none when absent or empty.
pub open spec fn status_filter_of(q: OrderListQuery) -> Option<Seq<char>> {
    match q.status {
        Some(t) => if t@.len() > 0 {
            Some(t@)
        } else {
            None
        },
        None => None,
    }
}

/// A listing response: the page of matching orders, and as metadata the
/// normalized page and page size and the number of matching orders.
pub open spec fn is_order_listing(
    r: ApiResponse<OrderList>,
    os: Seq<Order>,
    owner: Option<u128>,
    q: OrderListQuery,
) -> bool {
    &&& r.data is Some
    &&& r.data->Some_0.items@ == order_page(os, owner, q)
    &&& r.meta == Some(
        Meta {
            page: Some(normalized_page(q.pagination) as i64),
            per_page: Some(normalized_per_page(q.pagination) as i64),
            total: Some(count_as_i64(matching_orders(os, owner, status_filter_of(q)).len())),
        },
    )
}

/// A count as an `i64`, held at `i64::MAX`.
pub open spec fn count_as_i64(n: nat) -> i64 {
    if n > i64::MAX {
        i64::MAX
    } else {
        n as i64
    }
}

/// The matching orders oldest first for an ascending listing, newest first
/// otherwise.
pub open spec fn ordered_orders(m: Seq<Order>, q: OrderListQuery) -> Seq<Order> {
    if q.sort_order == Some(SortOrder::Asc) {
        m
    } else {
        Seq::new(m.len(), |i: int| m[m.len() - 1 - i])
    }
}

/// One page of a listing: at most `per_page` orders after skipping `offset`.
pub open spec fn order_page(os: Seq<Order>, owner: Option<u128>, q: OrderListQuery) -> Seq<Order> {
    let all = ordered_orders(matching_orders(os, owner, status_filter_of(q)), q);
    let start = if normalized_offset(q.pagination) < all.len() {
        normalized_offset(q.pagination)
    } else {
        all.len() as int
    };
    let end = if start + normalized_per_page(q.pagination) < all.len() {
        start + normalized_per_page(q.pagination)
    } else {
        all.len() as int
    };
    all.subrange(start, end)
}

} // verus!
