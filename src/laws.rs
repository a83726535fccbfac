//! What holds of the store across several operations: payment happens
//! once, checkout never drives stock below zero, and of two buyers
//! competing for the last unit only one gets it.
use crate::checkout::{
    checkout_failure, first_failure, lemma_first_failure_stays, line_failure, lines_total, CartLine,
    CheckoutFailure,
};
use crate::model::{CartItem, Order, Product, Timestamp};
use crate::payment::paid_order;
use crate::tables::{
    cart_rows, lemma_cart_rows, lemma_no_failure, lemma_order_index_from,
    lemma_order_index_update_from, lemma_product_index, lemma_product_index_same_ids,
    lemma_take_stock, line_of, pay_outcome, product_index, rows_fit_stock, store_wf, take_stock,
    without_user, PayOutcome, StoreView,
};
use vstd::prelude::*;

verus! {

/// Paying an order a second time is refused: once a payment went through,
/// the same order is found again and is already paid, so the second call
/// fails with a bad request and changes nothing.
pub proof fn lemma_second_payment_refused(os: Seq<Order>, user: u128, id: u128, now: Timestamp)
    requires
        pay_outcome(os, user, id) is Payable,
    ensures
        ({
            let j = pay_outcome(os, user, id)->Payable_0;
            pay_outcome(os.update(j, paid_order(os[j], now)), user, id) == PayOutcome::AlreadyPaid
        }),
{
    let j = pay_outcome(os, user, id)->Payable_0;
    lemma_order_index_from(os, Some(user), id, 0);
    lemma_order_index_update_from(os, Some(user), id, j, paid_order(os[j], now), 0);
}

/// The rows with each stock read again from `qs`, the same products as `ps`
/// after their stock changed.
pub open spec fn reread_stock(rows: Seq<CartLine>, ps: Seq<Product>, qs: Seq<Product>) -> Seq<CartLine> {
    Seq::new(
        rows.len(),
        |k: int| CartLine { stock: qs[product_index(ps, rows[k].product_id)].stock, ..rows[k] },
    )
}

/// Another user's checkout leaves `user`'s cart as it was; what `user` reads
/// afterwards differs only in the stock.
pub(crate) proof fn lemma_rows_after_other_checkout(
    ps: Seq<Product>,
    qs: Seq<Product>,
    cart: Seq<CartItem>,
    other: u128,
    user: u128,
)
    requires
        other != user,
        ps.len() == qs.len(),
        forall|j: int|
            0 <= j < ps.len() ==> (#[trigger] qs[j]) == (Product { stock: qs[j].stock, ..ps[j] }),
    ensures
        cart_rows(qs, without_user(cart, other), user) == reread_stock(cart_rows(ps, cart, user), ps, qs),
    decreases cart.len(),
{
    lemma_product_index_same_ids(ps, qs);
    if cart.len() > 0 {
        let d = cart.drop_last();
        let c = cart.last();
        lemma_rows_after_other_checkout(ps, qs, d, other, user);
        let w = without_user(d, other);
        let prev = cart_rows(ps, d, user);
        if c.user_id != other {
            let wc = without_user(cart, other);
            assert(wc == w.push(c));
            assert(wc.drop_last() =~= w);
            assert(wc.last() == c);
            let j = product_index(ps, c.product_id);
            if c.user_id == user && j >= 0 {
                lemma_product_index(ps, c.product_id);
                assert(reread_stock(prev.push(line_of(ps[j], c)), ps, qs) =~= reread_stock(prev, ps, qs).push(line_of(qs[j], c)));
            }
        }
    }
}

/// Equal prices and quantities give equal totals, whatever the stock.
pub(crate) proof fn lemma_lines_total_ignores_stock(r1: Seq<CartLine>, r2: Seq<CartLine>)
    requires
        r1.len() == r2.len(),
        forall|k: int|
            0 <= k < r1.len() ==> (#[trigger] r1[k]).price == r2[k].price && r1[k].quantity
                == r2[k].quantity,
    ensures
        lines_total(r1) == lines_total(r2),
    decreases r1.len(),
{
    if r1.len() > 0 {
        lemma_lines_total_ignores_stock(r1.drop_last(), r2.drop_last());
    }
}

pub(crate) proof fn lemma_all_pass(rows: Seq<CartLine>, n: nat)
    requires
        n <= rows.len(),
        forall|k: int| 0 <= k < n ==> line_failure(rows, k) is None,
    ensures
        first_failure(rows, n) is None,
    decreases n,
{
    if n > 0 {
        lemma_all_pass(rows, (n - 1) as nat);
    }
}

pub(crate) proof fn lemma_rows_fit_stock(s: StoreView, user: u128)
    requires
        store_wf(s),
        checkout_failure(cart_rows(s.products, s.cart_items, user)) is None,
    ensures
        rows_fit_stock(s.products, cart_rows(s.products, s.cart_items, user)),
{
    let rows = cart_rows(s.products, s.cart_items, user);
    lemma_cart_rows(s.products, s.cart_items, user);
    lemma_no_failure(rows, rows.len());
    assert forall|k: int| 0 <= k < rows.len() implies {
        let j = product_index(s.products, (#[trigger] rows[k]).product_id);
        &&& 0 <= j < s.products.len()
        &&& rows[k].stock == s.products[j].stock
        &&& 0 < rows[k].quantity <= rows[k].stock
    } by {
        assert(line_failure(rows, k) is None);
    }
}

/// Two users whose carts share one product, of which one unit is left, and
/// nothing else: each checkout alone would go through, but once the first
/// has, the second fails for want of stock of that product.
pub proof fn lemma_competing_checkouts(s: StoreView, first: u128, second: u128, product_id: u128)
    requires
        store_wf(s),
        first != second,
        checkout_failure(cart_rows(s.products, s.cart_items, first)) is None,
        checkout_failure(cart_rows(s.products, s.cart_items, second)) is None,
        product_index(s.products, product_id) >= 0,
        s.products[product_index(s.products, product_id)].stock == 1,
        exists|k: int|
            0 <= k < cart_rows(s.products, s.cart_items, first).len() && (#[trigger] cart_rows(
                s.products,
                s.cart_items,
                first,
            )[k]).product_id == product_id,
        exists|k: int|
            0 <= k < cart_rows(s.products, s.cart_items, second).len() && (#[trigger] cart_rows(
                s.products,
                s.cart_items,
                second,
            )[k]).product_id == product_id,
        forall|a: int, b: int|
            0 <= a < cart_rows(s.products, s.cart_items, first).len() && 0 <= b < cart_rows(
                s.products,
                s.cart_items,
                second,
            ).len() && (#[trigger] cart_rows(s.products, s.cart_items, first)[a]).product_id
                == (#[trigger] cart_rows(s.products, s.cart_items, second)[b]).product_id
                ==> cart_rows(s.products, s.cart_items, first)[a].product_id == product_id,
    ensures
        checkout_failure(
            cart_rows(
                take_stock(s.products, cart_rows(s.products, s.cart_items, first)),
                without_user(s.cart_items, first),
                second,
            ),
        ) == Some(CheckoutFailure::InsufficientStock(product_id)),
{
    let ps = s.products;
    let ra = cart_rows(ps, s.cart_items, first);
    let rb = cart_rows(ps, s.cart_items, second);
    let qs = take_stock(ps, ra);
    lemma_rows_fit_stock(s, first);
    lemma_rows_fit_stock(s, second);
    lemma_take_stock(ps, ra, ra.len());
    assert(ra.take(ra.len() as int) =~= ra);
    lemma_rows_after_other_checkout(ps, qs, s.cart_items, first, second);
    let rb2 = cart_rows(qs, without_user(s.cart_items, first), second);
    assert(rb2 == reread_stock(rb, ps, qs));
    let jp = product_index(ps, product_id);
    lemma_product_index(ps, product_id);
    let ka = choose|k: int| 0 <= k < ra.len() && (#[trigger] ra[k]).product_id == product_id;
    let kb = choose|k: int| 0 <= k < rb.len() && (#[trigger] rb[k]).product_id == product_id;
    assert(qs[jp].stock == 0);
    lemma_no_failure(rb, rb.len());
    assert forall|k: int| 0 <= k < kb implies line_failure(rb2, k) is None by {
        assert(line_failure(rb, k) is None);
        let q = rb[k].product_id;
        assert(q != product_id);
        let jq = product_index(ps, q);
        lemma_product_index(ps, q);
        assert forall|i: int| 0 <= i < ra.len() implies product_index(ps, (#[trigger] ra[i]).product_id) != jq by {
            lemma_product_index(ps, ra[i].product_id);
        }
        assert(qs[jq].stock == ps[jq].stock);
        assert(rb2[k] == rb[k]);
        lemma_lines_total_ignores_stock(rb2.take(k + 1), rb.take(k + 1));
    }
    lemma_all_pass(rb2, kb as nat);
    assert(rb2[kb].stock == 0);
    assert(line_failure(rb2, kb) == Some(CheckoutFailure::InsufficientStock(product_id)));
    assert(first_failure(rb2, (kb + 1) as nat) == Some(CheckoutFailure::InsufficientStock(product_id)));
    lemma_first_failure_stays(rb2, (kb + 1) as nat, rb2.len());
}

/// Checkout never drives stock below zero: when it goes through, every
/// product's stock after it is at least zero; and when any line asks for
/// more than its product has, it does not go through at all, and (by the
/// contract of [`Store::checkout`]) nothing is changed.
pub proof fn lemma_checkout_stock_non_negative(s: StoreView, user: u128)
    requires
        store_wf(s),
    ensures
        ({
            let rows = cart_rows(s.products, s.cart_items, user);
            &&& checkout_failure(rows) is None ==> forall|j: int|
                0 <= j < s.products.len() ==> (#[trigger] take_stock(s.products, rows)[j]).stock >= 0
            &&& (exists|k: int| 0 <= k < rows.len() && (#[trigger] rows[k]).quantity > rows[k].stock)
                ==> checkout_failure(rows) is Some
        }),
{
    let ps = s.products;
    let rows = cart_rows(ps, s.cart_items, user);
    if checkout_failure(rows) is None {
        lemma_rows_fit_stock(s, user);
        lemma_take_stock(ps, rows, rows.len());
        assert(rows.take(rows.len() as int) =~= rows);
        let q = take_stock(ps, rows);
        assert forall|j: int| 0 <= j < ps.len() implies (#[trigger] take_stock(ps, rows)[j]).stock >= 0 by {
            assert(ps[j].stock >= 0);
            if exists|i: int| 0 <= i < rows.len() && product_index(ps, (#[trigger] rows[i]).product_id) == j {
                let i = choose|i: int| 0 <= i < rows.len() && product_index(ps, (#[trigger] rows[i]).product_id) == j;
                assert(rows[i].stock == ps[j].stock);
            }
        }
        if exists|k: int| 0 <= k < rows.len() && (#[trigger] rows[k]).quantity > rows[k].stock {
            let k = choose|k: int| 0 <= k < rows.len() && (#[trigger] rows[k]).quantity > rows[k].stock;
            assert(false);
        }
    }
}

} // verus!
