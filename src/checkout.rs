//! Checkout: turning the locked rows of a user's cart into an order.
//!
//! The caller reads the cart joined to its products while holding a row
//! lock on each product, hands the rows here, and applies what comes back
//! inside the same transaction.
use crate::clock::{now_micros, utc_date_stamp};
use crate::error::{AppError, AppErrorView};
use crate::ids::{id_text, new_id, uuid_text};
use crate::model::{Order, OrderItem, OrderStatus, OrderWithItems, PaymentStatus};
use vstd::prelude::*;

verus! {

/// A cart line joined to its product, as read under the product's row lock.
#[derive(Debug, Clone, Copy, PartialEq, Eq, Structural)]
pub struct CartLine {
    pub product_id: u128,
    pub quantity: i32,
    pub price: i64,
    pub stock: i32,
}

/// Why a checkout is refused.
pub enum CheckoutFailure {
    EmptyCart,
    InvalidQuantity,
    InsufficientStock(u128),
    TotalOutOfRange,
}

/// What one line costs: unit price times quantity.
pub open spec fn line_amount(l: CartLine) -> int {
    l.price as int * l.quantity as int
}

/// The sum of the amounts of the lines.
pub open spec fn lines_total(rows: Seq<CartLine>) -> int
    decreases rows.len(),
{
    if rows.len() == 0 {
        0
    } else {
        lines_total(rows.drop_last()) + line_amount(rows.last())
    }
}

/// The sum of unit price times quantity over the lines of an order.
pub open spec fn items_total(items: Seq<OrderItem>) -> int
    decreases items.len(),
{
    if items.len() == 0 {
        0
    } else {
        items_total(items.drop_last()) + items.last().price as int * items.last().quantity as int
    }
}

/// Whether a value fits in an `i64`.
pub open spec fn fits_i64(x: int) -> bool {
    i64::MIN <= x <= i64::MAX
}

/// What is wrong with line `k`, given that the lines before it passed: a
/// quantity that is not positive, too little stock, or a running total that
/// leaves the `i64` range.
pub open spec fn line_failure(rows: Seq<CartLine>, k: int) -> Option<CheckoutFailure> {
    let l = rows[k];
    if l.quantity <= 0 {
        Some(CheckoutFailure::InvalidQuantity)
    } else if l.stock < l.quantity {
        Some(CheckoutFailure::InsufficientStock(l.product_id))
    } else if !fits_i64(lines_total(rows.take(k + 1))) {
        Some(CheckoutFailure::TotalOutOfRange)
    } else {
        None
    }
}

/// The first failure among the first `n` lines, in order.
pub open spec fn first_failure(rows: Seq<CartLine>, n: nat) -> Option<CheckoutFailure>
    decreases n,
{
    if n == 0 {
        None
    } else {
        match first_failure(rows, (n - 1) as nat) {
            Some(f) => Some(f),
            None => line_failure(rows, n - 1),
        }
    }
}

/// Why checking out these lines fails, or `None` when it succeeds.
pub open spec fn checkout_failure(rows: Seq<CartLine>) -> Option<CheckoutFailure> {
    if rows.len() == 0 {
        Some(CheckoutFailure::EmptyCart)
    } else {
        first_failure(rows, rows.len())
    }
}

/// The message that names a product whose stock is short.
pub open spec fn insufficient_stock_message(product_id: u128) -> Seq<char> {
    "Insufficient stock for product "@ + uuid_text(product_id)
}

/// The error reported for each failure.
pub open spec fn failure_error(f: CheckoutFailure) -> AppErrorView {
    match f {
        CheckoutFailure::EmptyCart => AppErrorView::BadRequest("Cart is empty"@),
        CheckoutFailure::InvalidQuantity => AppErrorView::BadRequest("Cart has invalid quantity"@),
        CheckoutFailure::InsufficientStock(p) => AppErrorView::BadRequest(
            insufficient_stock_message(p),
        ),
        CheckoutFailure::TotalOutOfRange => AppErrorView::BadRequest(
            "Order total is out of range"@,
        ),
    }
}

/// `INV-<date>-<first 8 hex digits of the order id>`.
pub open spec fn invoice_text(order_id: u128, date: Seq<char>) -> Seq<char> {
    "INV-"@ + date + "-"@ + uuid_text(order_id).take(8)
}

/// Whether `t` is an invoice number of the order for some date.
pub open spec fn is_invoice_of(t: Seq<char>, order_id: u128) -> bool {
    exists|date: Seq<char>| t == invoice_text(order_id, date)
}

pub(crate) proof fn lemma_first_failure_stays(rows: Seq<CartLine>, m: nat, n: nat)
    requires
        m <= n,
        first_failure(rows, m) is Some,
    ensures
        first_failure(rows, n) == first_failure(rows, m),
    decreases n - m,
{
    if m < n {
        lemma_first_failure_stays(rows, m, (n - 1) as nat);
    }
}

/// The invoice number of an order, from the order id and a date written
/// `YYYYMMDD`.
pub fn format_invoice_number(order_id: u128, date: &str) -> (r: String)
    ensures
        r@ == invoice_text(order_id, date@),
{
    let full = id_text(order_id);
    let short = full.as_str().substring_char(0, 8);
    let mut s = String::from_str("INV-");
    s.append(date);
    s.append("-");
    s.append(short);
    s
}

/// The invoice number of an order placed today (UTC).
pub fn build_invoice_number(order_id: u128) -> (r: String)
    ensures
        is_invoice_of(r@, order_id),
{
    let date = utc_date_stamp();
    let r = format_invoice_number(order_id, date.as_str());
    assert(r@ == invoice_text(order_id, date@));
    r
}

fn insufficient_stock(product_id: u128) -> (r: AppError)
    ensures
        r@ == AppErrorView::BadRequest(insufficient_stock_message(product_id)),
{
    let mut s = String::from_str("Insufficient stock for product ");
    s.append(id_text(product_id).as_str());
    AppError::BadRequest(s)
}

/// Checks the locked cart lines in order and sums what the order costs.
pub fn checkout_total(rows: &Vec<CartLine>) -> (r: Result<i64, AppError>)
    ensures
        match r {
            Ok(t) => checkout_failure(rows@) is None && t == lines_total(rows@),
            Err(e) => checkout_failure(rows@) is Some && e@ == failure_error(
                checkout_failure(rows@)->Some_0,
            ),
        },
{
    if rows.len() == 0 {
        return Err(AppError::bad_request("Cart is empty"));
    }
    let mut total: i128 = 0;
    let mut i: usize = 0;
    while i < rows.len()
        invariant
            0 <= i <= rows@.len(),
            rows@.len() > 0,
            first_failure(rows@, i as nat) is None,
            total == lines_total(rows@.take(i as int)),
            fits_i64(total as int),
        decreases rows@.len() - i,
    {
        let l = rows[i];
        assert(rows@.take(i + 1).drop_last() =~= rows@.take(i as int));
        if l.quantity <= 0 {
            proof {
                lemma_first_failure_stays(rows@, (i + 1) as nat, rows@.len());
            }
            return Err(AppError::bad_request("Cart has invalid quantity"));
        }
        if l.stock < l.quantity {
            proof {
                lemma_first_failure_stays(rows@, (i + 1) as nat, rows@.len());
            }
            return Err(insufficient_stock(l.product_id));
        }
        let price: i128 = l.price as i128;
        let quantity: i128 = l.quantity as i128;
        assert(-0x8000_0000_0000_0000_0000_0000 <= price * quantity <= 0x8000_0000_0000_0000_0000_0000)
            by (nonlinear_arith)
            requires
                i64::MIN <= price <= i64::MAX,
                1 <= quantity <= i32::MAX,
        ;
        let next: i128 = total + price * quantity;
        if next < i64::MIN as i128 || next > i64::MAX as i128 {
            proof {
                lemma_first_failure_stays(rows@, (i + 1) as nat, rows@.len());
            }
            return Err(AppError::bad_request("Order total is out of range"));
        }
        total = next;
        i = i + 1;
    }
    assert(rows@.take(rows@.len() as int) =~= rows@);
    Ok(total as i64)
}

/// What a successful checkout of `rows` for `user_id` produces: a pending,
/// unpaid order whose total is the sum over the lines, and one order line
/// per cart line with the unit price as it was read.
pub open spec fn is_placed_order(p: OrderWithItems, user_id: u128, rows: Seq<CartLine>) -> bool {
    &&& p.order.user_id == user_id
    &&& p.order.total_amount == lines_total(rows)
    &&& p.order.status == OrderStatus::Pending
    &&& p.order.payment_status == PaymentStatus::Unpaid
    &&& p.order.paid_at is None
    &&& p.order.updated_at == p.order.created_at
    &&& is_invoice_of(p.order.invoice_number@, p.order.id)
    &&& p.items@.len() == rows.len()
    &&& forall|k: int|
        0 <= k < rows.len() ==> {
            &&& (#[trigger] p.items@[k]).order_id == p.order.id
            &&& p.items@[k].product_id == rows[k].product_id
            &&& p.items@[k].quantity == rows[k].quantity
            &&& p.items@[k].price == rows[k].price
            &&& p.items@[k].created_at == p.order.created_at
        }
}

/// Validates the locked lines and builds the order and its lines, with
/// fresh ids, today's invoice number and the current time.
pub fn prepare_checkout(user_id: u128, rows: &Vec<CartLine>) -> (r: Result<OrderWithItems, AppError>)
    ensures
        match r {
            Ok(p) => {
                &&& checkout_failure(rows@) is None
                &&& is_placed_order(p, user_id, rows@)
                &&& items_total(p.items@) == p.order.total_amount
            },
            Err(e) => checkout_failure(rows@) is Some && e@ == failure_error(
                checkout_failure(rows@)->Some_0,
            ),
        },
{
    let total = match checkout_total(rows) {
        Ok(t) => t,
        Err(e) => return Err(e),
    };
    let order_id = new_id();
    let invoice_number = build_invoice_number(order_id);
    let now = now_micros();
    let mut items: Vec<OrderItem> = Vec::new();
    let mut i: usize = 0;
    while i < rows.len()
        invariant
            0 <= i <= rows@.len(),
            items@.len() == i,
            items_total(items@) == lines_total(rows@.take(i as int)),
            forall|k: int|
                0 <= k < i ==> {
                    &&& (#[trigger] items@[k]).order_id == order_id
                    &&& items@[k].product_id == rows@[k].product_id
                    &&& items@[k].quantity == rows@[k].quantity
                    &&& items@[k].price == rows@[k].price
                    &&& items@[k].created_at == now
                },
        decreases rows@.len() - i,
    {
        let l = rows[i];
        let item = OrderItem {
            id: new_id(),
            order_id,
            product_id: l.product_id,
            quantity: l.quantity,
            price: l.price,
            created_at: now,
        };
        let ghost before = items@;
        items.push(item);
        assert(items@.drop_last() =~= before);
        assert(rows@.take(i + 1).drop_last() =~= rows@.take(i as int));
        i = i + 1;
    }
    assert(rows@.take(rows@.len() as int) =~= rows@);
    let order = Order {
        id: order_id,
        user_id,
        total_amount: total,
        status: OrderStatus::Pending,
        payment_status: PaymentStatus::Unpaid,
        invoice_number,
        paid_at: None,
        created_at: now,
        updated_at: now,
    };
    Ok(OrderWithItems { order, items })
}

} // verus!
