//! Payment: the one transition of an order from unpaid to paid.
use crate::error::{AppError, AppErrorView};
use crate::model::{Order, OrderStatus, PaymentStatus, Timestamp};
use vstd::prelude::*;

verus! {

/// The order after it was paid at `now`.
pub open spec fn paid_order(o: Order, now: Timestamp) -> Order {
    Order {
        status: OrderStatus::Paid,
        payment_status: PaymentStatus::Paid,
        paid_at: Some(now),
        updated_at: now,
        ..o
    }
}

/// Records payment of an unpaid order at `now`; an order already paid is
/// refused, so payment happens at most once.
pub fn mark_paid(order: &Order, now: Timestamp) -> (r: Result<Order, AppError>)
    ensures
        order.payment_status == PaymentStatus::Paid ==> r is Err && r->Err_0@
            == AppErrorView::BadRequest("Order already paid"@),
        order.payment_status == PaymentStatus::Unpaid ==> r is Ok && r->Ok_0 == paid_order(
            *order,
            now,
        ),
{
    match order.payment_status {
        PaymentStatus::Paid => Err(AppError::bad_request("Order already paid")),
        PaymentStatus::Unpaid => {
            let mut o = order.duplicate();
            o.status = OrderStatus::Paid;
            o.payment_status = PaymentStatus::Paid;
            o.paid_at = Some(now);
            o.updated_at = now;
            Ok(o)
        },
    }
}

} // verus!
