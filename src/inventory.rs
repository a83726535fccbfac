//! Inventory adjustment: a relative change of a product's stock.
use crate::error::{AppError, AppErrorView};
use vstd::prelude::*;

verus! {

/// A change of zero is refused.
pub fn check_inventory_delta(delta: i32) -> (r: Result<(), AppError>)
    ensures
        r is Ok <==> delta != 0,
        r is Err ==> r->Err_0@ == AppErrorView::BadRequest("delta must not be 0"@),
{
    if delta == 0 {
        return Err(AppError::bad_request("delta must not be 0"));
    }
    Ok(())
}

/// The stock after adding `delta`. A result below zero is refused, and so
/// is one that does not fit the stock column.
pub fn apply_stock_delta(stock: i32, delta: i32) -> (r: Result<i32, AppError>)
    ensures
        stock + delta < 0 ==> r is Err && r->Err_0@ == AppErrorView::BadRequest(
            "stock cannot be negative"@,
        ),
        stock + delta > i32::MAX ==> r is Err && r->Err_0@ == AppErrorView::BadRequest(
            "stock is out of range"@,
        ),
        0 <= stock + delta <= i32::MAX ==> r is Ok && r->Ok_0 == stock + delta,
{
    let next: i64 = stock as i64 + delta as i64;
    if next < 0 {
        return Err(AppError::bad_request("stock cannot be negative"));
    }
    if next > i32::MAX as i64 {
        return Err(AppError::bad_request("stock is out of range"));
    }
    Ok(next as i32)
}

} // verus!
