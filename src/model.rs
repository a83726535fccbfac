//! Rows of the storefront's tables. Ids are UUIDs as 128-bit integers;
//! timestamps are microseconds since the Unix epoch, UTC.
use crate::error::{AppError, AppErrorView};
use crate::text::same_text;
use vstd::prelude::*;

verus! {

/// Microseconds since 1970-01-01T00:00:00Z.
pub type Timestamp = i64;

/// Where an order stands in its lifecycle.
#[derive(Debug, Clone, Copy, PartialEq, Eq, Structural)]
pub enum OrderStatus {
    Pending,
    Paid,
    Shipped,
    Completed,
    Cancelled,
}

/// Whether an order has been paid for.
#[derive(Debug, Clone, Copy, PartialEq, Eq, Structural)]
pub enum PaymentStatus {
    Unpaid,
    Paid,
}

/// The stored text of each order status.
pub open spec fn order_status_text(s: OrderStatus) -> Seq<char> {
    match s {
        OrderStatus::Pending => "pending"@,
        OrderStatus::Paid => "paid"@,
        OrderStatus::Shipped => "shipped"@,
        OrderStatus::Completed => "completed"@,
        OrderStatus::Cancelled => "cancelled"@,
    }
}

/// The stored text of each payment status.
pub open spec fn payment_status_text(s: PaymentStatus) -> Seq<char> {
    match s {
        PaymentStatus::Unpaid => "unpaid"@,
        PaymentStatus::Paid => "paid"@,
    }
}

/// Whether `t` is the text of some order status.
pub open spec fn is_order_status_text(t: Seq<char>) -> bool {
    exists|s: OrderStatus| order_status_text(s) == t
}

impl OrderStatus {
    /// The stored text of the status.
    pub fn as_str(&self) -> (r: &'static str)
        ensures
            r@ == order_status_text(*self),
    {
        match self {
            OrderStatus::Pending => "pending",
            OrderStatus::Paid => "paid",
            OrderStatus::Shipped => "shipped",
            OrderStatus::Completed => "completed",
            OrderStatus::Cancelled => "cancelled",
        }
    }

    /// The status whose text is `t`, if any.
    pub fn parse(t: &str) -> (r: Option<OrderStatus>)
        ensures
            match r {
                Some(s) => order_status_text(s) == t@,
                None => !is_order_status_text(t@),
            },
    {
        if same_text(t, "pending") {
            Some(OrderStatus::Pending)
        } else if same_text(t, "paid") {
            Some(OrderStatus::Paid)
        } else if same_text(t, "shipped") {
            Some(OrderStatus::Shipped)
        } else if same_text(t, "completed") {
            Some(OrderStatus::Completed)
        } else if same_text(t, "cancelled") {
            Some(OrderStatus::Cancelled)
        } else {
            assert forall|s: OrderStatus| order_status_text(s) != t@ by {
                match s {
                    OrderStatus::Pending => {},
                    OrderStatus::Paid => {},
                    OrderStatus::Shipped => {},
                    OrderStatus::Completed => {},
                    OrderStatus::Cancelled => {},
                }
            }
            None
        }
    }
}

impl PaymentStatus {
    /// The stored text of the status.
    pub fn as_str(&self) -> (r: &'static str)
        ensures
            r@ == payment_status_text(*self),
    {
        match self {
            PaymentStatus::Unpaid => "unpaid",
            PaymentStatus::Paid => "paid",
        }
    }

    /// The status whose text is `t`, if any.
    pub fn parse(t: &str) -> (r: Option<PaymentStatus>)
        ensures
            match r {
                Some(s) => payment_status_text(s) == t@,
                None => forall|s: PaymentStatus| payment_status_text(s) != t@,
            },
    {
        if same_text(t, "unpaid") {
            Some(PaymentStatus::Unpaid)
        } else if same_text(t, "paid") {
            Some(PaymentStatus::Paid)
        } else {
            assert forall|s: PaymentStatus| payment_status_text(s) != t@ by {
                match s {
                    PaymentStatus::Unpaid => {},
                    PaymentStatus::Paid => {},
                }
            }
            None
        }
    }
}

/// Accepts the text of an order status; anything else is a bad request.
pub fn validate_order_status(status: &str) -> (r: Result<(), AppError>)
    ensures
        r is Ok <==> is_order_status_text(status@),
        r is Err ==> r->Err_0@ == AppErrorView::BadRequest("Invalid order status"@),
{
    match OrderStatus::parse(status) {
        Some(_) => Ok(()),
        None => Err(AppError::bad_request("Invalid order status")),
    }
}

/// A registered account.
#[derive(Debug)]
pub struct User {
    pub id: u128,
    pub email: String,
    pub password_hash: String,
    pub created_at: Timestamp,
    pub role: String,
}

/// A catalog entry. `price` is in minor currency units.
#[derive(Debug)]
pub struct Product {
    pub id: u128,
    pub name: String,
    pub description: Option<String>,
    pub price: i64,
    pub stock: i32,
    pub created_at: Timestamp,
}

/// A product a user marked as favorite.
#[derive(Debug, Clone, Copy, PartialEq, Eq)]
pub struct Favorite {
    pub id: u128,
    pub product_id: u128,
    pub user_id: u128,
    pub created_at: Timestamp,
}

/// One line of a user's cart: at most one per (user, product).
#[derive(Debug, Clone, Copy, PartialEq, Eq, Structural)]
pub struct CartItem {
    pub id: u128,
    pub product_id: u128,
    pub user_id: u128,
    pub quantity: i32,
    pub created_at: Timestamp,
}

/// A placed order.
#[derive(Debug)]
pub struct Order {
    pub id: u128,
    pub user_id: u128,
    pub total_amount: i64,
    pub status: OrderStatus,
    pub payment_status: PaymentStatus,
    pub invoice_number: String,
    pub paid_at: Option<Timestamp>,
    pub created_at: Timestamp,
    pub updated_at: Timestamp,
}

/// One line of an order, with the unit price captured at checkout.
#[derive(Debug, Clone, Copy, PartialEq, Eq, Structural)]
pub struct OrderItem {
    pub id: u128,
    pub order_id: u128,
    pub product_id: u128,
    pub quantity: i32,
    pub price: i64,
    pub created_at: Timestamp,
}

/// An order together with its lines.
#[derive(Debug)]
pub struct OrderWithItems {
    pub order: Order,
    pub items: Vec<OrderItem>,
}

/// A page of orders.
#[derive(Debug)]
pub struct OrderList {
    pub items: Vec<Order>,
}

/// A page of products.
#[derive(Debug)]
pub struct ProductList {
    pub items: Vec<Product>,
}

/// A copy of a text that may be absent.
pub(crate) fn clone_opt_text(t: &Option<String>) -> (r: Option<String>)
    ensures
        r == *t,
{
    match t {
        Some(s) => Some(s.clone()),
        None => None,
    }
}

impl Product {
    /// A copy of the product.
    pub fn duplicate(&self) -> (r: Product)
        ensures
            r == *self,
    {
        Product {
            id: self.id,
            name: self.name.clone(),
            description: clone_opt_text(&self.description),
            price: self.price,
            stock: self.stock,
            created_at: self.created_at,
        }
    }
}

impl Order {
    /// A copy of the order.
    pub fn duplicate(&self) -> (r: Order)
        ensures
            r == *self,
    {
        Order {
            id: self.id,
            user_id: self.user_id,
            total_amount: self.total_amount,
            status: self.status,
            payment_status: self.payment_status,
            invoice_number: self.invoice_number.clone(),
            paid_at: self.paid_at,
            created_at: self.created_at,
            updated_at: self.updated_at,
        }
    }
}

} // verus!
