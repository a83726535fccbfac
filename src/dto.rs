//! Request and response bodies, and the small rules that fill them.
use crate::error::{message_of, status_of, AppError};
use crate::ids::{id_text, uuid_text};
use crate::model::{clone_opt_text, Product};
use crate::params::Pagination;
use crate::response::{ApiResponse, Meta};
use vstd::prelude::*;

verus! {

/// How long a login token stays valid, in seconds.
pub const TOKEN_LIFETIME_SECS: i64 = 86400;

/// The stock level at or below which a product counts as low by default.
pub const DEFAULT_LOW_STOCK_THRESHOLD: i32 = 5;

/// Where the service listens and which database it uses.
#[derive(Debug)]
pub struct AppConfig {
    pub database_url: String,
    pub host: String,
    pub port: u16,
}

impl AppConfig {
    /// The configuration with the host defaulting to `127.0.0.1` and the
    /// port to 3000.
    pub fn with_defaults(database_url: String, host: Option<String>, port: Option<u16>) -> (r: AppConfig)
        ensures
            r.database_url == database_url,
            r.host@ == (match host {
                Some(h) => h@,
                None => "127.0.0.1"@,
            }),
            r.port == (match port {
                Some(p) => p,
                None => 3000,
            }),
    {
        let host = match host {
            Some(h) => h,
            None => String::from_str("127.0.0.1"),
        };
        let port = match port {
            Some(p) => p,
            None => 3000,
        };
        AppConfig { database_url, host, port }
    }
}

/// A new account.
#[derive(Debug)]
pub struct RegisterRequest {
    pub email: String,
    pub password: String,
}

/// Credentials for a login.
#[derive(Debug)]
pub struct LoginRequest {
    pub email: String,
    pub password: String,
}

/// The token handed out by a login.
#[derive(Debug)]
pub struct LoginResponse {
    pub token: String,
}

impl LoginResponse {
    /// The response for a signed token: `Bearer <token>`.
    pub fn bearer(token: &str) -> (r: LoginResponse)
        ensures
            r.token@ == "Bearer "@ + token@,
    {
        let mut t = String::from_str("Bearer ");
        t.append(token);
        LoginResponse { token: t }
    }
}

/// Whether a token issued at `now_secs` has an expiry that fits both an
/// `i64` and a `usize`.
pub open spec fn expiry_fits(now_secs: i64) -> bool {
    0 <= now_secs <= i64::MAX - TOKEN_LIFETIME_SECS && now_secs + TOKEN_LIFETIME_SECS <= usize::MAX
}

/// The claims signed into a login token.
#[derive(Debug)]
pub struct Claims {
    pub sub: String,
    pub role: String,
    pub exp: usize,
}

impl Claims {
    /// The claims for `user_id` logging in at `now_secs` (Unix seconds):
    /// the id as text, the role, and an expiry one day later. A clock that
    /// gives no valid expiry is an internal error.
    pub fn for_user(user_id: u128, role: &str, now_secs: i64) -> (r: Result<Claims, AppError>)
        ensures
            expiry_fits(now_secs) ==> r is Ok
                && r->Ok_0.sub@ == uuid_text(user_id) && r->Ok_0.role@ == role@ && r->Ok_0.exp
                == now_secs + TOKEN_LIFETIME_SECS,
            !expiry_fits(now_secs) ==> r is Err
                && status_of(r->Err_0@) == 500,
    {
        if now_secs < 0 || now_secs > i64::MAX - TOKEN_LIFETIME_SECS {
            return Err(AppError::Internal);
        }
        let exp = now_secs + TOKEN_LIFETIME_SECS;
        if exp as u64 > usize::MAX as u64 {
            return Err(AppError::Internal);
        }
        Ok(Claims { sub: id_text(user_id), role: String::from_str(role), exp: exp as usize })
    }
}

/// The body of a checkout; passed through, not checked.
#[derive(Debug)]
pub struct CheckoutRequest {
    pub address: String,
    pub payment_method: String,
}

/// The body of a payment.
#[derive(Debug)]
pub struct PayOrderRequest {
    pub invoice_number: String,
}

/// A new catalog entry.
#[derive(Debug)]
pub struct CreateProductRequest {
    pub name: String,
    pub description: String,
    pub price: i64,
    pub stock: i32,
}

/// Fields of a product to replace; absent ones keep their value.
#[derive(Debug)]
pub struct UpdateProductRequest {
    pub name: Option<String>,
    pub description: Option<String>,
    pub price: Option<i64>,
    pub stock: Option<i32>,
}

impl UpdateProductRequest {
    /// `existing` with each given field replaced.
    pub fn apply_to(&self, existing: &Product) -> (r: Product)
        ensures
            r.id == existing.id,
            r.created_at == existing.created_at,
            r.name == (match self.name {
                Some(n) => n,
                None => existing.name,
            }),
            r.description == (match self.description {
                Some(d) => Some(d),
                None => existing.description,
            }),
            r.price == (match self.price {
                Some(p) => p,
                None => existing.price,
            }),
            r.stock == (match self.stock {
                Some(s) => s,
                None => existing.stock,
            }),
    {
        let name = match &self.name {
            Some(n) => n.clone(),
            None => existing.name.clone(),
        };
        let description = match &self.description {
            Some(d) => Some(d.clone()),
            None => clone_opt_text(&existing.description),
        };
        let price = match self.price {
            Some(p) => p,
            None => existing.price,
        };
        let stock = match self.stock {
            Some(s) => s,
            None => existing.stock,
        };
        Product { id: existing.id, name, description, price, stock, created_at: existing.created_at }
    }
}

/// A new status for an order.
#[derive(Debug)]
pub struct UpdateOrderStatusRequest {
    pub status: String,
}

/// Paging and threshold of the low-stock report.
#[derive(Debug)]
pub struct LowStockQuery {
    pub pagination: Pagination,
    pub threshold: Option<i32>,
}

impl LowStockQuery {
    /// The threshold, 5 when none was given.
    pub fn threshold_or_default(&self) -> (r: i32)
        ensures
            r == (match self.threshold {
                Some(t) => t,
                None => DEFAULT_LOW_STOCK_THRESHOLD,
            }),
    {
        match self.threshold {
            Some(t) => t,
            None => DEFAULT_LOW_STOCK_THRESHOLD,
        }
    }
}

/// A relative change of a product's stock.
#[derive(Debug)]
pub struct InventoryAdjustRequest {
    pub delta: i32,
}

/// A product to put in the cart.
#[derive(Debug)]
pub struct AddToCartRequest {
    pub product_id: u128,
    pub quantity: i32,
}

/// A product to mark as favorite.
#[derive(Debug)]
pub struct AddFavoriteRequest {
    pub product_id: u128,
}

/// A cart line with its product.
#[derive(Debug)]
pub struct CartItemDto {
    pub id: u128,
    pub product: Product,
    pub quantity: i32,
}

/// A page of cart lines.
#[derive(Debug)]
pub struct CartList {
    pub items: Vec<CartItemDto>,
}

/// The favorite products of a user.
#[derive(Debug)]
pub struct FavoriteProductList {
    pub items: Vec<Product>,
}

/// The body of a health report.
#[derive(Debug)]
pub struct HealthData {
    pub status: String,
}

/// The health report: `ok`.
pub fn health_check() -> (r: ApiResponse<HealthData>)
    ensures
        r.message@ == "Health check"@,
        r.data is Some && r.data->Some_0.status@ == "ok"@,
        r.meta == Some(Meta::empty_spec()),
{
    ApiResponse::success("Health check", HealthData { status: String::from_str("ok") }, Some(Meta::empty()))
}

/// The body of an error response.
#[derive(Debug)]
pub struct ErrorData {
    pub error: String,
}

/// The status code and envelope that report `err`: its message both as the
/// envelope's message and in the body.
pub fn error_response(err: &AppError) -> (r: (u16, ApiResponse<ErrorData>))
    ensures
        r.0 == status_of(err@),
        r.1.message@ == message_of(err@),
        r.1.data is Some && r.1.data->Some_0.error@ == message_of(err@),
        r.1.meta == Some(Meta::empty_spec()),
{
    let body = ApiResponse {
        message: err.message(),
        data: Some(ErrorData { error: err.message() }),
        meta: Some(Meta::empty()),
    };
    (err.status_code(), body)
}

} // verus!
