use storefront::auth::{bearer_token, ensure_admin, ensure_role, AuthUser};
use storefront::store::check_cart_quantity;
use storefront::dto::{error_response, health_check, Claims, LoginResponse, LowStockQuery, UpdateProductRequest, AppConfig};
use storefront::error::AppError;
use storefront::inventory::{apply_stock_delta, check_inventory_delta};
use storefront::model::{validate_order_status, OrderStatus, PaymentStatus, Product};
use storefront::params::{OrderListQuery, Pagination, ProductQuery, ProductSortBy, SortOrder};
use storefront::response::{ApiResponse, Meta};

#[test]
fn health_check_returns_ok() {
    let body = health_check();
    assert_eq!(body.message, "Health check");
    assert_eq!(body.data.expect("health data").status, "ok");
    assert_eq!(body.meta, Some(Meta::empty()));
}

#[test]
fn pagination_defaults_and_bounds() {
    assert_eq!(Pagination { page: None, per_page: None }.normalize(), (1, 20, 0));
    assert_eq!(Pagination { page: Some(0), per_page: Some(0) }.normalize(), (1, 1, 0));
    assert_eq!(Pagination { page: Some(-4), per_page: Some(1000) }.normalize(), (1, 100, 0));
    assert_eq!(Pagination { page: Some(3), per_page: Some(10) }.normalize(), (3, 10, 20));
    assert_eq!(Pagination { page: Some(1), per_page: Some(20) }.normalize(), (1, 20, 0));
    assert_eq!(Pagination { page: Some(i64::MAX), per_page: Some(100) }.normalize(), (i64::MAX, 100, i64::MAX));
}

#[test]
fn sql_keywords() {
    assert_eq!(SortOrder::Asc.as_sql(), "ASC");
    assert_eq!(SortOrder::Desc.as_sql(), "DESC");
    assert_eq!(ProductSortBy::CreatedAt.as_sql(), "created_at");
    assert_eq!(ProductSortBy::Price.as_sql(), "price");
    assert_eq!(ProductSortBy::Name.as_sql(), "name");
}

#[test]
fn listing_query_defaults() {
    let q = OrderListQuery { pagination: Pagination { page: None, per_page: None }, status: Some(String::new()), sort_order: None };
    assert_eq!(q.status_filter(), None);
    assert_eq!(q.sort_order_or_default(), SortOrder::Desc);
    let q = OrderListQuery { pagination: Pagination { page: None, per_page: None }, status: Some("paid".to_string()), sort_order: Some(SortOrder::Asc) };
    assert_eq!(q.status_filter(), Some("paid".to_string()));
    assert_eq!(q.sort_order_or_default(), SortOrder::Asc);
    let p = ProductQuery { pagination: Pagination { page: None, per_page: None }, q: Some("mug".to_string()), min_price: None, max_price: None, sort_by: None, sort_order: None };
    assert_eq!(p.search_pattern(), Some("%mug%".to_string()));
    assert_eq!(p.sort_by_or_default(), ProductSortBy::CreatedAt);
    assert_eq!(p.sort_order_or_default(), SortOrder::Desc);
    let low = LowStockQuery { pagination: Pagination { page: None, per_page: None }, threshold: None };
    assert_eq!(low.threshold_or_default(), 5);
}

#[test]
fn envelope_and_meta() {
    let m = Meta::new(2, 20, 41);
    assert_eq!((m.page, m.per_page, m.total), (Some(2), Some(20), Some(41)));
    let e = Meta::empty();
    assert_eq!((e.page, e.per_page, e.total), (None, None, None));
    let r = ApiResponse::success("Ok", 5u8, None);
    assert_eq!(r.message, "Ok");
    assert_eq!(r.data, Some(5));
    assert!(r.meta.is_none());
}

#[test]
fn error_kinds_map_to_statuses() {
    assert_eq!(AppError::NotFound.status_code(), 404);
    assert_eq!(AppError::bad_request("x").status_code(), 400);
    assert_eq!(AppError::Forbidden.status_code(), 403);
    assert_eq!(AppError::Unauthorized.status_code(), 401);
    assert_eq!(AppError::DbError.status_code(), 500);
    assert_eq!(AppError::OrmError.status_code(), 500);
    assert_eq!(AppError::Internal.status_code(), 500);
    assert!(AppError::Internal.is_internal());
    assert!(!AppError::NotFound.is_internal());
    assert_eq!(AppError::NotFound.message(), "Not Found");
    assert_eq!(AppError::bad_request("Cart is empty").message(), "Bad Request Cart is empty");
    assert_eq!(AppError::DbError.message(), "Database error");
    assert_eq!(AppError::Internal.message(), "Internal Server Error");
    let (status, body) = error_response(&AppError::Forbidden);
    assert_eq!(status, 403);
    assert_eq!(body.message, "Forbidden");
    assert_eq!(body.data.unwrap().error, "Forbidden");
}

#[test]
fn role_checks() {
    let admin = AuthUser { user_id: 1, role: "admin".to_string() };
    let user = AuthUser { user_id: 2, role: "user".to_string() };
    assert!(ensure_admin(&admin).is_ok());
    assert!(matches!(ensure_admin(&user), Err(AppError::Forbidden)));
    assert!(ensure_role(&user, "user").is_ok());
    assert!(matches!(ensure_role(&admin, "user"), Err(AppError::Forbidden)));
}

#[test]
fn order_status_texts() {
    assert!(validate_order_status("shipped").is_ok());
    assert!(validate_order_status("completed").is_ok());
    assert!(matches!(validate_order_status("Shipped"), Err(AppError::BadRequest(_))));
    assert_eq!(OrderStatus::parse("cancelled"), Some(OrderStatus::Cancelled));
    assert_eq!(OrderStatus::parse(""), None);
    assert_eq!(PaymentStatus::parse("unpaid"), Some(PaymentStatus::Unpaid));
    assert_eq!(PaymentStatus::parse("pending"), None);
}

#[test]
fn stock_delta_rules() {
    assert!(check_inventory_delta(1).is_ok());
    assert!(check_inventory_delta(0).is_err());
    assert_eq!(apply_stock_delta(3, -3).unwrap(), 0);
    assert_eq!(apply_stock_delta(3, 4).unwrap(), 7);
    assert!(apply_stock_delta(3, -4).is_err());
    assert!(apply_stock_delta(i32::MAX, 1).is_err());
}

#[test]
fn login_token_pieces() {
    assert_eq!(LoginResponse::bearer("abc").token, "Bearer abc");
    let c = Claims::for_user(0x67e5_5044_10b1_426f_9247_bb68_0e5f_e0c8, "user", 1_700_000_000).unwrap();
    assert_eq!(c.sub, "67e55044-10b1-426f-9247-bb680e5fe0c8");
    assert_eq!(c.role, "user");
    assert_eq!(c.exp, 1_700_086_400);
    assert!(Claims::for_user(1, "user", -1).is_err());
}

#[test]
fn product_update_merges_fields() {
    let existing = Product { id: 9, name: "Mug".to_string(), description: None, price: 100, stock: 4, created_at: 77 };
    let req = UpdateProductRequest { name: None, description: Some("Ceramic".to_string()), price: Some(120), stock: None };
    let p = req.apply_to(&existing);
    assert_eq!(p.id, 9);
    assert_eq!(p.name, "Mug");
    assert_eq!(p.description.as_deref(), Some("Ceramic"));
    assert_eq!(p.price, 120);
    assert_eq!(p.stock, 4);
    assert_eq!(p.created_at, 77);
}

#[test]
fn config_defaults() {
    let c = AppConfig::with_defaults("postgres://db".to_string(), None, None);
    assert_eq!(c.host, "127.0.0.1");
    assert_eq!(c.port, 3000);
    let c = AppConfig::with_defaults("postgres://db".to_string(), Some("0.0.0.0".to_string()), Some(8080));
    assert_eq!(c.host, "0.0.0.0");
    assert_eq!(c.port, 8080);
}

#[test]
fn bearer_header_parsing() {
    assert_eq!(bearer_token("Bearer abc.def").unwrap(), "abc.def");
    assert_eq!(bearer_token("Bearer   tok  ").unwrap(), "tok");
    assert_eq!(bearer_token("Bearer Bearer tok").unwrap(), "tok");
    assert!(matches!(bearer_token("Basic abc"), Err(AppError::Unauthorized)));
    assert!(matches!(bearer_token("Bearer"), Err(AppError::Unauthorized)));
}

#[test]
fn cart_quantity_rule() {
    assert!(check_cart_quantity(1).is_ok());
    assert!(matches!(check_cart_quantity(0), Err(AppError::BadRequest(_))));
    assert!(matches!(check_cart_quantity(-3), Err(AppError::BadRequest(_))));
}
