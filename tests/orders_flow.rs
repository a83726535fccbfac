use storefront::auth::AuthUser;
use storefront::checkout::{checkout_total, format_invoice_number, prepare_checkout, CartLine};
use storefront::error::AppError;
use storefront::model::{OrderStatus, PaymentStatus, Product};
use storefront::params::{OrderListQuery, Pagination, SortOrder};
use storefront::payment::mark_paid;
use storefront::store::Store;

const WIDGET: u128 = 0x67e5_5044_10b1_426f_9247_bb68_0e5f_e0c8;
const GADGET: u128 = 0x1234_5678_9abc_4def_8123_4567_89ab_cdef;
const USER: u128 = 0xaaaa_0000_0000_4000_8000_0000_0000_0001;
const OTHER: u128 = 0xbbbb_0000_0000_4000_8000_0000_0000_0002;
const ADMIN: u128 = 0xcccc_0000_0000_4000_8000_0000_0000_0003;

fn product(id: u128, name: &str, price: i64, stock: i32) -> Product {
    Product {
        id,
        name: name.to_string(),
        description: Some("A product for testing".to_string()),
        price,
        stock,
        created_at: 0,
    }
}

fn store_with(products: Vec<Product>) -> Store {
    let mut store = Store::new();
    for p in products {
        store.insert_product(p).unwrap();
    }
    store
}

fn admin() -> AuthUser {
    AuthUser { user_id: ADMIN, role: "admin".to_string() }
}

fn bad_request_text(e: &AppError) -> String {
    match e {
        AppError::BadRequest(m) => m.clone(),
        other => panic!("expected a bad request, got {:?}", other),
    }
}

#[test]
fn checkout_pay_and_admin_low_stock_flow() {
    let mut store = store_with(vec![product(WIDGET, "Test Widget", 1000, 10)]);
    store.add_to_cart(USER, WIDGET, 2).unwrap();
    let placed = store.checkout(USER).unwrap();
    let order = placed.order;
    assert_eq!(order.total_amount, 2000);

    let paid = store.pay_order(USER, order.id).unwrap().order;
    assert_eq!(paid.status.as_str(), "paid");

    let updated = store.update_order_status(&admin(), order.id, "shipped").unwrap();
    assert_eq!(updated.status.as_str(), "shipped");

    let low = store.low_stock(10);
    assert!(
        low.iter().any(|p| p.id == WIDGET),
        "expected product to appear in low-stock list"
    );
}

#[test]
fn checkout_then_pay_twice() {
    let mut store = store_with(vec![product(WIDGET, "Widget", 1000, 10)]);
    store.add_to_cart(USER, WIDGET, 2).unwrap();
    let placed = store.checkout(USER).unwrap();
    assert_eq!(placed.order.total_amount, 2000);
    assert_eq!(placed.order.status, OrderStatus::Pending);
    assert_eq!(placed.order.payment_status, PaymentStatus::Unpaid);
    assert_eq!(placed.order.status.as_str(), "pending");
    assert_eq!(placed.order.payment_status.as_str(), "unpaid");
    assert_eq!(placed.order.paid_at, None);
    assert_eq!(store.product(WIDGET).unwrap().stock, 8);

    let paid = store.pay_order(USER, placed.order.id).unwrap();
    assert_eq!(paid.order.payment_status.as_str(), "paid");
    assert_eq!(paid.order.status.as_str(), "paid");
    assert!(paid.order.paid_at.is_some());
    assert_eq!(paid.items.len(), 1);

    let again = store.pay_order(USER, placed.order.id).unwrap_err();
    assert_eq!(again.status_code(), 400);
    assert_eq!(bad_request_text(&again), "Order already paid");
    let seen = store.get_order(USER, placed.order.id).unwrap();
    assert_eq!(seen.order.paid_at, paid.order.paid_at);
    assert_eq!(seen.order.updated_at, paid.order.updated_at);
    assert_eq!(seen.order.status, OrderStatus::Paid);
}

#[test]
fn empty_cart_checkout_is_refused() {
    let mut store = store_with(vec![product(WIDGET, "Widget", 1000, 10)]);
    let err = store.checkout(USER).unwrap_err();
    assert_eq!(bad_request_text(&err), "Cart is empty");
    assert_eq!(err.message(), "Bad Request Cart is empty");
    assert_eq!(store.order_count(), 0);
}

#[test]
fn short_stock_names_the_product_and_keeps_stock() {
    let mut store = store_with(vec![product(WIDGET, "Widget", 1000, 3)]);
    store.add_to_cart(USER, WIDGET, 5).unwrap();
    let err = store.checkout(USER).unwrap_err();
    assert_eq!(
        bad_request_text(&err),
        "Insufficient stock for product 67e55044-10b1-426f-9247-bb680e5fe0c8"
    );
    assert_eq!(store.product(WIDGET).unwrap().stock, 3);
    assert_eq!(store.cart_len(USER), 1);
    assert_eq!(store.order_count(), 0);
}

#[test]
fn failed_checkout_takes_no_stock_at_all() {
    let mut store = store_with(vec![product(WIDGET, "Widget", 100, 5), product(GADGET, "Gadget", 200, 1)]);
    store.add_to_cart(USER, WIDGET, 2).unwrap();
    store.add_to_cart(USER, GADGET, 2).unwrap();
    let err = store.checkout(USER).unwrap_err();
    assert_eq!(
        bad_request_text(&err),
        "Insufficient stock for product 12345678-9abc-4def-8123-456789abcdef"
    );
    assert_eq!(store.product(WIDGET).unwrap().stock, 5);
    assert_eq!(store.product(GADGET).unwrap().stock, 1);
    assert_eq!(store.cart_len(USER), 2);
}

#[test]
fn last_unit_goes_to_one_buyer_only() {
    let mut store = store_with(vec![product(WIDGET, "Widget", 100, 1), product(GADGET, "Gadget", 50, 4)]);
    store.add_to_cart(USER, WIDGET, 1).unwrap();
    store.add_to_cart(OTHER, GADGET, 1).unwrap();
    store.add_to_cart(OTHER, WIDGET, 1).unwrap();
    assert!(store.checkout(USER).is_ok());
    let err = store.checkout(OTHER).unwrap_err();
    assert_eq!(
        bad_request_text(&err),
        "Insufficient stock for product 67e55044-10b1-426f-9247-bb680e5fe0c8"
    );
    assert_eq!(store.product(WIDGET).unwrap().stock, 0);
    assert_eq!(store.product(GADGET).unwrap().stock, 4);
    assert_eq!(store.order_count(), 1);
}

#[test]
fn order_total_is_sum_of_line_snapshots() {
    let mut store = store_with(vec![product(WIDGET, "Widget", 1250, 10), product(GADGET, "Gadget", 399, 10)]);
    store.add_to_cart(USER, WIDGET, 3).unwrap();
    store.add_to_cart(USER, GADGET, 2).unwrap();
    let placed = store.checkout(USER).unwrap();
    assert_eq!(placed.order.total_amount, 3 * 1250 + 2 * 399);
    let sum: i64 = placed.items.iter().map(|i| i.price * i.quantity as i64).sum();
    assert_eq!(sum, placed.order.total_amount);
    assert_eq!(placed.items[0].price, 1250);
    assert_eq!(placed.items[1].price, 399);
    assert!(placed.items.iter().all(|i| i.order_id == placed.order.id));
    assert_eq!(store.product(WIDGET).unwrap().stock, 7);
    assert_eq!(store.product(GADGET).unwrap().stock, 8);
}

#[test]
fn checkout_clears_only_the_buyers_cart() {
    let mut store = store_with(vec![product(WIDGET, "Widget", 10, 10), product(GADGET, "Gadget", 20, 10)]);
    store.add_to_cart(USER, WIDGET, 1).unwrap();
    store.add_to_cart(USER, GADGET, 1).unwrap();
    store.add_to_cart(OTHER, GADGET, 4).unwrap();
    store.checkout(USER).unwrap();
    assert_eq!(store.cart_len(USER), 0);
    assert_eq!(store.cart_len(OTHER), 1);
}

#[test]
fn add_to_cart_replaces_quantity() {
    let mut store = store_with(vec![product(WIDGET, "Widget", 10, 10)]);
    let first = store.add_to_cart(USER, WIDGET, 1).unwrap();
    let second = store.add_to_cart(USER, WIDGET, 4).unwrap();
    assert_eq!(first.id, second.id);
    assert_eq!(second.quantity, 4);
    assert_eq!(store.cart_len(USER), 1);
    assert_eq!(store.cart_lines(USER)[0].quantity, 4);
}

#[test]
fn add_to_cart_refusals() {
    let mut store = store_with(vec![product(WIDGET, "Widget", 10, 10)]);
    let e = store.add_to_cart(USER, WIDGET, 0).unwrap_err();
    assert_eq!(bad_request_text(&e), "quantity must be greater than 0");
    let e = store.add_to_cart(USER, GADGET, 1).unwrap_err();
    assert_eq!(bad_request_text(&e), "product not found");
    assert_eq!(store.cart_len(USER), 0);
}

#[test]
fn insert_product_refusals() {
    let mut store = store_with(vec![product(WIDGET, "Widget", 10, 10)]);
    let e = store.insert_product(product(GADGET, "Gadget", 1, -1)).unwrap_err();
    assert_eq!(bad_request_text(&e), "stock cannot be negative");
    let e = store.insert_product(product(WIDGET, "Again", 1, 1)).unwrap_err();
    assert_eq!(bad_request_text(&e), "product already exists");
}

#[test]
fn paying_someone_elses_order_is_not_found() {
    let mut store = store_with(vec![product(WIDGET, "Widget", 10, 10)]);
    store.add_to_cart(USER, WIDGET, 1).unwrap();
    let placed = store.checkout(USER).unwrap();
    assert!(matches!(store.pay_order(OTHER, placed.order.id), Err(AppError::NotFound)));
    assert!(matches!(store.get_order(OTHER, placed.order.id), Err(AppError::NotFound)));
    assert_eq!(store.get_order(USER, placed.order.id).unwrap().order.payment_status, PaymentStatus::Unpaid);
}

#[test]
fn admin_inventory_adjustment() {
    let mut store = store_with(vec![product(WIDGET, "Widget", 10, 3)]);
    let user = AuthUser { user_id: USER, role: "user".to_string() };
    assert!(matches!(store.adjust_inventory(&user, WIDGET, 1), Err(AppError::Forbidden)));
    let e = store.adjust_inventory(&admin(), WIDGET, 0).unwrap_err();
    assert_eq!(bad_request_text(&e), "delta must not be 0");
    assert!(matches!(store.adjust_inventory(&admin(), GADGET, 1), Err(AppError::NotFound)));
    let e = store.adjust_inventory(&admin(), WIDGET, -4).unwrap_err();
    assert_eq!(bad_request_text(&e), "stock cannot be negative");
    assert_eq!(store.product(WIDGET).unwrap().stock, 3);
    let p = store.adjust_inventory(&admin(), WIDGET, -3).unwrap();
    assert_eq!(p.stock, 0);
    let p = store.adjust_inventory(&admin(), WIDGET, 7).unwrap();
    assert_eq!(p.stock, 7);
    let e = store.adjust_inventory(&admin(), WIDGET, i32::MAX).unwrap_err();
    assert_eq!(bad_request_text(&e), "stock is out of range");
}

#[test]
fn order_status_updates() {
    let mut store = store_with(vec![product(WIDGET, "Widget", 10, 3)]);
    store.add_to_cart(USER, WIDGET, 1).unwrap();
    let placed = store.checkout(USER).unwrap();
    let user = AuthUser { user_id: USER, role: "user".to_string() };
    assert!(matches!(store.update_order_status(&user, placed.order.id, "shipped"), Err(AppError::Forbidden)));
    let e = store.update_order_status(&admin(), placed.order.id, "lost").unwrap_err();
    assert_eq!(bad_request_text(&e), "Invalid order status");
    assert!(matches!(store.update_order_status(&admin(), WIDGET, "shipped"), Err(AppError::NotFound)));
    let o = store.update_order_status(&admin(), placed.order.id, "cancelled").unwrap();
    assert_eq!(o.status, OrderStatus::Cancelled);
    assert_eq!(o.total_amount, 10);
}

#[test]
fn checkout_total_checks_lines_in_order() {
    let line = |product_id: u128, quantity: i32, price: i64, stock: i32| CartLine { product_id, quantity, price, stock };
    assert_eq!(checkout_total(&vec![line(WIDGET, 2, 1000, 10)]).unwrap(), 2000);
    assert_eq!(checkout_total(&vec![line(WIDGET, 2, 1000, 10), line(GADGET, 1, -5, 1)]).unwrap(), 1995);
    let e = checkout_total(&vec![]).unwrap_err();
    assert_eq!(bad_request_text(&e), "Cart is empty");
    let e = checkout_total(&vec![line(WIDGET, 0, 1000, 10)]).unwrap_err();
    assert_eq!(bad_request_text(&e), "Cart has invalid quantity");
    let e = checkout_total(&vec![line(WIDGET, 20, 1000, 10), line(GADGET, -1, 1, 1)]).unwrap_err();
    assert_eq!(
        bad_request_text(&e),
        "Insufficient stock for product 67e55044-10b1-426f-9247-bb680e5fe0c8"
    );
    let e = checkout_total(&vec![line(WIDGET, 2, i64::MAX, 10)]).unwrap_err();
    assert_eq!(bad_request_text(&e), "Order total is out of range");
}

#[test]
fn prepared_checkout_snapshots_lines() {
    let rows = vec![
        CartLine { product_id: WIDGET, quantity: 2, price: 1000, stock: 10 },
        CartLine { product_id: GADGET, quantity: 1, price: 5, stock: 1 },
    ];
    let placed = prepare_checkout(USER, &rows).unwrap();
    assert_eq!(placed.order.user_id, USER);
    assert_eq!(placed.order.total_amount, 2005);
    assert_eq!(placed.items.len(), 2);
    assert_eq!(placed.items[1].product_id, GADGET);
    assert_eq!(placed.items[1].price, 5);
    assert_eq!(placed.order.created_at, placed.order.updated_at);
    assert_ne!(placed.items[0].id, placed.items[1].id);
    let inv = &placed.order.invoice_number;
    assert!(inv.starts_with("INV-"));
    assert_eq!(inv.len(), 21);
    assert!(inv.ends_with(&uuid::Uuid::from_u128(placed.order.id).to_string()[..8]));
}

#[test]
fn invoice_number_format() {
    assert_eq!(format_invoice_number(WIDGET, "20240102"), "INV-20240102-67e55044");
    assert_eq!(format_invoice_number(0, "19991231"), "INV-19991231-00000000");
}

#[test]
fn payment_transition() {
    let rows = vec![CartLine { product_id: WIDGET, quantity: 1, price: 7, stock: 1 }];
    let placed = prepare_checkout(USER, &rows).unwrap();
    let paid = mark_paid(&placed.order, 42).unwrap();
    assert_eq!(paid.paid_at, Some(42));
    assert_eq!(paid.updated_at, 42);
    assert_eq!(paid.status, OrderStatus::Paid);
    assert_eq!(paid.invoice_number, placed.order.invoice_number);
    let e = mark_paid(&paid, 43).unwrap_err();
    assert_eq!(bad_request_text(&e), "Order already paid");
}

#[test]
fn remove_from_cart_rules() {
    let mut store = store_with(vec![product(WIDGET, "Widget", 10, 10), product(GADGET, "Gadget", 20, 10)]);
    store.add_to_cart(USER, WIDGET, 1).unwrap();
    store.add_to_cart(USER, GADGET, 2).unwrap();
    assert!(matches!(store.remove_from_cart(OTHER, WIDGET), Err(AppError::NotFound)));
    store.remove_from_cart(USER, WIDGET).unwrap();
    assert_eq!(store.cart_len(USER), 1);
    assert_eq!(store.cart_lines(USER)[0].product_id, GADGET);
    assert!(matches!(store.remove_from_cart(USER, WIDGET), Err(AppError::NotFound)));
}

#[test]
fn order_listing_pages_and_filters() {
    let mut store = store_with(vec![product(WIDGET, "Widget", 10, 100)]);
    let mut ids = Vec::new();
    for q in 1..=3 {
        store.add_to_cart(USER, WIDGET, q).unwrap();
        ids.push(store.checkout(USER).unwrap().order.id);
    }
    store.add_to_cart(OTHER, WIDGET, 1).unwrap();
    store.checkout(OTHER).unwrap();
    store.pay_order(USER, ids[1]).unwrap();
    let user = AuthUser { user_id: USER, role: "user".to_string() };

    let all = OrderListQuery { pagination: Pagination { page: None, per_page: None }, status: None, sort_order: None };
    let r = store.list_orders(&user, &all);
    assert_eq!(r.message, "Ok");
    let got: Vec<u128> = r.data.unwrap().items.iter().map(|o| o.id).collect();
    assert_eq!(got, vec![ids[2], ids[1], ids[0]]);
    let meta = r.meta.unwrap();
    assert_eq!((meta.page, meta.per_page, meta.total), (Some(1), Some(20), Some(3)));

    let page2 = OrderListQuery { pagination: Pagination { page: Some(2), per_page: Some(2) }, status: None, sort_order: Some(SortOrder::Asc) };
    let got: Vec<u128> = store.list_orders(&user, &page2).data.unwrap().items.iter().map(|o| o.id).collect();
    assert_eq!(got, vec![ids[2]]);

    let paid = OrderListQuery { pagination: Pagination { page: None, per_page: None }, status: Some("paid".to_string()), sort_order: None };
    let r = store.list_orders(&user, &paid);
    let got: Vec<u128> = r.data.unwrap().items.iter().map(|o| o.id).collect();
    assert_eq!(got, vec![ids[1]]);
    assert_eq!(r.meta.unwrap().total, Some(1));

    assert!(matches!(store.list_all_orders(&user, &all), Err(AppError::Forbidden)));
    let r = store.list_all_orders(&admin(), &all).unwrap();
    assert_eq!(r.message, "Orders");
    assert_eq!(r.meta.unwrap().total, Some(4));

    let far = OrderListQuery { pagination: Pagination { page: Some(9), per_page: Some(5) }, status: None, sort_order: None };
    assert!(store.list_orders(&user, &far).data.unwrap().items.is_empty());
}

#[test]
fn admin_reads_any_order() {
    let mut store = store_with(vec![product(WIDGET, "Widget", 10, 10)]);
    store.add_to_cart(USER, WIDGET, 2).unwrap();
    let placed = store.checkout(USER).unwrap();
    let other = AuthUser { user_id: OTHER, role: "user".to_string() };
    assert!(matches!(store.get_order_admin(&other, placed.order.id), Err(AppError::Forbidden)));
    let seen = store.get_order_admin(&admin(), placed.order.id).unwrap();
    assert_eq!(seen.order.user_id, USER);
    assert_eq!(seen.items.len(), 1);
    assert!(matches!(store.get_order_admin(&admin(), WIDGET), Err(AppError::NotFound)));
}
