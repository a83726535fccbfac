//! The storefront's tables held in memory, with the order engine's
//! operations on them. Each `&mut self` method is one transaction: it either
//! applies all of its writes or, when it fails, none.
use crate::auth::{admin_role, ensure_admin, AuthUser};
use crate::checkout::{checkout_failure, failure_error, is_placed_order, items_total, line_failure, prepare_checkout, CartLine};
use crate::clock::now_micros;
use crate::error::{AppError, AppErrorView};
use crate::ids::new_id;
use crate::inventory::{apply_stock_delta, check_inventory_delta};
use crate::model::{
    is_order_status_text, order_status_text, CartItem, Order, OrderItem, OrderList, OrderStatus,
    OrderWithItems, Product,
};
use crate::params::{OrderListQuery, SortOrder};
use crate::payment::{mark_paid, paid_order};
use crate::response::{ApiResponse, Meta};
use crate::tables::{
    cart_index, cart_index_from, cart_rows, is_order_listing, items_of, lemma_cart_index_from,
    lemma_cart_rows, lemma_no_failure, lemma_order_index_from, lemma_product_index,
    lemma_product_index_same_ids, lemma_take_stock, lemma_without_user, low_stock_of,
    matching_orders, order_index, order_index_from, ordered_orders, pay_outcome, product_index,
    product_index_from, rows_fit_stock, status_filter_of, store_wf, take_stock, without_user,
    PayOutcome, StoreView,
};
use crate::text::same_text;
use vstd::prelude::*;

verus! {

/// The tables the order engine reads and writes.
pub struct Store {
    products: Vec<Product>,
    cart_items: Vec<CartItem>,
    orders: Vec<Order>,
    order_items: Vec<OrderItem>,
}

impl View for Store {
    type V = StoreView;

    closed spec fn view(&self) -> StoreView {
        StoreView {
            products: self.products@,
            cart_items: self.cart_items@,
            orders: self.orders@,
            order_items: self.order_items@,
        }
    }
}

/// A cart line must hold a positive quantity.
pub fn check_cart_quantity(quantity: i32) -> (r: Result<(), AppError>)
    ensures
        r is Ok <==> quantity > 0,
        r is Err ==> r->Err_0@ == AppErrorView::BadRequest("quantity must be greater than 0"@),
{
    if quantity <= 0 {
        return Err(AppError::bad_request("quantity must be greater than 0"));
    }
    Ok(())
}

impl Store {
    /// Empty tables.
    pub fn new() -> (r: Store)
        ensures
            store_wf(r@),
            r@.products.len() == 0,
            r@.cart_items.len() == 0,
            r@.orders.len() == 0,
            r@.order_items.len() == 0,
    {
        Store {
            products: Vec::new(),
            cart_items: Vec::new(),
            orders: Vec::new(),
            order_items: Vec::new(),
        }
    }

    fn find_product(&self, id: u128) -> (r: Option<usize>)
        ensures
            match r {
                Some(j) => j == product_index(self@.products, id),
                None => product_index(self@.products, id) == -1,
            },
            product_index(self@.products, id) < self@.products.len(),
    {
        proof {
            lemma_product_index(self@.products, id);
        }
        let mut i: usize = 0;
        while i < self.products.len()
            invariant
                0 <= i <= self.products@.len(),
                product_index_from(self.products@, id, i as nat) == product_index(
                    self.products@,
                    id,
                ),
            decreases self.products@.len() - i,
        {
            if self.products[i].id == id {
                return Some(i);
            }
            i = i + 1;
        }
        None
    }

    fn find_cart_item(&self, user_id: u128, product_id: u128) -> (r: Option<usize>)
        ensures
            match r {
                Some(j) => j == cart_index(self@.cart_items, user_id, product_id),
                None => cart_index(self@.cart_items, user_id, product_id) == -1,
            },
    {
        let mut i: usize = 0;
        while i < self.cart_items.len()
            invariant
                0 <= i <= self.cart_items@.len(),
                cart_index_from(self.cart_items@, user_id, product_id, i as nat) == cart_index(
                    self.cart_items@,
                    user_id,
                    product_id,
                ),
            decreases self.cart_items@.len() - i,
        {
            if self.cart_items[i].user_id == user_id && self.cart_items[i].product_id == product_id {
                return Some(i);
            }
            i = i + 1;
        }
        None
    }

    /// A copy of the product with id `id`.
    pub fn product(&self, id: u128) -> (r: Option<Product>)
        ensures
            match r {
                Some(p) => product_index(self@.products, id) >= 0 && p == self@.products[product_index(
                    self@.products,
                    id,
                )],
                None => product_index(self@.products, id) == -1,
            },
    {
        match self.find_product(id) {
            Some(j) => Some(self.products[j].duplicate()),
            None => None,
        }
    }

    /// Adds a product to the catalog. Negative stock and an id already in
    /// use are refused.
    pub fn insert_product(&mut self, product: Product) -> (r: Result<(), AppError>)
        requires
            store_wf(old(self)@),
        ensures
            store_wf(final(self)@),
            product.stock < 0 ==> r is Err && r->Err_0@ == AppErrorView::BadRequest(
                "stock cannot be negative"@,
            ) && final(self)@ == old(self)@,
            product.stock >= 0 && product_index(old(self)@.products, product.id) >= 0 ==> r is Err
                && r->Err_0@ == AppErrorView::BadRequest("product already exists"@) && final(self)@
                == old(self)@,
            product.stock >= 0 && product_index(old(self)@.products, product.id) == -1 ==> r is Ok
                && final(self)@ == (StoreView {
                products: old(self)@.products.push(product),
                ..old(self)@
            }),
    {
        if product.stock < 0 {
            return Err(AppError::bad_request("stock cannot be negative"));
        }
        if self.find_product(product.id).is_some() {
            return Err(AppError::bad_request("product already exists"));
        }
        proof {
            lemma_product_index(self@.products, product.id);
        }
        self.products.push(product);
        Ok(())
    }

    /// The number of lines in `user_id`'s cart.
    pub fn cart_len(&self, user_id: u128) -> (r: usize)
        ensures
            r == self@.cart_items.len() - without_user(self@.cart_items, user_id).len(),
    {
        let mut n: usize = 0;
        let mut i: usize = 0;
        while i < self.cart_items.len()
            invariant
                0 <= i <= self.cart_items@.len(),
                n == i - without_user(self.cart_items@.take(i as int), user_id).len(),
                without_user(self.cart_items@.take(i as int), user_id).len() <= i,
            decreases self.cart_items@.len() - i,
        {
            assert(self.cart_items@.take(i + 1).drop_last() =~= self.cart_items@.take(i as int));
            if self.cart_items[i].user_id == user_id {
                n = n + 1;
            }
            i = i + 1;
        }
        assert(self.cart_items@.take(i as int) =~= self.cart_items@);
        n
    }

    /// `user_id`'s cart joined to the products, as checkout reads it.
    pub fn cart_lines(&self, user_id: u128) -> (r: Vec<CartLine>)
        ensures
            r@ == cart_rows(self@.products, self@.cart_items, user_id),
    {
        let mut rows: Vec<CartLine> = Vec::new();
        let mut i: usize = 0;
        while i < self.cart_items.len()
            invariant
                0 <= i <= self.cart_items@.len(),
                rows@ == cart_rows(self.products@, self.cart_items@.take(i as int), user_id),
            decreases self.cart_items@.len() - i,
        {
            let c = self.cart_items[i];
            assert(self.cart_items@.take(i + 1).drop_last() =~= self.cart_items@.take(i as int));
            if c.user_id == user_id {
                match self.find_product(c.product_id) {
                    Some(j) => {
                        let p = &self.products[j];
                        rows.push(
                            CartLine {
                                product_id: c.product_id,
                                quantity: c.quantity,
                                price: p.price,
                                stock: p.stock,
                            },
                        );
                    },
                    None => {},
                }
            }
            i = i + 1;
        }
        assert(self.cart_items@.take(i as int) =~= self.cart_items@);
        rows
    }

    /// Converts `user_id`'s cart into a pending, unpaid order: checks every
    /// line against the stock it read, records the order and its lines,
    /// takes each line's quantity off its product's stock and empties the
    /// cart. When a check fails nothing changes.
    pub fn checkout(&mut self, user_id: u128) -> (r: Result<OrderWithItems, AppError>)
        requires
            store_wf(old(self)@),
        ensures
            store_wf(final(self)@),
            ({
                let rows = cart_rows(old(self)@.products, old(self)@.cart_items, user_id);
                match r {
                    Ok(p) => {
                        &&& checkout_failure(rows) is None
                        &&& is_placed_order(p, user_id, rows)
                        &&& items_total(p.items@) == p.order.total_amount
                        &&& final(self)@.products == take_stock(old(self)@.products, rows)
                        &&& final(self)@.cart_items == without_user(old(self)@.cart_items, user_id)
                        &&& final(self)@.orders == old(self)@.orders.push(p.order)
                        &&& final(self)@.order_items == old(self)@.order_items + p.items@
                        &&& forall|j: int|
                            0 <= j < final(self)@.cart_items.len()
                                ==> (#[trigger] final(self)@.cart_items[j]).user_id != user_id
                    },
                    Err(e) => {
                        &&& checkout_failure(rows) is Some
                        &&& e@ == failure_error(checkout_failure(rows)->Some_0)
                        &&& final(self)@ == old(self)@
                    },
                }
            }),
    {
        let rows = self.cart_lines(user_id);
        let placed = match prepare_checkout(user_id, &rows) {
            Ok(p) => p,
            Err(e) => return Err(e),
        };
        let ghost ps0 = self.products@;
        proof {
            lemma_cart_rows(ps0, self.cart_items@, user_id);
            lemma_no_failure(rows@, rows@.len());
            assert(rows_fit_stock(ps0, rows@)) by {
                assert forall|k: int| 0 <= k < rows@.len() implies {
                    let j = product_index(ps0, (#[trigger] rows@[k]).product_id);
                    &&& 0 <= j < ps0.len()
                    &&& rows@[k].stock == ps0[j].stock
                    &&& 0 < rows@[k].quantity <= rows@[k].stock
                } by {
                    assert(line_failure(rows@, k) is None);
                }
            }
        }
        let mut k: usize = 0;
        while k < rows.len()
            invariant
                0 <= k <= rows@.len(),
                rows_fit_stock(ps0, rows@),
                self.products@ == take_stock(ps0, rows@.take(k as int)),
                self.cart_items@ == old(self)@.cart_items,
                self.orders@ == old(self)@.orders,
                self.order_items@ == old(self)@.order_items,
            decreases rows@.len() - k,
        {
            proof {
                lemma_take_stock(ps0, rows@, k as nat);
                lemma_product_index_same_ids(ps0, self.products@);
                assert(rows@.take(k + 1).drop_last() =~= rows@.take(k as int));
            }
            let l = rows[k];
            let j = match self.find_product(l.product_id) {
                Some(j) => j,
                None => {
                    proof {
                        assert(product_index(ps0, rows@[k as int].product_id) >= 0);
                    }
                    return Err(AppError::Internal);
                },
            };
            proof {
                assert forall|i: int| 0 <= i < k implies product_index(
                    ps0,
                    (#[trigger] rows@[i]).product_id,
                ) != j by {
                    lemma_product_index(ps0, rows@[i].product_id);
                    lemma_product_index(ps0, l.product_id);
                }
            }
            let stock = self.products[j].stock;
            self.products[j].stock = stock - l.quantity;
            k = k + 1;
        }
        proof {
            lemma_take_stock(ps0, rows@, rows@.len());
            assert(rows@.take(rows@.len() as int) =~= rows@);
            let q = self.products@;
            assert forall|j: int| 0 <= j < q.len() implies (#[trigger] q[j]).stock >= 0 by {
                assert(ps0[j].stock >= 0);
                if exists|i: int| 0 <= i < rows@.len() && product_index(ps0, (#[trigger] rows@[i]).product_id) == j {
                    let i = choose|i: int| 0 <= i < rows@.len() && product_index(ps0, (#[trigger] rows@[i]).product_id) == j;
                    assert(rows@[i].stock == ps0[j].stock);
                }
            }
            assert forall|a: int, b: int| 0 <= a < b < q.len() implies (#[trigger] q[a]).id != (#[trigger] q[b]).id by {
                assert(q[a].id == ps0[a].id && q[b].id == ps0[b].id);
            }
            lemma_without_user(self.cart_items@, user_id);
        }
        let mut kept: Vec<CartItem> = Vec::new();
        let mut i: usize = 0;
        while i < self.cart_items.len()
            invariant
                0 <= i <= self.cart_items@.len(),
                kept@ == without_user(self.cart_items@.take(i as int), user_id),
                self.cart_items@ == old(self)@.cart_items,
                self.products@ == take_stock(ps0, rows@),
                self.orders@ == old(self)@.orders,
                self.order_items@ == old(self)@.order_items,
            decreases self.cart_items@.len() - i,
        {
            assert(self.cart_items@.take(i + 1).drop_last() =~= self.cart_items@.take(i as int));
            let c = self.cart_items[i];
            if c.user_id != user_id {
                kept.push(c);
            }
            i = i + 1;
        }
        assert(self.cart_items@.take(i as int) =~= self.cart_items@);
        self.cart_items = kept;
        let ghost items0 = self.order_items@;
        let mut n: usize = 0;
        while n < placed.items.len()
            invariant
                0 <= n <= placed.items@.len(),
                self.order_items@ == items0 + placed.items@.take(n as int),
                self.orders@ == old(self)@.orders,
                self.products@ == take_stock(ps0, rows@),
                self.cart_items@ == without_user(old(self)@.cart_items, user_id),
                store_wf(self@),
            decreases placed.items@.len() - n,
        {
            self.order_items.push(placed.items[n]);
            assert(items0 + placed.items@.take(n + 1) =~= (items0 + placed.items@.take(n as int)).push(placed.items@[n as int]));
            n = n + 1;
        }
        assert(placed.items@.take(n as int) =~= placed.items@);
        self.orders.push(placed.order.duplicate());
        Ok(placed)
    }

    fn find_order(&self, owner: Option<u128>, id: u128) -> (r: Option<usize>)
        ensures
            match r {
                Some(j) => j == order_index(self@.orders, owner, id),
                None => order_index(self@.orders, owner, id) == -1,
            },
    {
        let mut i: usize = 0;
        while i < self.orders.len()
            invariant
                0 <= i <= self.orders@.len(),
                order_index_from(self.orders@, owner, id, i as nat) == order_index(
                    self.orders@,
                    owner,
                    id,
                ),
            decreases self.orders@.len() - i,
        {
            let o = &self.orders[i];
            let visible = match owner {
                Some(u) => o.user_id == u,
                None => true,
            };
            if o.id == id && visible {
                return Some(i);
            }
            i = i + 1;
        }
        None
    }

    fn collect_items(&self, order_id: u128) -> (r: Vec<OrderItem>)
        ensures
            r@ == items_of(self@.order_items, order_id),
    {
        let mut items: Vec<OrderItem> = Vec::new();
        let mut i: usize = 0;
        while i < self.order_items.len()
            invariant
                0 <= i <= self.order_items@.len(),
                items@ == items_of(self.order_items@.take(i as int), order_id),
            decreases self.order_items@.len() - i,
        {
            assert(self.order_items@.take(i + 1).drop_last() =~= self.order_items@.take(i as int));
            let it = self.order_items[i];
            if it.order_id == order_id {
                items.push(it);
            }
            i = i + 1;
        }
        assert(self.order_items@.take(i as int) =~= self.order_items@);
        items
    }

    /// Order `order_id` with its lines, if it belongs to `user_id`.
    pub fn get_order(&self, user_id: u128, order_id: u128) -> (r: Result<OrderWithItems, AppError>)
        ensures
            ({
                let j = order_index(self@.orders, Some(user_id), order_id);
                &&& j == -1 ==> r is Err && r->Err_0@ == AppErrorView::NotFound
                &&& j != -1 ==> r is Ok && r->Ok_0.order == self@.orders[j] && r->Ok_0.items@
                    == items_of(self@.order_items, order_id)
            }),
    {
        proof {
            lemma_order_index_from(self@.orders, Some(user_id), order_id, 0);
        }
        match self.find_order(Some(user_id), order_id) {
            Some(j) => {
                let order = self.orders[j].duplicate();
                Ok(OrderWithItems { order, items: self.collect_items(order_id) })
            },
            None => Err(AppError::NotFound),
        }
    }

    /// Records payment of `user_id`'s order `order_id`. An order that is not
    /// the user's is not found; one already paid is refused.
    pub fn pay_order(&mut self, user_id: u128, order_id: u128) -> (r: Result<OrderWithItems, AppError>)
        requires
            store_wf(old(self)@),
        ensures
            store_wf(final(self)@),
            match pay_outcome(old(self)@.orders, user_id, order_id) {
                PayOutcome::NotFound => r is Err && r->Err_0@ == AppErrorView::NotFound
                    && final(self)@ == old(self)@,
                PayOutcome::AlreadyPaid => r is Err && r->Err_0@ == AppErrorView::BadRequest(
                    "Order already paid"@,
                ) && final(self)@ == old(self)@,
                PayOutcome::Payable(j) => r is Ok && ({
                    let p = r->Ok_0;
                    &&& p.order == paid_order(old(self)@.orders[j], p.order.updated_at)
                    &&& final(self)@ == (StoreView {
                        orders: old(self)@.orders.update(j, p.order),
                        ..old(self)@
                    })
                    &&& p.items@ == items_of(old(self)@.order_items, order_id)
                }),
            },
    {
        proof {
            lemma_order_index_from(self@.orders, Some(user_id), order_id, 0);
        }
        let j = match self.find_order(Some(user_id), order_id) {
            Some(j) => j,
            None => return Err(AppError::NotFound),
        };
        let now = now_micros();
        let paid = match mark_paid(&self.orders[j], now) {
            Ok(o) => o,
            Err(e) => return Err(e),
        };
        let items = self.collect_items(order_id);
        self.orders.set(j, paid.duplicate());
        Ok(OrderWithItems { order: paid, items })
    }

    /// Moves order `order_id` to `status`. Administrators only; the status
    /// must be one of the known ones.
    pub fn update_order_status(&mut self, user: &AuthUser, order_id: u128, status: &str) -> (r: Result<Order, AppError>)
        requires
            store_wf(old(self)@),
        ensures
            store_wf(final(self)@),
            user.role@ != admin_role() ==> r is Err && r->Err_0@ == AppErrorView::Forbidden
                && final(self)@ == old(self)@,
            user.role@ == admin_role() && !is_order_status_text(status@) ==> r is Err && r->Err_0@
                == AppErrorView::BadRequest("Invalid order status"@) && final(self)@ == old(self)@,
            user.role@ == admin_role() && is_order_status_text(status@) && order_index(
                old(self)@.orders,
                None,
                order_id,
            ) == -1 ==> r is Err && r->Err_0@ == AppErrorView::NotFound && final(self)@ == old(
                self,
            )@,
            user.role@ == admin_role() && is_order_status_text(status@) && order_index(
                old(self)@.orders,
                None,
                order_id,
            ) != -1 ==> r is Ok && ({
                let j = order_index(old(self)@.orders, None, order_id);
                let o = r->Ok_0;
                &&& order_status_text(o.status) == status@
                &&& o == (Order { status: o.status, updated_at: o.updated_at, ..old(self)@.orders[j] })
                &&& final(self)@ == (StoreView {
                    orders: old(self)@.orders.update(j, o),
                    ..old(self)@
                })
            }),
    {
        match ensure_admin(user) {
            Ok(()) => {},
            Err(e) => return Err(e),
        }
        let next = match OrderStatus::parse(status) {
            Some(s) => s,
            None => return Err(AppError::bad_request("Invalid order status")),
        };
        proof {
            lemma_order_index_from(self@.orders, None, order_id, 0);
        }
        let j = match self.find_order(None, order_id) {
            Some(j) => j,
            None => return Err(AppError::NotFound),
        };
        let mut o = self.orders[j].duplicate();
        o.status = next;
        o.updated_at = now_micros();
        self.orders.set(j, o.duplicate());
        Ok(o)
    }

    /// Adds `delta` to the stock of product `product_id` under its row lock.
    /// Administrators only; a zero change, a missing product and a result
    /// below zero are refused.
    pub fn adjust_inventory(&mut self, user: &AuthUser, product_id: u128, delta: i32) -> (r: Result<Product, AppError>)
        requires
            store_wf(old(self)@),
        ensures
            store_wf(final(self)@),
            ({
                let j = product_index(old(self)@.products, product_id);
                let next = if j >= 0 { old(self)@.products[j].stock + delta } else { 0 };
                &&& user.role@ != admin_role() ==> r is Err && r->Err_0@ == AppErrorView::Forbidden
                &&& user.role@ == admin_role() && delta == 0 ==> r is Err && r->Err_0@
                    == AppErrorView::BadRequest("delta must not be 0"@)
                &&& user.role@ == admin_role() && delta != 0 && j == -1 ==> r is Err && r->Err_0@
                    == AppErrorView::NotFound
                &&& user.role@ == admin_role() && delta != 0 && j >= 0 && next < 0 ==> r is Err
                    && r->Err_0@ == AppErrorView::BadRequest("stock cannot be negative"@)
                &&& user.role@ == admin_role() && delta != 0 && j >= 0 && next > i32::MAX ==> r is Err
                    && r->Err_0@ == AppErrorView::BadRequest("stock is out of range"@)
                &&& r is Err ==> final(self)@ == old(self)@
                &&& user.role@ == admin_role() && delta != 0 && j >= 0 && 0 <= next <= i32::MAX ==> r is Ok
                    && r->Ok_0 == (Product { stock: next as i32, ..old(self)@.products[j] })
                    && final(self)@ == (StoreView {
                    products: old(self)@.products.update(j, r->Ok_0),
                    ..old(self)@
                })
            }),
    {
        match ensure_admin(user) {
            Ok(()) => {},
            Err(e) => return Err(e),
        }
        match check_inventory_delta(delta) {
            Ok(()) => {},
            Err(e) => return Err(e),
        }
        let j = match self.find_product(product_id) {
            Some(j) => j,
            None => return Err(AppError::NotFound),
        };
        let next = match apply_stock_delta(self.products[j].stock, delta) {
            Ok(n) => n,
            Err(e) => return Err(e),
        };
        let ghost before = self.products@;
        self.products[j].stock = next;
        proof {
            assert forall|a: int, b: int|
                0 <= a < b < self.products@.len() implies (#[trigger] self.products@[a]).id
                != (#[trigger] self.products@[b]).id by {
                assert(self.products@[a].id == before[a].id && self.products@[b].id == before[b].id);
            }
        }
        Ok(self.products[j].duplicate())
    }

    /// The number of orders recorded.
    pub fn order_count(&self) -> (r: usize)
        ensures
            r == self@.orders.len(),
    {
        self.orders.len()
    }

    /// The products whose stock is at most `threshold`.
    pub fn low_stock(&self, threshold: i32) -> (r: Vec<Product>)
        ensures
            r@ == low_stock_of(self@.products, threshold),
    {
        let mut found: Vec<Product> = Vec::new();
        let mut i: usize = 0;
        while i < self.products.len()
            invariant
                0 <= i <= self.products@.len(),
                found@ == low_stock_of(self.products@.take(i as int), threshold),
            decreases self.products@.len() - i,
        {
            assert(self.products@.take(i + 1).drop_last() =~= self.products@.take(i as int));
            if self.products[i].stock <= threshold {
                found.push(self.products[i].duplicate());
            }
            i = i + 1;
        }
        assert(self.products@.take(i as int) =~= self.products@);
        found
    }

    /// Takes `product_id` out of `user_id`'s cart; a line that is not there
    /// is not found.
    pub fn remove_from_cart(&mut self, user_id: u128, product_id: u128) -> (r: Result<(), AppError>)
        requires
            store_wf(old(self)@),
        ensures
            store_wf(final(self)@),
            ({
                let j = cart_index(old(self)@.cart_items, user_id, product_id);
                &&& j == -1 ==> r is Err && r->Err_0@ == AppErrorView::NotFound && final(self)@
                    == old(self)@
                &&& j != -1 ==> r is Ok && final(self)@ == (StoreView {
                    cart_items: old(self)@.cart_items.remove(j),
                    ..old(self)@
                })
            }),
    {
        proof {
            lemma_cart_index_from(self@.cart_items, user_id, product_id, 0);
        }
        let j = match self.find_cart_item(user_id, product_id) {
            Some(j) => j,
            None => return Err(AppError::NotFound),
        };
        let ghost before = self.cart_items@;
        self.cart_items.remove(j);
        proof {
            let after = self.cart_items@;
            assert forall|a: int, b: int|
                0 <= a < b < after.len() && (#[trigger] after[a]).user_id == (#[trigger] after[b]).user_id
                    implies after[a].product_id != after[b].product_id by {
                let a0 = if a < j { a } else { a + 1 };
                let b0 = if b < j { b } else { b + 1 };
                assert(after[a] == before[a0] && after[b] == before[b0]);
                assert(before[a0].user_id == before[b0].user_id);
            }
            assert forall|k: int| 0 <= k < after.len() implies (#[trigger] after[k]).quantity > 0 by {
                let k0 = if k < j { k } else { k + 1 };
                assert(after[k] == before[k0]);
            }
        }
        Ok(())
    }

    fn list_for(&self, owner: Option<u128>, query: &OrderListQuery, message: &str) -> (r: ApiResponse<OrderList>)
        ensures
            r.message@ == message@,
            is_order_listing(r, self@.orders, owner, *query),
    {
        let (page, per_page, offset) = query.pagination.normalize();
        let status = query.status_filter();
        let ghost st = status_filter_of(*query);
        assert(st == (match status {
            Some(t) => Some(t@),
            None => None,
        }));
        let mut matching: Vec<Order> = Vec::new();
        let mut i: usize = 0;
        while i < self.orders.len()
            invariant
                0 <= i <= self.orders@.len(),
                matching@ == matching_orders(self.orders@.take(i as int), owner, st),
                st == (match status {
                    Some(t) => Some(t@),
                    None => None,
                }),
            decreases self.orders@.len() - i,
        {
            assert(self.orders@.take(i + 1).drop_last() =~= self.orders@.take(i as int));
            let o = &self.orders[i];
            let owned = match owner {
                Some(u) => o.user_id == u,
                None => true,
            };
            let status_ok = match &status {
                Some(t) => same_text(o.status.as_str(), t.as_str()),
                None => true,
            };
            if owned && status_ok {
                matching.push(o.duplicate());
            }
            i = i + 1;
        }
        assert(self.orders@.take(i as int) =~= self.orders@);
        let n = matching.len();
        let ascending = match query.sort_order {
            Some(SortOrder::Asc) => true,
            _ => false,
        };
        let ghost all = ordered_orders(matching@, *query);
        let start: usize = if (offset as u64) < (n as u64) {
            offset as usize
        } else {
            n
        };
        let end: usize = if (per_page as u64) < ((n - start) as u64) {
            start + per_page as usize
        } else {
            n
        };
        let mut items: Vec<Order> = Vec::new();
        let mut k: usize = start;
        while k < end
            invariant
                start <= k <= end <= n == matching@.len() == all.len(),
                all == ordered_orders(matching@, *query),
                ascending == (query.sort_order == Some(SortOrder::Asc)),
                items@ == all.subrange(start as int, k as int),
            decreases end - k,
        {
            let idx = if ascending {
                k
            } else {
                n - 1 - k
            };
            items.push(matching[idx].duplicate());
            assert(items@ =~= all.subrange(start as int, k + 1));
            k = k + 1;
        }
        let total: i64 = if (n as u64) > (i64::MAX as u64) {
            i64::MAX
        } else {
            n as i64
        };
        ApiResponse::success(message, OrderList { items }, Some(Meta::new(page, per_page, total)))
    }

    /// One page of `user`'s orders, filtered by status and sorted by
    /// placement (newest first unless ascending is asked for), with the
    /// number of matching orders.
    pub fn list_orders(&self, user: &AuthUser, query: &OrderListQuery) -> (r: ApiResponse<OrderList>)
        ensures
            r.message@ == "Ok"@,
            is_order_listing(r, self@.orders, Some(user.user_id), *query),
    {
        self.list_for(Some(user.user_id), query, "Ok")
    }

    /// One page of everyone's orders, for administrators only.
    pub fn list_all_orders(&self, user: &AuthUser, query: &OrderListQuery) -> (r: Result<ApiResponse<OrderList>, AppError>)
        ensures
            user.role@ != admin_role() ==> r is Err && r->Err_0@ == AppErrorView::Forbidden,
            user.role@ == admin_role() ==> r is Ok && r->Ok_0.message@ == "Orders"@ && is_order_listing(
                r->Ok_0,
                self@.orders,
                None,
                *query,
            ),
    {
        match ensure_admin(user) {
            Ok(()) => {},
            Err(e) => return Err(e),
        }
        Ok(self.list_for(None, query, "Orders"))
    }

    /// Any user's order `order_id` with its lines, for administrators only.
    pub fn get_order_admin(&self, user: &AuthUser, order_id: u128) -> (r: Result<OrderWithItems, AppError>)
        ensures
            ({
                let j = order_index(self@.orders, None, order_id);
                &&& user.role@ != admin_role() ==> r is Err && r->Err_0@ == AppErrorView::Forbidden
                &&& user.role@ == admin_role() && j == -1 ==> r is Err && r->Err_0@ == AppErrorView::NotFound
                &&& user.role@ == admin_role() && j != -1 ==> r is Ok && r->Ok_0.order == self@.orders[j]
                    && r->Ok_0.items@ == items_of(self@.order_items, order_id)
            }),
    {
        match ensure_admin(user) {
            Ok(()) => {},
            Err(e) => return Err(e),
        }
        proof {
            lemma_order_index_from(self@.orders, None, order_id, 0);
        }
        match self.find_order(None, order_id) {
            Some(j) => {
                let order = self.orders[j].duplicate();
                Ok(OrderWithItems { order, items: self.collect_items(order_id) })
            },
            None => Err(AppError::NotFound),
        }
    }

    /// Puts `quantity` of a product in `user_id`'s cart, replacing the
    /// quantity of the line already there for that product.
    pub fn add_to_cart(&mut self, user_id: u128, product_id: u128, quantity: i32) -> (r: Result<
        CartItem,
        AppError,
    >)
        requires
            store_wf(old(self)@),
        ensures
            store_wf(final(self)@),
            final(self)@.products == old(self)@.products,
            final(self)@.orders == old(self)@.orders,
            final(self)@.order_items == old(self)@.order_items,
            quantity <= 0 ==> r is Err && r->Err_0@ == AppErrorView::BadRequest(
                "quantity must be greater than 0"@,
            ) && final(self)@ == old(self)@,
            quantity > 0 && product_index(old(self)@.products, product_id) == -1 ==> r is Err
                && r->Err_0@ == AppErrorView::BadRequest("product not found"@) && final(self)@
                == old(self)@,
            quantity > 0 && product_index(old(self)@.products, product_id) >= 0 ==> r is Ok && ({
                let j = cart_index(old(self)@.cart_items, user_id, product_id);
                let c = r->Ok_0;
                &&& c.user_id == user_id
                &&& c.product_id == product_id
                &&& c.quantity == quantity
                &&& j >= 0 ==> final(self)@.cart_items == old(self)@.cart_items.update(j, c)
                    && c.id == old(self)@.cart_items[j].id
                &&& j == -1 ==> final(self)@.cart_items == old(self)@.cart_items.push(c)
            }),
    {
        match check_cart_quantity(quantity) {
            Ok(()) => {},
            Err(e) => return Err(e),
        }
        if self.find_product(product_id).is_none() {
            return Err(AppError::bad_request("product not found"));
        }
        proof {
            lemma_cart_index_from(self@.cart_items, user_id, product_id, 0);
        }
        match self.find_cart_item(user_id, product_id) {
            Some(j) => {
                let old_item = self.cart_items[j];
                let item = CartItem { quantity, ..old_item };
                self.cart_items.set(j, item);
                Ok(item)
            },
            None => {
                let item = CartItem {
                    id: new_id(),
                    product_id,
                    user_id,
                    quantity,
                    created_at: now_micros(),
                };
                self.cart_items.push(item);
                Ok(item)
            },
        }
    }
}

} // verus!
