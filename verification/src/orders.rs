//! The orders service's addressable surface: its routes, each rendering
//! itself as a request path, and the plain payloads sent along with them.

use vstd::prelude::*;

verus! {

use crate::routes::RouteBuilder;
use crate::text::{i32_dec, int_dec_str, uuid_str, uuid_text};
use crate::types::{CartCustomer, OrderIdentifier, ProductId, StoreId, UserId};
use crate::types::{ConversionId, Quantity};
use crate::order_state::OrderState;
use crate::roles;

/// The path segment that addresses a cart's customer.
pub open spec fn cart_customer_route_spec(id: CartCustomer) -> Seq<char> {
    match id {
        CartCustomer::User(user_id) => "by-user/"@ + int_dec_str(user_id.0 as int),
        CartCustomer::Anonymous(session_id) => "by-session/"@ + int_dec_str(session_id.0 as int),
    }
}

/// Renders the path segment that addresses a cart's customer.
pub fn cart_customer_route(id: &CartCustomer) -> (r: String)
    ensures
        r@ == cart_customer_route_spec(*id),
{
    match id {
        CartCustomer::User(user_id) => {
            let mut s = String::from_str("by-user/");
            let d = i32_dec(user_id.0);
            s.append(d.as_str());
            proof {
                assert(s@ =~= cart_customer_route_spec(*id));
            }
            s
        },
        CartCustomer::Anonymous(session_id) => {
            let mut s = String::from_str("by-session/");
            let d = i32_dec(session_id.0);
            s.append(d.as_str());
            proof {
                assert(s@ =~= cart_customer_route_spec(*id));
            }
            s
        },
    }
}

/// The path segment that addresses one order.
pub open spec fn order_identifier_route_spec(id: OrderIdentifier) -> Seq<char> {
    match id {
        OrderIdentifier::Id(order_id) => "by-id/"@ + uuid_text(order_id.0 as nat),
        OrderIdentifier::Slug(slug) => "by-slug/"@ + int_dec_str(slug.0 as int),
    }
}

/// Renders the path segment that addresses one order.
pub fn order_identifier_route(id: &OrderIdentifier) -> (r: String)
    ensures
        r@ == order_identifier_route_spec(*id),
{
    match id {
        OrderIdentifier::Id(order_id) => {
            let mut s = String::from_str("by-id/");
            let d = uuid_str(order_id.0);
            s.append(d.as_str());
            proof {
                assert(s@ =~= order_identifier_route_spec(*id));
            }
            s
        },
        OrderIdentifier::Slug(slug) => {
            let mut s = String::from_str("by-slug/");
            let d = i32_dec(slug.0);
            s.append(d.as_str());
            proof {
                assert(s@ =~= order_identifier_route_spec(*id));
            }
            s
        },
    }
}

/// The routes of the orders service.
#[derive(Clone, Copy, Debug, PartialEq, Eq, Structural, Hash)]
pub enum Route {
    Cart { customer: CartCustomer },
    CartProducts { customer: CartCustomer },
    CartIncrementProduct { customer: CartCustomer, product_id: ProductId },
    CartProduct { customer: CartCustomer, product_id: ProductId },
    CartProductQuantity { customer: CartCustomer, product_id: ProductId },
    CartProductSelection { customer: CartCustomer, product_id: ProductId },
    CartProductComment { customer: CartCustomer, product_id: ProductId },
    CartClear { customer: CartCustomer },
    CartMerge,
    OrderFromCart,
    OrderFromCartRevert,
    OrderSearch,
    Orders,
    OrdersByUser { user: UserId },
    OrdersByStore { store_id: StoreId },
    Order { order_id: OrderIdentifier },
    OrderDiff { order_id: OrderIdentifier },
    OrderStatus { order_id: OrderIdentifier },
    OrdersAllowedStatuses,
    Roles(roles::Route),
}

impl RouteBuilder for Route {
    open spec fn route_spec(&self) -> Seq<char> {
        match self {
            Route::Cart { customer } => "cart/"@ + cart_customer_route_spec(*customer),
            Route::CartProducts { customer } => "cart/"@ + cart_customer_route_spec(*customer)
                + "/products"@,
            Route::CartIncrementProduct { customer, product_id } => "cart/"@
                + cart_customer_route_spec(*customer) + "/products/"@ + int_dec_str(
                product_id.0 as int,
            ) + "/increment"@,
            Route::CartProduct { customer, product_id } => "cart/"@ + cart_customer_route_spec(
                *customer,
            ) + "/products/"@ + int_dec_str(product_id.0 as int),
            Route::CartProductQuantity { customer, product_id } => "cart/"@
                + cart_customer_route_spec(*customer) + "/products/"@ + int_dec_str(
                product_id.0 as int,
            ) + "/quantity"@,
            Route::CartProductSelection { customer, product_id } => "cart/"@
                + cart_customer_route_spec(*customer) + "/products/"@ + int_dec_str(
                product_id.0 as int,
            ) + "/selection"@,
            Route::CartProductComment { customer, product_id } => "cart/"@
                + cart_customer_route_spec(*customer) + "/products/"@ + int_dec_str(
                product_id.0 as int,
            ) + "/comment"@,
            Route::CartClear { customer } => "cart/"@ + cart_customer_route_spec(*customer)
                + "/clear"@,
            Route::CartMerge => "cart/merge"@,
            Route::OrderFromCart => "orders/create_from_cart"@,
            Route::OrderFromCartRevert => "orders/create_from_cart/revert"@,
            Route::OrderSearch => "orders/search"@,
            Route::Orders => "orders"@,
            Route::OrdersByUser { user } => "orders/by-user/"@ + int_dec_str(user.0 as int),
            Route::OrdersByStore { store_id } => "orders/by-store/"@ + int_dec_str(
                store_id.0 as int,
            ),
            Route::Order { order_id } => "orders/"@ + order_identifier_route_spec(*order_id),
            Route::OrderDiff { order_id } => "order_diffs/"@ + order_identifier_route_spec(
                *order_id,
            ),
            Route::OrderStatus { order_id } => "orders/"@ + order_identifier_route_spec(*order_id)
                + "/status"@,
            Route::OrdersAllowedStatuses => "orders/allowed_statuses"@,
            Route::Roles(route) => route.route_spec(),
        }
    }

    fn route(&self) -> (r: String) {
        match self {
            Route::Cart { customer } => {
                let mut s = String::from_str("cart/");
                let c = cart_customer_route(customer);
                s.append(c.as_str());
                proof {
                    assert(s@ =~= self.route_spec());
                }
                s
            },
            Route::CartProducts { customer } => {
                let mut s = String::from_str("cart/");
                let c = cart_customer_route(customer);
                s.append(c.as_str());
                s.append("/products");
                proof {
                    assert(s@ =~= self.route_spec());
                }
                s
            },
            Route::CartIncrementProduct { customer, product_id } => {
                let mut s = String::from_str("cart/");
                let c = cart_customer_route(customer);
                s.append(c.as_str());
                s.append("/products/");
                let d = i32_dec(product_id.0);
                s.append(d.as_str());
                s.append("/increment");
                proof {
                    assert(s@ =~= self.route_spec());
                }
                s
            },
            Route::CartProduct { customer, product_id } => {
                let mut s = String::from_str("cart/");
                let c = cart_customer_route(customer);
                s.append(c.as_str());
                s.append("/products/");
                let d = i32_dec(product_id.0);
                s.append(d.as_str());
                proof {
                    assert(s@ =~= self.route_spec());
                }
                s
            },
            Route::CartProductQuantity { customer, product_id } => {
                let mut s = String::from_str("cart/");
                let c = cart_customer_route(customer);
                s.append(c.as_str());
                s.append("/products/");
                let d = i32_dec(product_id.0);
                s.append(d.as_str());
                s.append("/quantity");
                proof {
                    assert(s@ =~= self.route_spec());
                }
                s
            },
            Route::CartProductSelection { customer, product_id } => {
                let mut s = String::from_str("cart/");
                let c = cart_customer_route(customer);
                s.append(c.as_str());
                s.append("/products/");
                let d = i32_dec(product_id.0);
                s.append(d.as_str());
                s.append("/selection");
                proof {
                    assert(s@ =~= self.route_spec());
                }
                s
            },
            Route::CartProductComment { customer, product_id } => {
                let mut s = String::from_str("cart/");
                let c = cart_customer_route(customer);
                s.append(c.as_str());
                s.append("/products/");
                let d = i32_dec(product_id.0);
                s.append(d.as_str());
                s.append("/comment");
                proof {
                    assert(s@ =~= self.route_spec());
                }
                s
            },
            Route::CartClear { customer } => {
                let mut s = String::from_str("cart/");
                let c = cart_customer_route(customer);
                s.append(c.as_str());
                s.append("/clear");
                proof {
                    assert(s@ =~= self.route_spec());
                }
                s
            },
            Route::CartMerge => String::from_str("cart/merge"),
            Route::OrderFromCart => String::from_str("orders/create_from_cart"),
            Route::OrderFromCartRevert => String::from_str("orders/create_from_cart/revert"),
            Route::OrderSearch => String::from_str("orders/search"),
            Route::Orders => String::from_str("orders"),
            Route::OrdersByUser { user } => {
                let mut s = String::from_str("orders/by-user/");
                let d = i32_dec(user.0);
                s.append(d.as_str());
                proof {
                    assert(s@ =~= self.route_spec());
                }
                s
            },
            Route::OrdersByStore { store_id } => {
                let mut s = String::from_str("orders/by-store/");
                let d = i32_dec(store_id.0);
                s.append(d.as_str());
                proof {
                    assert(s@ =~= self.route_spec());
                }
                s
            },
            Route::Order { order_id } => {
                let mut s = String::from_str("orders/");
                let o = order_identifier_route(order_id);
                s.append(o.as_str());
                proof {
                    assert(s@ =~= self.route_spec());
                }
                s
            },
            Route::OrderDiff { order_id } => {
                let mut s = String::from_str("order_diffs/");
                let o = order_identifier_route(order_id);
                s.append(o.as_str());
                proof {
                    assert(s@ =~= self.route_spec());
                }
                s
            },
            Route::OrderStatus { order_id } => {
                let mut s = String::from_str("orders/");
                let o = order_identifier_route(order_id);
                s.append(o.as_str());
                s.append("/status");
                proof {
                    assert(s@ =~= self.route_spec());
                }
                s
            },
            Route::OrdersAllowedStatuses => String::from_str("orders/allowed_statuses"),
            Route::Roles(route) => route.route(),
        }
    }
}

/// A payload that sets one value.
#[derive(Clone, Copy, Debug, PartialEq, Eq, Structural)]
pub struct SetterPayload<T> {
    pub value: T,
}

/// Asks the cart to add one unit of a product sold by a store.
#[derive(Clone, Copy, Debug, PartialEq, Eq, Structural)]
pub struct CartProductIncrementPayload {
    pub store_id: StoreId,
}

/// Asks for one cart to be merged into another.
#[derive(Clone, Copy, Debug, PartialEq, Eq, Structural)]
pub struct CartMergePayload {
    pub from: CartCustomer,
    pub to: CartCustomer,
}

/// Asks for a cart conversion to be undone.
#[derive(Clone, Copy, Debug, PartialEq, Eq, Structural)]
pub struct ConvertCartRevertPayload {
    pub conversion_id: ConversionId,
}

/// Asks for an order's state to change.
#[derive(Clone, Debug)]
pub struct UpdateStatePayload {
    pub state: OrderState,
    pub track_id: Option<String>,
    pub comment: Option<String>,
}

/// Sets the quantity of a cart item.
pub type CartProductQuantityPayload = SetterPayload<Quantity>;

/// Sets the selection flag of a cart item.
pub type CartProductSelectionPayload = SetterPayload<bool>;

} // verus!
