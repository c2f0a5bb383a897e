use stq_core::orders::{cart_customer_route, order_identifier_route, Route};
use stq_core::roles;
use stq_core::routes::RouteBuilder;
use stq_core::types::{
    CartCustomer, OrderId, OrderIdentifier, OrderSlug, ProductId, RoleEntryId, SessionId, StoreId,
    UserId,
};

#[test]
fn customer_and_order_segments_render() {
    assert_eq!(cart_customer_route(&CartCustomer::User(UserId(4))), "by-user/4");
    assert_eq!(
        cart_customer_route(&CartCustomer::Anonymous(SessionId(9))),
        "by-session/9"
    );
    assert_eq!(
        order_identifier_route(&OrderIdentifier::Id(OrderId(31))),
        "by-id/00000000-0000-0000-0000-00000000001f"
    );
    assert_eq!(
        order_identifier_route(&OrderIdentifier::Slug(OrderSlug(-2))),
        "by-slug/-2"
    );
}

#[test]
fn order_routes_render_their_paths() {
    let customer = CartCustomer::User(UserId(4));
    assert_eq!(Route::Cart { customer }.route(), "cart/by-user/4");
    assert_eq!(
        Route::CartIncrementProduct { customer, product_id: ProductId(12) }.route(),
        "cart/by-user/4/products/12/increment"
    );
    assert_eq!(
        Route::CartProductQuantity { customer, product_id: ProductId(12) }.route(),
        "cart/by-user/4/products/12/quantity"
    );
    assert_eq!(Route::CartClear { customer }.route(), "cart/by-user/4/clear");
    assert_eq!(Route::CartMerge.route(), "cart/merge");
    assert_eq!(Route::OrderFromCart.route(), "orders/create_from_cart");
    assert_eq!(Route::OrdersByUser { user: UserId(7) }.route(), "orders/by-user/7");
    assert_eq!(
        Route::OrdersByStore { store_id: StoreId(3) }.route(),
        "orders/by-store/3"
    );
    assert_eq!(
        Route::OrderStatus { order_id: OrderIdentifier::Slug(OrderSlug(5)) }.route(),
        "orders/by-slug/5/status"
    );
    assert_eq!(
        Route::OrderDiff { order_id: OrderIdentifier::Id(OrderId(6)) }.route(),
        "order_diffs/by-id/00000000-0000-0000-0000-000000000006"
    );
    assert_eq!(Route::OrdersAllowedStatuses.route(), "orders/allowed_statuses");
    assert_eq!(
        Route::Roles(roles::Route::RoleById(RoleEntryId(2))).route(),
        "roles/by-id/00000000-0000-0000-0000-000000000002"
    );
    assert_eq!(
        Route::Orders.build_route(Some("https://api.example")),
        "https://api.example/orders"
    );
}
