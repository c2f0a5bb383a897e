//! Domain identifier newtypes and small identifier enums. Identifiers that
//! are UUIDs elsewhere are carried here as their 128-bit value.

use vstd::prelude::*;

verus! {

use crate::text::{int_dec_str, i32_dec};

/// Relies on uuid::Uuid::new_v4 for a fresh random version-4 UUID, carried
/// as its 128-bit value. Nothing is promised of the value: it is random.
#[verifier::external_body]
fn fresh_uuid() -> u128 {
    uuid::Uuid::new_v4().as_u128()
}

/// A user's numeric identifier.
#[derive(Clone, Copy, Debug, PartialEq, Eq, Structural, Hash)]
pub struct UserId(pub i32);

/// A session's numeric identifier, for carts of anonymous customers.
#[derive(Clone, Copy, Debug, PartialEq, Eq, Structural, Hash)]
pub struct SessionId(pub i32);

/// A product's numeric identifier.
#[derive(Clone, Copy, Debug, PartialEq, Eq, Structural, Hash)]
pub struct ProductId(pub i32);

/// A count of product units.
#[derive(Clone, Copy, Debug, PartialEq, Eq, Structural, Hash)]
pub struct Quantity(pub i32);

/// A store's numeric identifier.
#[derive(Clone, Copy, Debug, PartialEq, Eq, Structural, Hash)]
pub struct StoreId(pub i32);

/// An order's short numeric identifier.
#[derive(Clone, Copy, Debug, PartialEq, Eq, Structural, Hash)]
pub struct OrderSlug(pub i32);

/// A page's numeric identifier.
#[derive(Clone, Copy, Debug, PartialEq, Eq, Structural, Hash)]
pub struct PageId(pub i32);

/// A coupon's numeric identifier.
#[derive(Clone, Copy, Debug, PartialEq, Eq, Structural, Hash)]
pub struct CouponId(pub i32);

/// A delivery company package's numeric identifier.
#[derive(Clone, Copy, Debug, PartialEq, Eq, Structural, Hash)]
pub struct CompanyPackageId(pub i32);

/// A pickup point's numeric identifier.
#[derive(Clone, Copy, Debug, PartialEq, Eq, Structural, Hash)]
pub struct PickupId(pub i32);

/// A shipping option's numeric identifier.
#[derive(Clone, Copy, Debug, PartialEq, Eq, Structural, Hash)]
pub struct ShippingId(pub i32);

/// A currency's numeric key.
#[derive(Clone, Copy, Debug, PartialEq, Eq, Structural, Hash)]
pub struct CurrencyId(pub i32);

/// A role entry's identifier.
#[derive(Clone, Copy, Debug, PartialEq, Eq, Structural, Hash)]
pub struct RoleEntryId(pub u128);

impl RoleEntryId {
    /// A fresh random identifier.
    pub fn new() -> Self {
        RoleEntryId(fresh_uuid())
    }
}

/// A role's identifier.
#[derive(Clone, Copy, Debug, PartialEq, Eq, Structural, Hash)]
pub struct RoleId(pub u128);

impl RoleId {
    /// A fresh random identifier.
    pub fn new() -> Self {
        RoleId(fresh_uuid())
    }
}

/// A warehouse's identifier.
#[derive(Clone, Copy, Debug, PartialEq, Eq, Structural, Hash)]
pub struct WarehouseId(pub u128);

impl WarehouseId {
    /// A fresh random identifier.
    pub fn new() -> Self {
        WarehouseId(fresh_uuid())
    }
}

/// A stock record's identifier.
#[derive(Clone, Copy, Debug, PartialEq, Eq, Structural, Hash)]
pub struct StockId(pub u128);

impl StockId {
    /// A fresh random identifier.
    pub fn new() -> Self {
        StockId(fresh_uuid())
    }
}

/// An order's identifier.
#[derive(Clone, Copy, Debug, PartialEq, Eq, Structural, Hash)]
pub struct OrderId(pub u128);

/// A cart item's identifier.
#[derive(Clone, Copy, Debug, PartialEq, Eq, Structural, Hash)]
pub struct CartItemId(pub u128);

/// A cart conversion's identifier.
#[derive(Clone, Copy, Debug, PartialEq, Eq, Structural, Hash)]
pub struct ConversionId(pub u128);

/// A warehouse's textual identifier.
#[derive(Clone, Debug, Hash)]
pub struct WarehouseSlug(pub String);

impl PartialEq for WarehouseSlug {
    fn eq(&self, other: &WarehouseSlug) -> bool {
        self.0 == other.0
    }
}

impl vstd::std_specs::cmp::PartialEqSpecImpl for WarehouseSlug {
    open spec fn obeys_eq_spec() -> bool {
        true
    }

    open spec fn eq_spec(&self, other: &WarehouseSlug) -> bool {
        self.0@ == other.0@
    }
}

/// A page's textual identifier.
#[derive(Clone, Debug, Hash)]
pub struct PageSlug(pub String);

/// The customer a cart belongs to: a signed-in user or an anonymous
/// session.
#[derive(Clone, Copy, Debug, PartialEq, Eq, Structural, Hash)]
pub enum CartCustomer {
    User(UserId),
    Anonymous(SessionId),
}

impl CartCustomer {
    /// The customer's textual form: the kind of identifier and its value.
    pub open spec fn label_spec(&self) -> Seq<char> {
        match self {
            CartCustomer::User(id) => "user / "@ + int_dec_str(id.0 as int),
            CartCustomer::Anonymous(id) => "session / "@ + int_dec_str(id.0 as int),
        }
    }

    /// Renders the customer's textual form.
    pub fn label(&self) -> (r: String)
        ensures
            r@ == self.label_spec(),
    {
        match self {
            CartCustomer::User(id) => {
                let mut s = String::from_str("user / ");
                let d = i32_dec(id.0);
                s.append(d.as_str());
                proof {
                    assert(s@ =~= self.label_spec());
                }
                s
            },
            CartCustomer::Anonymous(id) => {
                let mut s = String::from_str("session / ");
                let d = i32_dec(id.0);
                s.append(d.as_str());
                proof {
                    assert(s@ =~= self.label_spec());
                }
                s
            },
        }
    }
}

/// Anything that can identify a warehouse.
#[derive(Clone, Debug)]
pub enum WarehouseIdentifier {
    Id(WarehouseId),
    Slug(WarehouseSlug),
}

/// Anything that can identify an order.
#[derive(Clone, Copy, Debug, PartialEq, Eq, Structural, Hash)]
pub enum OrderIdentifier {
    Id(OrderId),
    Slug(OrderSlug),
}

/// Anything that can identify a page.
#[derive(Clone, Debug)]
pub enum PageIdentifier {
    Id(PageId),
    Slug(PageSlug),
}

/// How an order is delivered.
#[derive(Clone, Copy, Debug, PartialEq, Eq, Structural, Hash)]
pub enum DeliveryMethodId {
    Package { id: CompanyPackageId },
    Pickup { id: PickupId },
    ShippingPackage { id: ShippingId },
}

/// One item of a cart.
#[derive(Clone, Debug)]
pub struct CartItem {
    pub id: CartItemId,
    pub customer: CartCustomer,
    pub product_id: ProductId,
    pub quantity: Quantity,
    pub selected: bool,
    pub comment: String,
    pub store_id: StoreId,
    pub pre_order: bool,
    pub pre_order_days: i32,
    pub coupon_id: Option<CouponId>,
}

/// The roles a user can hold in the stores service.
#[derive(Clone, Copy, Debug, PartialEq, Eq, Structural, Hash)]
pub enum StoresRole {
    Superuser,
    User,
    Moderator,
    PlatformAdmin,
}

/// The roles a user can hold in the users service.
#[derive(Clone, Copy, Debug, PartialEq, Eq, Structural, Hash)]
pub enum UsersRole {
    Superuser,
    User,
    Moderator,
}

/// The roles a user can hold in the billing service.
#[derive(Clone, Copy, Debug, PartialEq, Eq, Structural, Hash)]
pub enum BillingRole {
    Superuser,
    User,
    StoreManager,
}

/// The roles a user can hold in the delivery service.
#[derive(Clone, Copy, Debug, PartialEq, Eq, Structural, Hash)]
pub enum DeliveryRole {
    Superuser,
    User,
    StoreManager,
}

/// The roles a user can hold in the orders service.
#[derive(Clone, Copy, Debug, PartialEq, Eq, Structural, Hash)]
pub enum OrderRole {
    Superuser,
    User,
    StoreManager,
}

/// The roles a user can hold in the warehouses service.
#[derive(Clone, Copy, Debug, PartialEq, Eq, Structural, Hash)]
pub enum WarehouseRole {
    Superuser,
    User,
    StoreManager,
}

/// Who a merchant account belongs to.
#[derive(Clone, Copy, Debug, PartialEq, Eq, Structural, Hash)]
pub enum MerchantType {
    Store,
    User,
}

} // verus!
