//! Routing vocabulary: the models and services addressable over the wire,
//! and the trait a route value renders itself to a path with.

use vstd::prelude::*;

verus! {

use crate::text::str_eq;

/// A value that renders itself as a request path.
pub trait RouteBuilder {
    /// The path this value stands for.
    spec fn route_spec(&self) -> Seq<char>;

    /// Renders the path this value stands for.
    fn route(&self) -> (r: String)
        ensures
            r@ == self.route_spec(),
    ;

    /// Renders the path under a base: `base/route` with a base, the bare
    /// route without one.
    fn build_route(&self, base: Option<&str>) -> (r: String)
        ensures
            match base {
                Some(b) => r@ == b@ + "/"@ + self.route_spec(),
                None => r@ == self.route_spec(),
            },
    {
        match base {
            Some(b) => {
                let mut s = b.to_owned();
                s.append("/");
                let tail = self.route();
                s.append(tail.as_str());
                s
            },
            None => self.route(),
        }
    }
}

/// A model the platform exposes.
#[derive(Clone, Copy, Debug, PartialEq, Eq, Structural, Hash)]
pub enum Model {
    User,
    JWT,
    Store,
    Product,
    BaseProduct,
    UserRoles,
    Attribute,
    Category,
    CartProduct,
    CartStore,
    SearchCategory,
    WizardStore,
    ModeratorProductComment,
    ModeratorStoreComment,
    UserDeliveryAddress,
    Warehouse,
    WarehouseProduct,
    WarehouseUser,
    Order,
}

impl Model {
    /// The textual form of each model.
    pub open spec fn name_spec(self) -> Seq<char> {
        match self {
            Model::User => "user"@,
            Model::JWT => "jwt"@,
            Model::Store => "store"@,
            Model::Product => "product"@,
            Model::BaseProduct => "base_product"@,
            Model::UserRoles => "user_roles"@,
            Model::Attribute => "attribute"@,
            Model::Category => "category"@,
            Model::CartProduct => "cart_product"@,
            Model::CartStore => "cart_store"@,
            Model::SearchCategory => "search_category"@,
            Model::WizardStore => "wizard_store"@,
            Model::ModeratorProductComment => "moderator_product_comment"@,
            Model::ModeratorStoreComment => "moderator_store_comment"@,
            Model::UserDeliveryAddress => "user_delivery_address"@,
            Model::Warehouse => "warehouse"@,
            Model::WarehouseProduct => "warehouse_product"@,
            Model::WarehouseUser => "warehouse_user"@,
            Model::Order => "order"@,
        }
    }

    /// Renders the model's textual form.
    pub fn name(&self) -> (r: &'static str)
        ensures
            r@ == self.name_spec(),
    {
        match self {
            Model::User => "user",
            Model::JWT => "jwt",
            Model::Store => "store",
            Model::Product => "product",
            Model::BaseProduct => "base_product",
            Model::UserRoles => "user_roles",
            Model::Attribute => "attribute",
            Model::Category => "category",
            Model::CartProduct => "cart_product",
            Model::CartStore => "cart_store",
            Model::SearchCategory => "search_category",
            Model::WizardStore => "wizard_store",
            Model::ModeratorProductComment => "moderator_product_comment",
            Model::ModeratorStoreComment => "moderator_store_comment",
            Model::UserDeliveryAddress => "user_delivery_address",
            Model::Warehouse => "warehouse",
            Model::WarehouseProduct => "warehouse_product",
            Model::WarehouseUser => "warehouse_user",
            Model::Order => "order",
        }
    }

    /// The model a textual form denotes, or nothing for any other text.
    pub open spec fn from_str_spec(s: Seq<char>) -> Option<Model> {
        if s == "user"@ {
            Some(Model::User)
        } else if s == "jwt"@ {
            Some(Model::JWT)
        } else if s == "store"@ {
            Some(Model::Store)
        } else if s == "product"@ {
            Some(Model::Product)
        } else if s == "base_product"@ {
            Some(Model::BaseProduct)
        } else if s == "user_roles"@ {
            Some(Model::UserRoles)
        } else if s == "attribute"@ {
            Some(Model::Attribute)
        } else if s == "category"@ {
            Some(Model::Category)
        } else if s == "cart_product"@ {
            Some(Model::CartProduct)
        } else if s == "cart_store"@ {
            Some(Model::CartStore)
        } else if s == "search_category"@ {
            Some(Model::SearchCategory)
        } else if s == "wizard_store"@ {
            Some(Model::WizardStore)
        } else if s == "moderator_product_comment"@ {
            Some(Model::ModeratorProductComment)
        } else if s == "moderator_store_comment"@ {
            Some(Model::ModeratorStoreComment)
        } else if s == "user_delivery_address"@ {
            Some(Model::UserDeliveryAddress)
        } else if s == "warehouse"@ {
            Some(Model::Warehouse)
        } else if s == "warehouse_product"@ {
            Some(Model::WarehouseProduct)
        } else if s == "warehouse_user"@ {
            Some(Model::WarehouseUser)
        } else if s == "order"@ {
            Some(Model::Order)
        } else {
            None
        }
    }

    /// Parses a textual form; `Some` exactly on the recognized texts.
    pub fn from_str(s: &str) -> (r: Option<Model>)
        ensures
            r == Self::from_str_spec(s@),
    {
        if str_eq(s, "user") {
            Some(Model::User)
        } else if str_eq(s, "jwt") {
            Some(Model::JWT)
        } else if str_eq(s, "store") {
            Some(Model::Store)
        } else if str_eq(s, "product") {
            Some(Model::Product)
        } else if str_eq(s, "base_product") {
            Some(Model::BaseProduct)
        } else if str_eq(s, "user_roles") {
            Some(Model::UserRoles)
        } else if str_eq(s, "attribute") {
            Some(Model::Attribute)
        } else if str_eq(s, "category") {
            Some(Model::Category)
        } else if str_eq(s, "cart_product") {
            Some(Model::CartProduct)
        } else if str_eq(s, "cart_store") {
            Some(Model::CartStore)
        } else if str_eq(s, "search_category") {
            Some(Model::SearchCategory)
        } else if str_eq(s, "wizard_store") {
            Some(Model::WizardStore)
        } else if str_eq(s, "moderator_product_comment") {
            Some(Model::ModeratorProductComment)
        } else if str_eq(s, "moderator_store_comment") {
            Some(Model::ModeratorStoreComment)
        } else if str_eq(s, "user_delivery_address") {
            Some(Model::UserDeliveryAddress)
        } else if str_eq(s, "warehouse") {
            Some(Model::Warehouse)
        } else if str_eq(s, "warehouse_product") {
            Some(Model::WarehouseProduct)
        } else if str_eq(s, "warehouse_user") {
            Some(Model::WarehouseUser)
        } else if str_eq(s, "order") {
            Some(Model::Order)
        } else {
            None
        }
    }

    /// The collection segment each model lives under.
    pub open spec fn to_url_spec(self) -> Seq<char> {
        match self {
            Model::User => "users"@,
            Model::JWT => "jwt"@,
            Model::Store => "stores"@,
            Model::Product => "products"@,
            Model::BaseProduct => "base_products"@,
            Model::UserRoles => "user_roles"@,
            Model::Attribute => "attributes"@,
            Model::Category => "categories"@,
            Model::CartProduct => "cart_products"@,
            Model::CartStore => "cart_store"@,
            Model::SearchCategory => "search_category"@,
            Model::WizardStore => "wizard_stores"@,
            Model::ModeratorProductComment => "moderator_product_comments"@,
            Model::ModeratorStoreComment => "moderator_store_comments"@,
            Model::UserDeliveryAddress => "user_delivery_address"@,
            Model::Warehouse => "warehouses"@,
            Model::WarehouseProduct => "warehouse_products"@,
            Model::WarehouseUser => "warehouse_users"@,
            Model::Order => "orders"@,
        }
    }

    /// Renders the collection segment each model lives under.
    pub fn to_url(&self) -> (r: String)
        ensures
            r@ == self.to_url_spec(),
    {
        match self {
            Model::User => String::from_str("users"),
            Model::JWT => String::from_str("jwt"),
            Model::Store => String::from_str("stores"),
            Model::Product => String::from_str("products"),
            Model::BaseProduct => String::from_str("base_products"),
            Model::UserRoles => String::from_str("user_roles"),
            Model::Attribute => String::from_str("attributes"),
            Model::Category => String::from_str("categories"),
            Model::CartProduct => String::from_str("cart_products"),
            Model::CartStore => String::from_str("cart_store"),
            Model::SearchCategory => String::from_str("search_category"),
            Model::WizardStore => String::from_str("wizard_stores"),
            Model::ModeratorProductComment => String::from_str("moderator_product_comments"),
            Model::ModeratorStoreComment => String::from_str("moderator_store_comments"),
            Model::UserDeliveryAddress => String::from_str("user_delivery_address"),
            Model::Warehouse => String::from_str("warehouses"),
            Model::WarehouseProduct => String::from_str("warehouse_products"),
            Model::WarehouseUser => String::from_str("warehouse_users"),
            Model::Order => String::from_str("orders"),
        }
    }
}

/// A service of the platform.
#[derive(Clone, Copy, Debug, PartialEq, Eq, Structural, Hash)]
pub enum Service {
    Users,
    Stores,
    Orders,
    Warehouses,
    Notifications,
}

impl Service {
    /// The textual form of each service.
    pub open spec fn name_spec(self) -> Seq<char> {
        match self {
            Service::Users => "users"@,
            Service::Stores => "stores"@,
            Service::Orders => "orders"@,
            Service::Warehouses => "warehouses"@,
            Service::Notifications => "notifications"@,
        }
    }

    /// Renders the service's textual form.
    pub fn name(&self) -> (r: &'static str)
        ensures
            r@ == self.name_spec(),
    {
        match self {
            Service::Users => "users",
            Service::Stores => "stores",
            Service::Orders => "orders",
            Service::Warehouses => "warehouses",
            Service::Notifications => "notifications",
        }
    }

    /// The service a textual form denotes, or nothing for any other text.
    pub open spec fn from_str_spec(s: Seq<char>) -> Option<Service> {
        if s == "users"@ {
            Some(Service::Users)
        } else if s == "stores"@ {
            Some(Service::Stores)
        } else if s == "orders"@ {
            Some(Service::Orders)
        } else if s == "warehouses"@ {
            Some(Service::Warehouses)
        } else if s == "notifications"@ {
            Some(Service::Notifications)
        } else {
            None
        }
    }

    /// Parses a textual form; `Some` exactly on the recognized texts.
    pub fn from_str(s: &str) -> (r: Option<Service>)
        ensures
            r == Self::from_str_spec(s@),
    {
        if str_eq(s, "users") {
            Some(Service::Users)
        } else if str_eq(s, "stores") {
            Some(Service::Stores)
        } else if str_eq(s, "orders") {
            Some(Service::Orders)
        } else if str_eq(s, "warehouses") {
            Some(Service::Warehouses)
        } else if str_eq(s, "notifications") {
            Some(Service::Notifications)
        } else {
            None
        }
    }
}

} // verus!
