//! Role storage: the roles repository, its payloads, and the authorization
//! rule that guards it — superusers may do anything, everybody else may
//! only look at their own roles, anonymous callers may do nothing.

use vstd::prelude::*;

verus! {

use crate::acl::{AclEngine, SystemACL};
use crate::repo::{Action, DbRepoImpl, DbRow, FromRow, SuRepo, lookup};
use crate::statement::{
    ComparisonMode, FilterEntryV, Filter, FilteredOperationBuilder, FilteredOperationBuilderView,
    InsertBuilder, InsertBuilderView, Inserter, Range, SqlValue, UpdateBuilder, UpdateBuilderView,
    Updater, insert_filter, insert_pair,
};
use crate::routes::RouteBuilder;
use crate::text::{i32_dec, int_dec_str, uuid_str, uuid_text};
use crate::types::{
    BillingRole, DeliveryRole, OrderRole, RoleEntryId, StoresRole, UserId, UsersRole,
    WarehouseRole,
};

/// The table role entries live in.
pub const TABLE: &'static str = "roles";

/// A role model: a closed set of roles with a numeric key under which a
/// role is stored, and one or more superuser roles that may do anything.
pub trait RoleModel: Sized {
    /// Whether this role is a superuser role.
    spec fn is_su_spec(&self) -> bool;

    /// The numeric key this role is stored under.
    spec fn key_spec(&self) -> i64;

    /// Whether a stored key denotes a role.
    spec fn key_ok(k: i64) -> bool;

    /// The role a valid stored key denotes.
    spec fn of_key_spec(k: i64) -> Self;

    /// Decides whether this role is a superuser role.
    fn is_su(&self) -> (r: bool)
        ensures
            r == self.is_su_spec(),
    ;

    /// The numeric key this role is stored under.
    fn key(&self) -> (r: i64)
        ensures
            r == self.key_spec(),
    ;

    /// Reads a role back from its stored key.
    fn of_key(k: i64) -> (r: Option<Self>)
        ensures
            r is Some <==> Self::key_ok(k),
            r matches Some(v) ==> v == Self::of_key_spec(k),
    ;
}

/// One stored role: which user holds which role.
#[derive(Clone, Copy, Debug, PartialEq, Eq, Structural, Hash)]
pub struct RoleEntry<R> {
    pub id: RoleEntryId,
    pub user_id: UserId,
    pub role: R,
}

/// Who is calling the roles repository.
#[derive(Clone, Debug)]
pub enum RepoLogin<R> {
    Anonymous,
    User { caller_id: UserId, caller_roles: Vec<RoleEntry<R>> },
}

/// The authorization rule of the roles repository: anonymous callers are
/// denied; a caller holding a superuser role is allowed everything; any
/// other caller may only select entries that belong to them.
pub open spec fn check_acl_spec<R: RoleModel>(
    login: &RepoLogin<R>,
    entry_user: UserId,
    action: Action,
) -> bool {
    match login {
        RepoLogin::Anonymous => false,
        RepoLogin::User { caller_id, caller_roles } => (exists|i: int|
            0 <= i < caller_roles@.len() && (#[trigger] caller_roles@[i]).role.is_su_spec()) || (
        action == Action::Select && *caller_id == entry_user),
    }
}

/// Decides the authorization rule for one entry.
pub fn check_acl<R: RoleModel>(login: &RepoLogin<R>, entry: &RoleEntry<R>, action: Action) -> (r:
    bool)
    ensures
        r == check_acl_spec(login, entry.user_id, action),
{
    match login {
        RepoLogin::Anonymous => false,
        RepoLogin::User { caller_id, caller_roles } => {
            let n = caller_roles.len();
            let mut i: usize = 0;
            while i < n
                invariant
                    i <= n,
                    n == caller_roles@.len(),
                    forall|j: int| 0 <= j < i ==> !(#[trigger] caller_roles@[j]).role.is_su_spec(),
                    check_acl_spec(login, entry.user_id, action) == ((exists|k: int|
                        0 <= k < caller_roles@.len() && (#[trigger] caller_roles@[
                            k
                        ]).role.is_su_spec()) || (action == Action::Select && *caller_id
                        == entry.user_id)),
                decreases n - i,
            {
                if caller_roles[i].role.is_su() {
                    proof {
                        assert(caller_roles@[i as int].role.is_su_spec());
                    }
                    return true;
                }
                i += 1;
            }
            proof {
                assert(!(exists|k: int|
                    0 <= k < caller_roles@.len() && (#[trigger] caller_roles@[
                        k
                    ]).role.is_su_spec()));
            }
            action == Action::Select && caller_id.0 == entry.user_id.0
        },
    }
}

/// The per-row engine of the roles repository, closed over the caller.
#[derive(Clone, Debug)]
pub struct RolesAclEngine<R> {
    pub login: RepoLogin<R>,
}

impl<R: RoleModel> AclEngine<(RoleEntry<R>, Action)> for RolesAclEngine<R> {
    open spec fn allows_spec(&self, ctx: &(RoleEntry<R>, Action)) -> bool {
        check_acl_spec(&self.login, ctx.0.user_id, ctx.1)
    }

    fn allows(&self, ctx: (RoleEntry<R>, Action)) -> (r: (bool, (RoleEntry<R>, Action))) {
        let ok = check_acl(&self.login, &ctx.0, ctx.1);
        (ok, ctx)
    }
}

/// What to delete or look up in the roles table: one entry by its
/// identifier, or a user's entries, optionally narrowed to one role.
#[derive(Clone, Debug)]
pub enum RoleSearchTerms<R> {
    Id(RoleEntryId),
    Meta(UserId, Option<R>),
}

impl<R: RoleModel> Filter for RoleSearchTerms<R> {
    open spec fn filter_spec(&self, table: &'static str) -> FilteredOperationBuilderView {
        FilteredOperationBuilderView {
            table,
            extra: "",
            limit: None,
            filters: match self {
                RoleSearchTerms::Id(id) => insert_filter(
                    Seq::<FilterEntryV>::empty(),
                    "id",
                    seq![(ComparisonMode::EQ, SqlValue::Uuid(id.0))],
                ),
                RoleSearchTerms::Meta(user_id, None) => insert_filter(
                    Seq::<FilterEntryV>::empty(),
                    "user_id",
                    seq![(ComparisonMode::EQ, SqlValue::Int(user_id.0 as i64))],
                ),
                RoleSearchTerms::Meta(user_id, Some(role)) => insert_filter(
                    insert_filter(
                        Seq::<FilterEntryV>::empty(),
                        "user_id",
                        seq![(ComparisonMode::EQ, SqlValue::Int(user_id.0 as i64))],
                    ),
                    "role",
                    seq![(ComparisonMode::EQ, SqlValue::Int(role.key_spec()))],
                ),
            },
        }
    }

    fn into_filtered_operation_builder(self, table: &'static str) -> (r: FilteredOperationBuilder)
    {
        match self {
            RoleSearchTerms::Id(id) => FilteredOperationBuilder::new(table).with_filter(
                "id",
                Range::Exact(SqlValue::Uuid(id.0)),
            ),
            RoleSearchTerms::Meta(user_id, None) => FilteredOperationBuilder::new(
                table,
            ).with_filter("user_id", Range::Exact(SqlValue::Int(user_id.0 as i64))),
            RoleSearchTerms::Meta(user_id, Some(role)) => {
                let key = role.key();
                FilteredOperationBuilder::new(table).with_filter(
                    "user_id",
                    Range::Exact(SqlValue::Int(user_id.0 as i64)),
                ).with_filter("role", Range::Exact(SqlValue::Int(key)))
            },
        }
    }
}

impl<R: RoleModel> Inserter for RoleEntry<R> {
    open spec fn inserter_spec(&self, table: &'static str) -> InsertBuilderView {
        InsertBuilderView {
            table,
            extra: "",
            values: insert_pair(
                insert_pair(
                    insert_pair(
                        Seq::<(&'static str, SqlValue)>::empty(),
                        "id",
                        SqlValue::Uuid(self.id.0),
                    ),
                    "user_id",
                    SqlValue::Int(self.user_id.0 as i64),
                ),
                "role",
                SqlValue::Int(self.role.key_spec()),
            ),
        }
    }

    fn into_insert_builder(self, table: &'static str) -> (r: InsertBuilder) {
        let key = self.role.key();
        InsertBuilder::new(table).with_arg("id", SqlValue::Uuid(self.id.0)).with_arg(
            "user_id",
            SqlValue::Int(self.user_id.0 as i64),
        ).with_arg("role", SqlValue::Int(key))
    }
}

/// Whether a raw row has the shape of a stored role entry for `R`.
pub open spec fn role_row_ok<R: RoleModel>(row: &DbRow) -> bool {
    &&& lookup(row.columns@, "id") matches Some(SqlValue::Uuid(_))
    &&& lookup(row.columns@, "user_id") matches Some(SqlValue::Int(u)) && i32::MIN <= u
        <= i32::MAX
    &&& lookup(row.columns@, "role") matches Some(SqlValue::Int(k)) && R::key_ok(k)
}

/// The entry a well-shaped role row maps to.
pub open spec fn role_of_row<R: RoleModel>(row: DbRow) -> RoleEntry<R> {
    RoleEntry {
        id: RoleEntryId(lookup(row.columns@, "id")->Some_0->Uuid_0),
        user_id: UserId(lookup(row.columns@, "user_id")->Some_0->Int_0 as i32),
        role: R::of_key_spec(lookup(row.columns@, "role")->Some_0->Int_0),
    }
}

impl<R: RoleModel> FromRow for RoleEntry<R> {
    open spec fn row_ok(row: &DbRow) -> bool {
        role_row_ok::<R>(row)
    }

    open spec fn from_row_spec(row: DbRow) -> RoleEntry<R> {
        role_of_row::<R>(row)
    }

    fn from_row(row: DbRow) -> (r: Option<RoleEntry<R>>) {
        let id = match row.get("id") {
            Some(SqlValue::Uuid(u)) => RoleEntryId(*u),
            _ => {
                return None;
            },
        };
        let user_id = match row.get("user_id") {
            Some(SqlValue::Int(u)) => {
                if *u < i32::MIN as i64 || *u > i32::MAX as i64 {
                    return None;
                }
                UserId(*u as i32)
            },
            _ => {
                return None;
            },
        };
        let role = match row.get("role") {
            Some(SqlValue::Int(k)) => {
                match R::of_key(*k) {
                    Some(role) => role,
                    None => {
                        return None;
                    },
                }
            },
            _ => {
                return None;
            },
        };
        Some(RoleEntry { id, user_id, role })
    }
}

/// An update payload the roles repository never uses: roles are created
/// and removed, never changed in place.
#[derive(Clone, Copy, Debug)]
pub struct DummyRoleUpdater;

impl Updater for DummyRoleUpdater {
    open spec fn updater_ok(&self) -> bool {
        false
    }

    open spec fn updater_spec(&self, table: &'static str) -> UpdateBuilderView {
        UpdateBuilderView {
            extra: "",
            values: Seq::empty(),
            filters: FilteredOperationBuilderView {
                table,
                extra: "",
                filters: Seq::empty(),
                limit: None,
            },
        }
    }

    fn into_update_builder(self, table: &'static str) -> (r: UpdateBuilder) {
        UpdateBuilder::new(table)
    }
}

/// The roles repository with a given per-row engine.
pub type RolesRepoImpl<R, AP> = DbRepoImpl<
    RoleEntry<R>,
    RoleEntry<R>,
    RoleSearchTerms<R>,
    DummyRoleUpdater,
    SystemACL,
    SystemACL,
    SystemACL,
    SystemACL,
    AP,
>;

/// Creates a roles repository with every check disabled, for callers that
/// act with system authority.
pub fn make_su_repo<R: RoleModel>() -> (r: RolesRepoImpl<R, SystemACL>)
    ensures
        r.table == TABLE,
        r.afterop_acl_engine == SystemACL,
{
    SuRepo::new(TABLE)
}

/// Creates a roles repository guarded per row by the authorization rule,
/// closed over the caller. No access for anonymous callers.
pub fn make_repo<R: RoleModel>(login: RepoLogin<R>) -> (r: RolesRepoImpl<R, RolesAclEngine<R>>)
    ensures
        r.table == TABLE,
        r.afterop_acl_engine == (RolesAclEngine { login }),
{
    make_su_repo().with_afterop_acl_engine(RolesAclEngine { login })
}

impl RoleModel for StoresRole {
    open spec fn is_su_spec(&self) -> bool {
        *self == StoresRole::Superuser
    }

    open spec fn key_spec(&self) -> i64 {
        match *self {
            StoresRole::Superuser => 1,
            StoresRole::User => 2,
            StoresRole::Moderator => 3,
            StoresRole::PlatformAdmin => 4,
        }
    }

    open spec fn key_ok(k: i64) -> bool {
        k == 1 || k == 2 || k == 3 || k == 4
    }

    open spec fn of_key_spec(k: i64) -> StoresRole {
        if k == 1 {
            StoresRole::Superuser
        } else if k == 2 {
            StoresRole::User
        } else if k == 3 {
            StoresRole::Moderator
        } else if k == 4 {
            StoresRole::PlatformAdmin
        } else {
            StoresRole::Superuser
        }
    }

    fn is_su(&self) -> (r: bool) {
        match *self {
            StoresRole::Superuser => true,
            _ => false,
        }
    }

    fn key(&self) -> (r: i64) {
        match *self {
            StoresRole::Superuser => 1,
            StoresRole::User => 2,
            StoresRole::Moderator => 3,
            StoresRole::PlatformAdmin => 4,
        }
    }

    fn of_key(k: i64) -> (r: Option<StoresRole>) {
        if k == 1 {
            Some(StoresRole::Superuser)
        } else if k == 2 {
            Some(StoresRole::User)
        } else if k == 3 {
            Some(StoresRole::Moderator)
        } else if k == 4 {
            Some(StoresRole::PlatformAdmin)
        } else {
            None
        }
    }
}

impl RoleModel for UsersRole {
    open spec fn is_su_spec(&self) -> bool {
        *self == UsersRole::Superuser
    }

    open spec fn key_spec(&self) -> i64 {
        match *self {
            UsersRole::Superuser => 1,
            UsersRole::User => 2,
            UsersRole::Moderator => 3,
        }
    }

    open spec fn key_ok(k: i64) -> bool {
        k == 1 || k == 2 || k == 3
    }

    open spec fn of_key_spec(k: i64) -> UsersRole {
        if k == 1 {
            UsersRole::Superuser
        } else if k == 2 {
            UsersRole::User
        } else if k == 3 {
            UsersRole::Moderator
        } else {
            UsersRole::Superuser
        }
    }

    fn is_su(&self) -> (r: bool) {
        match *self {
            UsersRole::Superuser => true,
            _ => false,
        }
    }

    fn key(&self) -> (r: i64) {
        match *self {
            UsersRole::Superuser => 1,
            UsersRole::User => 2,
            UsersRole::Moderator => 3,
        }
    }

    fn of_key(k: i64) -> (r: Option<UsersRole>) {
        if k == 1 {
            Some(UsersRole::Superuser)
        } else if k == 2 {
            Some(UsersRole::User)
        } else if k == 3 {
            Some(UsersRole::Moderator)
        } else {
            None
        }
    }
}

impl RoleModel for BillingRole {
    open spec fn is_su_spec(&self) -> bool {
        *self == BillingRole::Superuser
    }

    open spec fn key_spec(&self) -> i64 {
        match *self {
            BillingRole::Superuser => 1,
            BillingRole::User => 2,
            BillingRole::StoreManager => 3,
        }
    }

    open spec fn key_ok(k: i64) -> bool {
        k == 1 || k == 2 || k == 3
    }

    open spec fn of_key_spec(k: i64) -> BillingRole {
        if k == 1 {
            BillingRole::Superuser
        } else if k == 2 {
            BillingRole::User
        } else if k == 3 {
            BillingRole::StoreManager
        } else {
            BillingRole::Superuser
        }
    }

    fn is_su(&self) -> (r: bool) {
        match *self {
            BillingRole::Superuser => true,
            _ => false,
        }
    }

    fn key(&self) -> (r: i64) {
        match *self {
            BillingRole::Superuser => 1,
            BillingRole::User => 2,
            BillingRole::StoreManager => 3,
        }
    }

    fn of_key(k: i64) -> (r: Option<BillingRole>) {
        if k == 1 {
            Some(BillingRole::Superuser)
        } else if k == 2 {
            Some(BillingRole::User)
        } else if k == 3 {
            Some(BillingRole::StoreManager)
        } else {
            None
        }
    }
}

impl RoleModel for DeliveryRole {
    open spec fn is_su_spec(&self) -> bool {
        *self == DeliveryRole::Superuser
    }

    open spec fn key_spec(&self) -> i64 {
        match *self {
            DeliveryRole::Superuser => 1,
            DeliveryRole::User => 2,
            DeliveryRole::StoreManager => 3,
        }
    }

    open spec fn key_ok(k: i64) -> bool {
        k == 1 || k == 2 || k == 3
    }

    open spec fn of_key_spec(k: i64) -> DeliveryRole {
        if k == 1 {
            DeliveryRole::Superuser
        } else if k == 2 {
            DeliveryRole::User
        } else if k == 3 {
            DeliveryRole::StoreManager
        } else {
            DeliveryRole::Superuser
        }
    }

    fn is_su(&self) -> (r: bool) {
        match *self {
            DeliveryRole::Superuser => true,
            _ => false,
        }
    }

    fn key(&self) -> (r: i64) {
        match *self {
            DeliveryRole::Superuser => 1,
            DeliveryRole::User => 2,
            DeliveryRole::StoreManager => 3,
        }
    }

    fn of_key(k: i64) -> (r: Option<DeliveryRole>) {
        if k == 1 {
            Some(DeliveryRole::Superuser)
        } else if k == 2 {
            Some(DeliveryRole::User)
        } else if k == 3 {
            Some(DeliveryRole::StoreManager)
        } else {
            None
        }
    }
}

impl RoleModel for OrderRole {
    open spec fn is_su_spec(&self) -> bool {
        *self == OrderRole::Superuser
    }

    open spec fn key_spec(&self) -> i64 {
        match *self {
            OrderRole::Superuser => 1,
            OrderRole::User => 2,
            OrderRole::StoreManager => 3,
        }
    }

    open spec fn key_ok(k: i64) -> bool {
        k == 1 || k == 2 || k == 3
    }

    open spec fn of_key_spec(k: i64) -> OrderRole {
        if k == 1 {
            OrderRole::Superuser
        } else if k == 2 {
            OrderRole::User
        } else if k == 3 {
            OrderRole::StoreManager
        } else {
            OrderRole::Superuser
        }
    }

    fn is_su(&self) -> (r: bool) {
        match *self {
            OrderRole::Superuser => true,
            _ => false,
        }
    }

    fn key(&self) -> (r: i64) {
        match *self {
            OrderRole::Superuser => 1,
            OrderRole::User => 2,
            OrderRole::StoreManager => 3,
        }
    }

    fn of_key(k: i64) -> (r: Option<OrderRole>) {
        if k == 1 {
            Some(OrderRole::Superuser)
        } else if k == 2 {
            Some(OrderRole::User)
        } else if k == 3 {
            Some(OrderRole::StoreManager)
        } else {
            None
        }
    }
}

impl RoleModel for WarehouseRole {
    open spec fn is_su_spec(&self) -> bool {
        *self == WarehouseRole::Superuser
    }

    open spec fn key_spec(&self) -> i64 {
        match *self {
            WarehouseRole::Superuser => 1,
            WarehouseRole::User => 2,
            WarehouseRole::StoreManager => 3,
        }
    }

    open spec fn key_ok(k: i64) -> bool {
        k == 1 || k == 2 || k == 3
    }

    open spec fn of_key_spec(k: i64) -> WarehouseRole {
        if k == 1 {
            WarehouseRole::Superuser
        } else if k == 2 {
            WarehouseRole::User
        } else if k == 3 {
            WarehouseRole::StoreManager
        } else {
            WarehouseRole::Superuser
        }
    }

    fn is_su(&self) -> (r: bool) {
        match *self {
            WarehouseRole::Superuser => true,
            _ => false,
        }
    }

    fn key(&self) -> (r: i64) {
        match *self {
            WarehouseRole::Superuser => 1,
            WarehouseRole::User => 2,
            WarehouseRole::StoreManager => 3,
        }
    }

    fn of_key(k: i64) -> (r: Option<WarehouseRole>) {
        if k == 1 {
            Some(WarehouseRole::Superuser)
        } else if k == 2 {
            Some(WarehouseRole::User)
        } else if k == 3 {
            Some(WarehouseRole::StoreManager)
        } else {
            None
        }
    }
}

/// The routes of the roles service.
#[derive(Clone, Copy, Debug, PartialEq, Eq, Structural, Hash)]
pub enum Route {
    Roles,
    RoleById(RoleEntryId),
    RolesByUserId(UserId),
}

impl RouteBuilder for Route {
    open spec fn route_spec(&self) -> Seq<char> {
        match self {
            Route::Roles => "roles"@,
            Route::RoleById(id) => "roles/by-id/"@ + uuid_text(id.0 as nat),
            Route::RolesByUserId(user_id) => "roles/by-user-id/"@ + int_dec_str(user_id.0 as int),
        }
    }

    fn route(&self) -> (r: String) {
        match self {
            Route::Roles => String::from_str("roles"),
            Route::RoleById(id) => {
                let mut s = String::from_str("roles/by-id/");
                let d = uuid_str(id.0);
                s.append(d.as_str());
                proof {
                    assert(s@ =~= self.route_spec());
                }
                s
            },
            Route::RolesByUserId(user_id) => {
                let mut s = String::from_str("roles/by-user-id/");
                let d = i32_dec(user_id.0);
                s.append(d.as_str());
                proof {
                    assert(s@ =~= self.route_spec());
                }
                s
            },
        }
    }
}

/// An HTTP method the roles controller answers to.
#[derive(Clone, Copy, Debug, PartialEq, Eq, Structural, Hash)]
pub enum HttpMethod {
    Get,
    Post,
    Delete,
}

/// What the roles controller decided to do for one request: the repository
/// operation, or that the request body must be parsed first.
#[derive(Clone, Copy, Debug, PartialEq, Eq, Structural)]
pub enum RoleCommand {
    ListForUser(UserId),
    CreateFromBody,
    RemoveForUserFromBody(UserId),
    RemoveById(RoleEntryId),
}

/// The controller's dispatch rule: which command, if any, a method and a
/// route select.
pub open spec fn dispatch_spec(method: HttpMethod, route: Route) -> Option<RoleCommand> {
    match (method, route) {
        (HttpMethod::Get, Route::RolesByUserId(user_id)) => Some(RoleCommand::ListForUser(user_id)),
        (HttpMethod::Post, Route::Roles) => Some(RoleCommand::CreateFromBody),
        (HttpMethod::Delete, Route::RolesByUserId(user_id)) => Some(
            RoleCommand::RemoveForUserFromBody(user_id),
        ),
        (HttpMethod::Delete, Route::RoleById(id)) => Some(RoleCommand::RemoveById(id)),
        _ => None,
    }
}

/// Decides what to do for one request; any other pairing is unroutable.
pub fn dispatch(method: HttpMethod, route: Route) -> (r: Option<RoleCommand>)
    ensures
        r == dispatch_spec(method, route),
{
    match (method, route) {
        (HttpMethod::Get, Route::RolesByUserId(user_id)) => Some(RoleCommand::ListForUser(user_id)),
        (HttpMethod::Post, Route::Roles) => Some(RoleCommand::CreateFromBody),
        (HttpMethod::Delete, Route::RolesByUserId(user_id)) => Some(
            RoleCommand::RemoveForUserFromBody(user_id),
        ),
        (HttpMethod::Delete, Route::RoleById(id)) => Some(RoleCommand::RemoveById(id)),
        _ => None,
    }
}

} // verus!
