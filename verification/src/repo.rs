//! The repository engine: builds statements from typed payloads, enforces
//! authorization before the query and per row after it, maps raw rows to
//! entities, and threads the caller's connection through every outcome,
//! success or failure.

use vstd::prelude::*;

verus! {

use crate::acl::{AclEngine, SystemACL};
use crate::statement::{
    Filter, FilteredOperation, Inserter, SqlValue, Updater, filtered_sql, flat_cmps, insert_sql,
    update_sql, vals_args, where_args,
};
use crate::text::{int_dec_str, uuid_str, uuid_text};

/// The action a repository operation performs; it tags the context of each
/// per-row authorization check.
#[derive(Clone, Copy, Debug, PartialEq, Eq, Structural, Hash)]
pub enum Action {
    Select,
    Insert,
    Update,
    Delete,
}

/// One raw row handed back by the database driver: named columns with their
/// values, in the order the driver produced them.
#[derive(Debug)]
pub struct DbRow {
    pub columns: Vec<(String, SqlValue)>,
}

/// Any entity constructible from one raw row. A row the entity's shape
/// cannot be read from is reported, not papered over.
pub trait FromRow: Sized {
    /// Whether the row has the shape the entity needs.
    spec fn row_ok(row: &DbRow) -> bool;

    /// The entity a well-shaped row maps to.
    spec fn from_row_spec(row: DbRow) -> Self;

    /// Maps a raw row to the entity, or reports a row of the wrong shape.
    fn from_row(row: DbRow) -> (r: Option<Self>)
        ensures
            r is Some <==> Self::row_ok(&row),
            r matches Some(v) ==> v == Self::from_row_spec(row),
    ;
}

impl FromRow for DbRow {
    open spec fn row_ok(row: &DbRow) -> bool {
        true
    }

    open spec fn from_row_spec(row: DbRow) -> DbRow {
        row
    }

    fn from_row(row: DbRow) -> (r: Option<DbRow>) {
        Some(row)
    }
}

/// What came back from the driver for one statement: the rows, or the
/// failure of one of the two driver steps.
#[derive(Debug)]
pub enum DbOutcome {
    Rows(Vec<DbRow>),
    PrepareFailed(String),
    QueryFailed(String),
}

/// A database session the engine can run one statement at a time against.
/// Nothing is promised of the outcome: every contract of the engine holds
/// whatever comes back.
pub trait DbConn {
    /// Prepares and runs one parameterized statement.
    fn run_statement(&mut self, statement: &String, args: &Vec<SqlValue>) -> DbOutcome;
}

/// A session substitute that replays prepared outcomes in order, for
/// exercising repositories without a database. When the script runs dry it
/// reports a failed preparation.
#[derive(Debug)]
pub struct ScriptedConn {
    pub script: Vec<DbOutcome>,
}

impl ScriptedConn {
    /// A session that will hand out the given outcomes, first first.
    pub fn new(script: Vec<DbOutcome>) -> (r: ScriptedConn)
        ensures
            r.script@ == script@,
    {
        ScriptedConn { script }
    }
}

impl DbConn for ScriptedConn {
    fn run_statement(&mut self, statement: &String, args: &Vec<SqlValue>) -> DbOutcome {
        if self.script.is_empty() {
            DbOutcome::PrepareFailed(String::from_str("script exhausted"))
        } else {
            self.script.remove(0)
        }
    }
}

/// An exactly-one helper saw no row, or more rows than the one it owed.
#[derive(Clone, Copy, Debug, PartialEq, Eq, Structural)]
pub enum MultipleOperationError {
    NoData,
    ExtraData { extra: u32 },
}

/// Why a repository operation failed. Each failure travels back together
/// with the connection it was produced on.
#[derive(Debug)]
pub enum RepoError {
    /// An authorization engine denied the payload or one of the rows.
    Unauthorized,
    /// An exactly-one helper saw the wrong number of rows.
    Multiple(MultipleOperationError),
    /// The driver failed to prepare the statement. Carries the driver's
    /// message and the statement with its rendered arguments.
    Prepare { message: String, context: String },
    /// The driver failed to run the statement. Carries the driver's
    /// message and the statement with its rendered arguments.
    Query { message: String, context: String },
    /// A row did not have the shape the entity needs.
    Mapping,
}

/// The debug rendering of one bound value.
pub open spec fn value_text(v: SqlValue) -> Seq<char> {
    match v {
        SqlValue::Int(i) => int_dec_str(i as int),
        SqlValue::Text(s) => "\""@ + s@ + "\""@,
        SqlValue::Bool(b) => if b {
            "true"@
        } else {
            "false"@
        },
        SqlValue::Uuid(u) => uuid_text(u as nat),
    }
}

/// The debug rendering of an argument list: `$i = value`, comma separated,
/// indices counting up from `idx`.
pub open spec fn args_debug_text(args: Seq<SqlValue>, idx: int) -> Seq<char>
    decreases args.len(),
{
    if args.len() == 0 {
        Seq::empty()
    } else if args.len() == 1 {
        "$"@ + int_dec_str(idx) + " = "@ + value_text(args[0])
    } else {
        "$"@ + int_dec_str(idx) + " = "@ + value_text(args[0]) + ", "@ + args_debug_text(
            args.skip(1),
            idx + 1,
        )
    }
}

/// The debug rendering of a whole statement with its arguments.
pub open spec fn query_debug_text(q: Seq<char>, args: Seq<SqlValue>) -> Seq<char> {
    "Query: "@ + q + ". Args: "@ + args_debug_text(args, 1)
}

/// Renders one bound value for diagnostics.
fn render_value(v: &SqlValue) -> (r: String)
    ensures
        r@ == value_text(*v),
{
    match v {
        SqlValue::Int(i) => crate::text::i64_dec(*i),
        SqlValue::Text(s) => {
            let mut r = String::from_str("\"");
            r.append(s.as_str());
            r.append("\"");
            proof {
                assert(r@ =~= value_text(*v));
            }
            r
        },
        SqlValue::Bool(b) => if *b {
            String::from_str("true")
        } else {
            String::from_str("false")
        },
        SqlValue::Uuid(u) => uuid_str(*u),
    }
}

/// Renders the arguments from position `i` on, indices from `idx`.
fn render_args(args: &Vec<SqlValue>, i: usize, idx: u128) -> (r: String)
    requires
        i <= args@.len(),
        idx >= 1,
        idx + (args@.len() - i) <= u128::MAX,
    ensures
        r@ == args_debug_text(args@.skip(i as int), idx as int),
    decreases args@.len() - i,
{
    if i == args.len() {
        let r = String::new();
        proof {
            assert(args@.skip(i as int).len() == 0);
        }
        r
    } else {
        let mut s = String::from_str("$");
        let d = crate::text::u128_dec(idx);
        s.append(d.as_str());
        s.append(" = ");
        let v = render_value(&args[i]);
        s.append(v.as_str());
        if i + 1 < args.len() {
            s.append(", ");
            let rest = render_args(args, i + 1, idx + 1);
            s.append(rest.as_str());
        }
        proof {
            assert(args@.skip(i as int)[0] == args@[i as int]);
            assert(args@.skip(i as int).skip(1) =~= args@.skip(i as int + 1));
            assert(s@ =~= args_debug_text(args@.skip(i as int), idx as int));
        }
        s
    }
}

/// Renders a statement and its arguments for diagnostics, so that a driver
/// failure is never reported without the statement that caused it.
pub fn query_debug(q: &str, args: &Vec<SqlValue>) -> (r: String)
    ensures
        r@ == query_debug_text(q@, args@),
{
    let mut s = String::from_str("Query: ");
    s.append(q);
    s.append(". Args: ");
    let n = args.len();
    let a = render_args(args, 0, 1);
    s.append(a.as_str());
    proof {
        assert(args@.skip(0) =~= args@);
        assert(s@ =~= query_debug_text(q@, args@));
    }
    s
}

/// Every row has the shape entities of type `T` need.
pub open spec fn rows_ok<T: FromRow>(rows: Seq<DbRow>) -> bool {
    forall|i: int| 0 <= i < rows.len() ==> T::row_ok(&rows[i])
}

/// The entities a row sequence maps to.
pub open spec fn mapped_rows<T: FromRow>(rows: Seq<DbRow>) -> Seq<T> {
    rows.map_values(|row: DbRow| T::from_row_spec(row))
}

/// The per-row authorization engine accepts every entity of the batch,
/// tagged with the action.
pub open spec fn all_allowed<T, AP: AclEngine<(T, Action)>>(
    ap: &AP,
    entities: Seq<T>,
    action: Action,
) -> bool {
    forall|i: int| 0 <= i < entities.len() ==> ap.allows_spec(&(#[trigger] entities[i], action))
}

/// Maps every raw row to an entity, or reports the first row of the wrong
/// shape. The whole batch maps or the whole batch fails.
fn map_rows<T: FromRow>(rows: Vec<DbRow>) -> (r: Result<Vec<T>, ()>)
    ensures
        r matches Ok(v) ==> rows_ok::<T>(rows@) && v@ == mapped_rows::<T>(rows@),
        r is Err ==> !rows_ok::<T>(rows@),
    decreases rows@.len(),
{
    let mut rows = rows;
    if rows.is_empty() {
        let v: Vec<T> = Vec::new();
        proof {
            assert(v@ =~= mapped_rows::<T>(rows@));
        }
        Ok(v)
    } else {
        let ghost rows0 = rows@;
        let row = rows.remove(0);
        proof {
            assert(rows@ =~= rows0.skip(1));
        }
        match T::from_row(row) {
            None => {
                proof {
                    assert(!T::row_ok(&rows0[0]));
                    assert(!rows_ok::<T>(rows0));
                }
                Err(())
            },
            Some(t) => {
                match map_rows::<T>(rows) {
                    Err(()) => {
                        proof {
                            let i = choose|i: int|
                                0 <= i < rows0.skip(1).len() && !T::row_ok(&rows0.skip(1)[i]);
                            assert(rows0.skip(1)[i] == rows0[i + 1]);
                            assert(!T::row_ok(&rows0[i + 1]));
                            assert(!rows_ok::<T>(rows0));
                        }
                        Err(())
                    },
                    Ok(mut rest) => {
                        rest.insert(0, t);
                        proof {
                            assert(rest@ =~= mapped_rows::<T>(rows0));
                            assert forall|i: int| 0 <= i < rows0.len() implies T::row_ok(
                                &rows0[i],
                            ) by {
                                if i > 0 {
                                    assert(rows0[i] == rows0.skip(1)[i - 1]);
                                    assert(T::row_ok(&rows0.skip(1)[i - 1]));
                                }
                            }
                        }
                        Ok(rest)
                    },
                }
            },
        }
    }
}

/// Checks every entity of a batch against the per-row engine, tagged with
/// the action, and hands the batch back unchanged. The batch passes only
/// when every row passes.
fn check_rows<T, AP: AclEngine<(T, Action)>>(ap: &AP, entities: Vec<T>, action: Action) -> (r: (
    bool,
    Vec<T>,
))
    ensures
        r.1@ == entities@,
        r.0 == all_allowed(ap, entities@, action),
    decreases entities@.len(),
{
    let mut entities = entities;
    if entities.is_empty() {
        proof {
            assert(all_allowed(ap, entities@, action));
        }
        (true, entities)
    } else {
        let ghost entities0 = entities@;
        let e = entities.remove(0);
        proof {
            assert(entities@ =~= entities0.skip(1));
        }
        let (head_ok, ctx) = ap.allows((e, action));
        let (e, _action) = ctx;
        let (rest_ok, mut rest) = check_rows(ap, entities, action);
        rest.insert(0, e);
        proof {
            assert(rest@ =~= entities0);
            if head_ok && rest_ok {
                assert forall|i: int| 0 <= i < entities0.len() implies ap.allows_spec(
                    &(#[trigger] entities0[i], action),
                ) by {
                    if i > 0 {
                        assert(entities0[i] == entities0.skip(1)[i - 1]);
                        assert(ap.allows_spec(&(entities0.skip(1)[i - 1], action)));
                    }
                }
            }
            if !head_ok {
                assert(!ap.allows_spec(&(entities0[0], action)));
                assert(!all_allowed(ap, entities0, action));
            }
            if !rest_ok {
                let i = choose|i: int|
                    0 <= i < entities0.skip(1).len() && !ap.allows_spec(
                        &(#[trigger] entities0.skip(1)[i], action),
                    );
                assert(entities0.skip(1)[i] == entities0[i + 1]);
                assert(!ap.allows_spec(&(entities0[i + 1], action)));
                assert(!all_allowed(ap, entities0, action));
            }
        }
        (head_ok && rest_ok, rest)
    }
}

/// Requires exactly one entity from a batch outcome: zero rows become
/// `NoData`, extra rows become `ExtraData` counting the surplus, and one
/// row is handed through. The connection travels with every outcome, and a
/// failed batch is handed through unchanged.
pub fn exactly_one<T, C>(res: Result<(Vec<T>, C), (RepoError, C)>) -> (r: Result<
    (T, C),
    (RepoError, C),
>)
    ensures
        res matches Err(p) ==> (r matches Err(q) && q == p),
        res matches Ok(p) ==> {
            if p.0@.len() == 0 {
                r matches Err(q) && q.0 == RepoError::Multiple(MultipleOperationError::NoData)
                    && q.1 == p.1
            } else if p.0@.len() == 1 {
                r matches Ok(q) && q.0 == p.0@[0] && q.1 == p.1
            } else {
                r matches Err(q) && q.0 == RepoError::Multiple(
                    MultipleOperationError::ExtraData { extra: ((p.0@.len() - 1) as u32) },
                ) && q.1 == p.1
            }
        },
{
    match res {
        Err(p) => Err(p),
        Ok((data, conn)) => {
            let mut data = data;
            if data.len() > 1 {
                let extra_count = data.len() - 1;
                #[verifier::truncate]
                let extra = extra_count as u32;
                Err((RepoError::Multiple(MultipleOperationError::ExtraData { extra }), conn))
            } else if data.len() == 0 {
                Err((RepoError::Multiple(MultipleOperationError::NoData), conn))
            } else {
                let v = data.remove(0);
                Ok((v, conn))
            }
        },
    }
}

/// A table-scoped repository over an entity type `T`, an insert payload
/// `I`, a filter `F` and an update payload `U`. It holds one authorization
/// engine per operation, checked against the payload before the statement
/// is built, and one engine checked against every returned row.
pub struct DbRepoImpl<T, I, F, U, AI, AS, AD, AU, AP> {
    pub table: &'static str,
    pub insert_acl_engine: AI,
    pub select_acl_engine: AS,
    pub delete_acl_engine: AD,
    pub update_acl_engine: AU,
    pub afterop_acl_engine: AP,
    pub entity: core::marker::PhantomData<(T, I, F, U)>,
}

/// A repository whose every engine allows everything.
pub type SuRepo<T, I, F, U> = DbRepoImpl<
    T,
    I,
    F,
    U,
    SystemACL,
    SystemACL,
    SystemACL,
    SystemACL,
    SystemACL,
>;

impl<T, I, F, U> SuRepo<T, I, F, U> {
    /// Creates a repository for `table` that allows every operation.
    pub fn new(table: &'static str) -> (r: Self)
        ensures
            r.table == table,
            r.insert_acl_engine == SystemACL,
            r.select_acl_engine == SystemACL,
            r.delete_acl_engine == SystemACL,
            r.update_acl_engine == SystemACL,
            r.afterop_acl_engine == SystemACL,
    {
        DbRepoImpl {
            table,
            insert_acl_engine: SystemACL,
            select_acl_engine: SystemACL,
            delete_acl_engine: SystemACL,
            update_acl_engine: SystemACL,
            afterop_acl_engine: SystemACL,
            entity: core::marker::PhantomData,
        }
    }
}

impl<T, I, F, U, AI, AS, AD, AU, AP> DbRepoImpl<T, I, F, U, AI, AS, AD, AU, AP> {
    /// Installs the engine checked against insert payloads.
    pub fn with_insert_acl_engine<AI2>(self, acl_engine: AI2) -> (r: DbRepoImpl<
        T,
        I,
        F,
        U,
        AI2,
        AS,
        AD,
        AU,
        AP,
    >)
        ensures
            r.table == self.table,
            r.insert_acl_engine == acl_engine,
            r.select_acl_engine == self.select_acl_engine,
            r.delete_acl_engine == self.delete_acl_engine,
            r.update_acl_engine == self.update_acl_engine,
            r.afterop_acl_engine == self.afterop_acl_engine,
    {
        let DbRepoImpl {
            table,
            insert_acl_engine: _,
            select_acl_engine,
            delete_acl_engine,
            update_acl_engine,
            afterop_acl_engine,
            entity,
        } = self;
        DbRepoImpl {
            table,
            insert_acl_engine: acl_engine,
            select_acl_engine,
            delete_acl_engine,
            update_acl_engine,
            afterop_acl_engine,
            entity,
        }
    }

    /// Installs the engine checked against select filters.
    pub fn with_select_acl_engine<AS2>(self, acl_engine: AS2) -> (r: DbRepoImpl<
        T,
        I,
        F,
        U,
        AI,
        AS2,
        AD,
        AU,
        AP,
    >)
        ensures
            r.table == self.table,
            r.insert_acl_engine == self.insert_acl_engine,
            r.select_acl_engine == acl_engine,
            r.delete_acl_engine == self.delete_acl_engine,
            r.update_acl_engine == self.update_acl_engine,
            r.afterop_acl_engine == self.afterop_acl_engine,
    {
        let DbRepoImpl {
            table,
            insert_acl_engine,
            select_acl_engine: _,
            delete_acl_engine,
            update_acl_engine,
            afterop_acl_engine,
            entity,
        } = self;
        DbRepoImpl {
            table,
            insert_acl_engine,
            select_acl_engine: acl_engine,
            delete_acl_engine,
            update_acl_engine,
            afterop_acl_engine,
            entity,
        }
    }

    /// Installs the engine checked against delete filters.
    pub fn with_delete_acl_engine<AD2>(self, acl_engine: AD2) -> (r: DbRepoImpl<
        T,
        I,
        F,
        U,
        AI,
        AS,
        AD2,
        AU,
        AP,
    >)
        ensures
            r.table == self.table,
            r.insert_acl_engine == self.insert_acl_engine,
            r.select_acl_engine == self.select_acl_engine,
            r.delete_acl_engine == acl_engine,
            r.update_acl_engine == self.update_acl_engine,
            r.afterop_acl_engine == self.afterop_acl_engine,
    {
        let DbRepoImpl {
            table,
            insert_acl_engine,
            select_acl_engine,
            delete_acl_engine: _,
            update_acl_engine,
            afterop_acl_engine,
            entity,
        } = self;
        DbRepoImpl {
            table,
            insert_acl_engine,
            select_acl_engine,
            delete_acl_engine: acl_engine,
            update_acl_engine,
            afterop_acl_engine,
            entity,
        }
    }

    /// Installs the engine checked against update payloads.
    pub fn with_update_acl_engine<AU2>(self, acl_engine: AU2) -> (r: DbRepoImpl<
        T,
        I,
        F,
        U,
        AI,
        AS,
        AD,
        AU2,
        AP,
    >)
        ensures
            r.table == self.table,
            r.insert_acl_engine == self.insert_acl_engine,
            r.select_acl_engine == self.select_acl_engine,
            r.delete_acl_engine == self.delete_acl_engine,
            r.update_acl_engine == acl_engine,
            r.afterop_acl_engine == self.afterop_acl_engine,
    {
        let DbRepoImpl {
            table,
            insert_acl_engine,
            select_acl_engine,
            delete_acl_engine,
            update_acl_engine: _,
            afterop_acl_engine,
            entity,
        } = self;
        DbRepoImpl {
            table,
            insert_acl_engine,
            select_acl_engine,
            delete_acl_engine,
            update_acl_engine: acl_engine,
            afterop_acl_engine,
            entity,
        }
    }

    /// Installs the engine checked against every returned row, tagged with
    /// the operation's action: the post-check that can say "a caller may
    /// only see their own rows".
    pub fn with_afterop_acl_engine<AP2>(self, acl_engine: AP2) -> (r: DbRepoImpl<
        T,
        I,
        F,
        U,
        AI,
        AS,
        AD,
        AU,
        AP2,
    >)
        ensures
            r.table == self.table,
            r.insert_acl_engine == self.insert_acl_engine,
            r.select_acl_engine == self.select_acl_engine,
            r.delete_acl_engine == self.delete_acl_engine,
            r.update_acl_engine == self.update_acl_engine,
            r.afterop_acl_engine == acl_engine,
    {
        let DbRepoImpl {
            table,
            insert_acl_engine,
            select_acl_engine,
            delete_acl_engine,
            update_acl_engine,
            afterop_acl_engine: _,
            entity,
        } = self;
        DbRepoImpl {
            table,
            insert_acl_engine,
            select_acl_engine,
            delete_acl_engine,
            update_acl_engine,
            afterop_acl_engine: acl_engine,
            entity,
        }
    }
}

impl<
    T: FromRow,
    I: Inserter,
    F: Filter,
    U: Updater,
    AI: AclEngine<I>,
    AS: AclEngine<F>,
    AD: AclEngine<F>,
    AU: AclEngine<U>,
    AP: AclEngine<(T, Action)>,
> DbRepoImpl<T, I, F, U, AI, AS, AD, AU, AP> {
    /// Checks the insert payload against its engine and renders the
    /// statement. A denied payload comes back with the error.
    pub fn insert_statement(&self, inserter: I) -> (r: Result<
        (String, Vec<SqlValue>),
        (RepoError, I),
    >)
        ensures
            self.insert_acl_engine.allows_spec(&inserter) ==> (r matches Ok(p) && p.0@
                == insert_sql(inserter.inserter_spec(self.table)) && p.1@ == vals_args(
                inserter.inserter_spec(self.table).values,
            )),
            !self.insert_acl_engine.allows_spec(&inserter) ==> (r matches Err(p) && p.0
                == RepoError::Unauthorized && p.1 == inserter),
    {
        match self.insert_acl_engine.ensure_access(inserter) {
            Ok(inserter) => {
                let b = inserter.into_insert_builder(self.table);
                Ok(b.build())
            },
            Err((_, inserter)) => Err((RepoError::Unauthorized, inserter)),
        }
    }

    /// Checks the select filter against its engine and renders the
    /// statement. A denied filter comes back with the error.
    pub fn select_statement(&self, filter: F) -> (r: Result<
        (String, Vec<SqlValue>),
        (RepoError, F),
    >)
        ensures
            self.select_acl_engine.allows_spec(&filter) ==> (r matches Ok(p) && p.0@
                == filtered_sql(
                FilteredOperation::Select { op: None, limit: None },
                filter.filter_spec(self.table),
            ) && p.1@ == where_args(flat_cmps(filter.filter_spec(self.table).filters))),
            !self.select_acl_engine.allows_spec(&filter) ==> (r matches Err(p) && p.0
                == RepoError::Unauthorized && p.1 == filter),
    {
        match self.select_acl_engine.ensure_access(filter) {
            Ok(filter) => {
                let b = filter.into_filtered_operation_builder(self.table);
                Ok(b.build(FilteredOperation::Select { op: None, limit: None }))
            },
            Err((_, filter)) => Err((RepoError::Unauthorized, filter)),
        }
    }

    /// Checks the delete filter against its engine and renders the
    /// statement. A denied filter comes back with the error.
    pub fn delete_statement(&self, filter: F) -> (r: Result<
        (String, Vec<SqlValue>),
        (RepoError, F),
    >)
        ensures
            self.delete_acl_engine.allows_spec(&filter) ==> (r matches Ok(p) && p.0@
                == filtered_sql(FilteredOperation::Delete, filter.filter_spec(self.table)) && p.1@
                == where_args(flat_cmps(filter.filter_spec(self.table).filters))),
            !self.delete_acl_engine.allows_spec(&filter) ==> (r matches Err(p) && p.0
                == RepoError::Unauthorized && p.1 == filter),
    {
        match self.delete_acl_engine.ensure_access(filter) {
            Ok(filter) => {
                let b = filter.into_filtered_operation_builder(self.table);
                Ok(b.build(FilteredOperation::Delete))
            },
            Err((_, filter)) => Err((RepoError::Unauthorized, filter)),
        }
    }

    /// Checks the update payload against its engine and renders the
    /// statement: an update, or the select it degrades to when the payload
    /// sets no value. A denied payload comes back with the error.
    pub fn update_statement(&self, updater: U) -> (r: Result<
        (String, Vec<SqlValue>),
        (RepoError, U),
    >)
        requires
            updater.updater_ok(),
        ensures
            self.update_acl_engine.allows_spec(&updater) ==> (r matches Ok(p) && {
                let uv = updater.updater_spec(self.table);
                if uv.values.len() == 0 {
                    p.0@ == filtered_sql(
                        FilteredOperation::Select { op: None, limit: None },
                        uv.filters,
                    ) && p.1@ == where_args(flat_cmps(uv.filters.filters))
                } else {
                    p.0@ == update_sql(uv) && p.1@ == vals_args(uv.values) + where_args(
                        flat_cmps(uv.filters.filters),
                    )
                }
            }),
            !self.update_acl_engine.allows_spec(&updater) ==> (r matches Err(p) && p.0
                == RepoError::Unauthorized && p.1 == updater),
    {
        match self.update_acl_engine.ensure_access(updater) {
            Ok(updater) => {
                let b = updater.into_update_builder(self.table);
                Ok(b.build())
            },
            Err((_, updater)) => Err((RepoError::Unauthorized, updater)),
        }
    }

    /// Finishes an operation from whatever the driver handed back: maps
    /// every row to an entity, checks each entity against the per-row
    /// engine tagged with `action`, and annotates driver failures with the
    /// statement and its arguments. The connection given here is returned
    /// with every outcome, success or failure.
    pub fn complete<C>(
        &self,
        conn: C,
        action: Action,
        statement: &String,
        args: &Vec<SqlValue>,
        outcome: DbOutcome,
    ) -> (r: Result<(Vec<T>, C), (RepoError, C)>)
        ensures
            r matches Ok(p) ==> p.1 == conn,
            r matches Err(p) ==> p.1 == conn,
            outcome matches DbOutcome::Rows(rows) ==> {
                if !rows_ok::<T>(rows@) {
                    r matches Err(p) && p.0 == RepoError::Mapping
                } else if !all_allowed(
                    &self.afterop_acl_engine,
                    mapped_rows::<T>(rows@),
                    action,
                ) {
                    r matches Err(p) && p.0 == RepoError::Unauthorized
                } else {
                    r matches Ok(p) && p.0@ == mapped_rows::<T>(rows@)
                }
            },
            outcome matches DbOutcome::PrepareFailed(m) ==> (r matches Err(p) && p.0 matches
                RepoError::Prepare { message, context } && message == m && context@
                == query_debug_text(statement@, args@)),
            outcome matches DbOutcome::QueryFailed(m) ==> (r matches Err(p) && p.0 matches
                RepoError::Query { message, context } && message == m && context@
                == query_debug_text(statement@, args@)),
    {
        match outcome {
            DbOutcome::Rows(rows) => {
                match map_rows::<T>(rows) {
                    Err(()) => Err((RepoError::Mapping, conn)),
                    Ok(entities) => {
                        let (ok, entities) = check_rows(
                            &self.afterop_acl_engine,
                            entities,
                            action,
                        );
                        if ok {
                            Ok((entities, conn))
                        } else {
                            Err((RepoError::Unauthorized, conn))
                        }
                    },
                }
            },
            DbOutcome::PrepareFailed(message) => {
                let context = query_debug(statement.as_str(), args);
                Err((RepoError::Prepare { message, context }, conn))
            },
            DbOutcome::QueryFailed(message) => {
                let context = query_debug(statement.as_str(), args);
                Err((RepoError::Query { message, context }, conn))
            },
        }
    }

    /// Inserts one row built from the payload and returns the created
    /// entities. The payload is checked before the statement is built and
    /// every returned row is checked after; the connection comes back with
    /// every outcome.
    pub fn insert<C: DbConn>(&self, conn: C, inserter: I) -> (r: Result<
        (Vec<T>, C),
        (RepoError, C),
    >)
        ensures
            !self.insert_acl_engine.allows_spec(&inserter) ==> (r matches Err(p) && p.0
                == RepoError::Unauthorized && p.1 == conn),
            r matches Ok(p) ==> self.insert_acl_engine.allows_spec(&inserter) && all_allowed(
                &self.afterop_acl_engine,
                p.0@,
                Action::Insert,
            ),
    {
        match self.insert_statement(inserter) {
            Err((e, _)) => Err((e, conn)),
            Ok((q, a)) => {
                let mut conn = conn;
                let outcome = conn.run_statement(&q, &a);
                self.complete(conn, Action::Insert, &q, &a, outcome)
            },
        }
    }

    /// Selects the entities the filter describes. The filter is checked
    /// before the statement is built and every returned row is checked
    /// after; the connection comes back with every outcome.
    pub fn select<C: DbConn>(&self, conn: C, filter: F) -> (r: Result<
        (Vec<T>, C),
        (RepoError, C),
    >)
        ensures
            !self.select_acl_engine.allows_spec(&filter) ==> (r matches Err(p) && p.0
                == RepoError::Unauthorized && p.1 == conn),
            r matches Ok(p) ==> self.select_acl_engine.allows_spec(&filter) && all_allowed(
                &self.afterop_acl_engine,
                p.0@,
                Action::Select,
            ),
    {
        match self.select_statement(filter) {
            Err((e, _)) => Err((e, conn)),
            Ok((q, a)) => {
                let mut conn = conn;
                let outcome = conn.run_statement(&q, &a);
                self.complete(conn, Action::Select, &q, &a, outcome)
            },
        }
    }

    /// Updates the rows the payload describes and returns the changed
    /// entities, or performs the select the payload degrades to. The
    /// payload is checked before the statement is built and every returned
    /// row is checked after; the connection comes back with every outcome.
    pub fn update<C: DbConn>(&self, conn: C, updater: U) -> (r: Result<
        (Vec<T>, C),
        (RepoError, C),
    >)
        requires
            updater.updater_ok(),
        ensures
            !self.update_acl_engine.allows_spec(&updater) ==> (r matches Err(p) && p.0
                == RepoError::Unauthorized && p.1 == conn),
            r matches Ok(p) ==> self.update_acl_engine.allows_spec(&updater) && all_allowed(
                &self.afterop_acl_engine,
                p.0@,
                Action::Update,
            ),
    {
        match self.update_statement(updater) {
            Err((e, _)) => Err((e, conn)),
            Ok((q, a)) => {
                let mut conn = conn;
                let outcome = conn.run_statement(&q, &a);
                self.complete(conn, Action::Update, &q, &a, outcome)
            },
        }
    }

    /// Deletes the rows the filter describes and returns the removed
    /// entities. The filter is checked before the statement is built and
    /// every returned row is checked after; the connection comes back with
    /// every outcome.
    pub fn delete<C: DbConn>(&self, conn: C, filter: F) -> (r: Result<
        (Vec<T>, C),
        (RepoError, C),
    >)
        ensures
            !self.delete_acl_engine.allows_spec(&filter) ==> (r matches Err(p) && p.0
                == RepoError::Unauthorized && p.1 == conn),
            r matches Ok(p) ==> self.delete_acl_engine.allows_spec(&filter) && all_allowed(
                &self.afterop_acl_engine,
                p.0@,
                Action::Delete,
            ),
    {
        match self.delete_statement(filter) {
            Err((e, _)) => Err((e, conn)),
            Ok((q, a)) => {
                let mut conn = conn;
                let outcome = conn.run_statement(&q, &a);
                self.complete(conn, Action::Delete, &q, &a, outcome)
            },
        }
    }

    /// Inserts and requires that exactly one entity came back.
    pub fn insert_exactly_one<C: DbConn>(&self, conn: C, inserter: I) -> (r: Result<
        (T, C),
        (RepoError, C),
    >)
        ensures
            !self.insert_acl_engine.allows_spec(&inserter) ==> (r matches Err(p) && p.0
                == RepoError::Unauthorized && p.1 == conn),
            r matches Ok(p) ==> self.insert_acl_engine.allows_spec(&inserter)
                && self.afterop_acl_engine.allows_spec(&(p.0, Action::Insert)),
    {
        exactly_one(self.insert(conn, inserter))
    }

    /// Selects and requires that exactly one entity came back.
    pub fn select_exactly_one<C: DbConn>(&self, conn: C, filter: F) -> (r: Result<
        (T, C),
        (RepoError, C),
    >)
        ensures
            !self.select_acl_engine.allows_spec(&filter) ==> (r matches Err(p) && p.0
                == RepoError::Unauthorized && p.1 == conn),
            r matches Ok(p) ==> self.select_acl_engine.allows_spec(&filter)
                && self.afterop_acl_engine.allows_spec(&(p.0, Action::Select)),
    {
        exactly_one(self.select(conn, filter))
    }

    /// Updates and requires that exactly one entity came back.
    pub fn update_exactly_one<C: DbConn>(&self, conn: C, updater: U) -> (r: Result<
        (T, C),
        (RepoError, C),
    >)
        requires
            updater.updater_ok(),
        ensures
            !self.update_acl_engine.allows_spec(&updater) ==> (r matches Err(p) && p.0
                == RepoError::Unauthorized && p.1 == conn),
            r matches Ok(p) ==> self.update_acl_engine.allows_spec(&updater)
                && self.afterop_acl_engine.allows_spec(&(p.0, Action::Update)),
    {
        exactly_one(self.update(conn, updater))
    }

    /// Deletes and requires that exactly one entity came back.
    pub fn delete_exactly_one<C: DbConn>(&self, conn: C, filter: F) -> (r: Result<
        (T, C),
        (RepoError, C),
    >)
        ensures
            !self.delete_acl_engine.allows_spec(&filter) ==> (r matches Err(p) && p.0
                == RepoError::Unauthorized && p.1 == conn),
            r matches Ok(p) ==> self.delete_acl_engine.allows_spec(&filter)
                && self.afterop_acl_engine.allows_spec(&(p.0, Action::Delete)),
    {
        exactly_one(self.delete(conn, filter))
    }
}

/// The first value stored under a column of the given name, by the bytes
/// of the name.
pub open spec fn lookup(cols: Seq<(String, SqlValue)>, name: &str) -> Option<SqlValue>
    decreases cols.len(),
{
    if cols.len() == 0 {
        None
    } else if cols[0].0@ == name@ {
        Some(cols[0].1)
    } else {
        lookup(cols.skip(1), name)
    }
}

fn lookup_from<'a>(cols: &'a Vec<(String, SqlValue)>, name: &str, i: usize) -> (r: Option<
    &'a SqlValue,
>)
    requires
        i <= cols@.len(),
    ensures
        match lookup(cols@.skip(i as int), name) {
            Some(v) => r matches Some(rv) && *rv == v,
            None => r is None,
        },
    decreases cols@.len() - i,
{
    if i == cols.len() {
        proof {
            assert(cols@.skip(i as int).len() == 0);
        }
        None
    } else {
        proof {
            assert(cols@.skip(i as int)[0] == cols@[i as int]);
            assert(cols@.skip(i as int).skip(1) =~= cols@.skip(i as int + 1));
        }
        if cols[i].0 == name.to_owned() {
            Some(&cols[i].1)
        } else {
            lookup_from(cols, name, i + 1)
        }
    }
}

impl DbRow {
    /// Looks up the first value stored under `name`.
    pub fn get<'a>(&'a self, name: &str) -> (r: Option<&'a SqlValue>)
        ensures
            match lookup(self.columns@, name) {
                Some(v) => r matches Some(rv) && *rv == v,
                None => r is None,
            },
    {
        let r = lookup_from(&self.columns, name, 0);
        proof {
            assert(self.columns@.skip(0) =~= self.columns@);
        }
        r
    }
}

} // verus!
