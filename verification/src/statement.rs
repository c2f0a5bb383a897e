//! The statement builder: turns typed filter and value registrations into
//! parameterized SQL text plus a positional argument list.
//!
//! Every builder renders deterministically: the generated text and argument
//! order are functions of the registered state alone, columns appear in
//! lexicographic order (by the bytes of their names), and argument `i` of the
//! result always binds to placeholder `$i`.

use vstd::prelude::*;

verus! {

use vstd::string::StringSliceAdditionalSpecFns;
use crate::text::{dec_char, dec_str, int_dec_str, lex_lt, u128_dec, i32_dec};
use crate::text::{lemma_lex_asym, lemma_lex_connected, lemma_lex_irrefl, lemma_lex_trans,
    str_bytes_eq, str_lex_lt};

/// A value that can be bound to a statement placeholder: a closed set of
/// scalar shapes in place of an open "anything the driver can bind" box.
#[derive(Debug, Clone)]
pub enum SqlValue {
    Int(i64),
    Text(String),
    Bool(bool),
    Uuid(u128),
}

impl PartialEq for SqlValue {
    fn eq(&self, other: &SqlValue) -> (r: bool) {
        match (self, other) {
            (SqlValue::Int(a), SqlValue::Int(b)) => a == b,
            (SqlValue::Text(a), SqlValue::Text(b)) => *a == *b,
            (SqlValue::Bool(a), SqlValue::Bool(b)) => a == b,
            (SqlValue::Uuid(a), SqlValue::Uuid(b)) => a == b,
            _ => false,
        }
    }
}

impl vstd::std_specs::cmp::PartialEqSpecImpl for SqlValue {
    open spec fn obeys_eq_spec() -> bool {
        true
    }

    open spec fn eq_spec(&self, other: &SqlValue) -> bool {
        match (self, other) {
            (SqlValue::Int(a), SqlValue::Int(b)) => a == b,
            (SqlValue::Text(a), SqlValue::Text(b)) => a@ == b@,
            (SqlValue::Bool(a), SqlValue::Bool(b)) => a == b,
            (SqlValue::Uuid(a), SqlValue::Uuid(b)) => a == b,
            _ => false,
        }
    }
}

/// A comparison operator usable in a WHERE clause.
#[derive(Clone, Copy, Debug, PartialEq, Eq, Structural, Hash)]
pub enum ComparisonMode {
    LT,
    LTE,
    EQ,
    GTE,
    GT,
}

impl ComparisonMode {
    /// The SQL spelling of this operator.
    pub open spec fn sql_spec(self) -> Seq<char> {
        match self {
            ComparisonMode::LT => "<"@,
            ComparisonMode::LTE => "<="@,
            ComparisonMode::EQ => "="@,
            ComparisonMode::GTE => ">="@,
            ComparisonMode::GT => ">"@,
        }
    }

    /// Renders this operator as SQL.
    pub fn to_sql(&self) -> (r: &'static str)
        ensures
            r@ == self.sql_spec(),
    {
        match self {
            ComparisonMode::LT => "<",
            ComparisonMode::LTE => "<=",
            ComparisonMode::EQ => "=",
            ComparisonMode::GTE => ">=",
            ComparisonMode::GT => ">",
        }
    }
}

/// An aggregate to select instead of the plain rows.
#[derive(Clone, Copy, Debug, PartialEq, Eq, Structural)]
pub enum SelectOperation {
    Count,
}

impl SelectOperation {
    /// The SQL spelling of this aggregate.
    pub open spec fn sql_spec(self) -> Seq<char> {
        match self {
            SelectOperation::Count => "count"@,
        }
    }

    /// Renders this aggregate as SQL.
    pub fn to_sql(&self) -> (r: &'static str)
        ensures
            r@ == self.sql_spec(),
    {
        match self {
            SelectOperation::Count => "count",
        }
    }
}

/// The operation a filtered statement performs.
#[derive(Clone, Copy, Debug, PartialEq, Eq, Structural)]
pub enum FilteredOperation {
    Select { op: Option<SelectOperation>, limit: Option<i32> },
    Delete,
}

/// One endpoint of a range, inclusive or exclusive.
#[derive(Clone, Debug)]
pub struct RangeLimit {
    pub value: SqlValue,
    pub inclusive: bool,
}

/// A range of values to filter a column by. Each endpoint is independently
/// inclusive or exclusive.
#[derive(Clone, Debug)]
pub enum Range {
    Exact(SqlValue),
    From(RangeLimit),
    To(RangeLimit),
    Between(RangeLimit, RangeLimit),
}

impl Range {
    /// The comparisons this range contributes for one column: the operator
    /// of each endpoint follows its inclusivity flag.
    pub open spec fn items_spec(self) -> Seq<(ComparisonMode, SqlValue)> {
        match self {
            Range::Exact(v) => seq![(ComparisonMode::EQ, v)],
            Range::From(from) => seq![
                (if from.inclusive { ComparisonMode::GTE } else { ComparisonMode::GT }, from.value),
            ],
            Range::To(to) => seq![
                (if to.inclusive { ComparisonMode::LTE } else { ComparisonMode::LT }, to.value),
            ],
            Range::Between(from, to) => seq![
                (if from.inclusive { ComparisonMode::GTE } else { ComparisonMode::GT }, from.value),
                (if to.inclusive { ComparisonMode::LTE } else { ComparisonMode::LT }, to.value),
            ],
        }
    }

    /// Turns this range into the comparisons it stands for.
    pub fn into_items(self) -> (r: Vec<(ComparisonMode, SqlValue)>)
        ensures
            r@ == self.items_spec(),
    {
        let mut r: Vec<(ComparisonMode, SqlValue)> = Vec::new();
        match self {
            Range::Exact(v) => {
                r.push((ComparisonMode::EQ, v));
            }
            Range::From(from) => {
                let mode = if from.inclusive {
                    ComparisonMode::GTE
                } else {
                    ComparisonMode::GT
                };
                r.push((mode, from.value));
            }
            Range::To(to) => {
                let mode = if to.inclusive {
                    ComparisonMode::LTE
                } else {
                    ComparisonMode::LT
                };
                r.push((mode, to.value));
            }
            Range::Between(from, to) => {
                let from_mode = if from.inclusive {
                    ComparisonMode::GTE
                } else {
                    ComparisonMode::GT
                };
                r.push((from_mode, from.value));
                let to_mode = if to.inclusive {
                    ComparisonMode::LTE
                } else {
                    ComparisonMode::LT
                };
                r.push((to_mode, to.value));
            }
        }
        r
    }
}

/// The comparisons registered for one column, in registration order.
pub struct ColumnFilter {
    pub column: &'static str,
    pub items: Vec<(ComparisonMode, SqlValue)>,
}

/// The ghost shape of one registered column: its name and its comparisons.
pub type FilterEntryV = (&'static str, Seq<(ComparisonMode, SqlValue)>);

/// The ghost shape of a whole filter set.
pub open spec fn filters_view(fs: Seq<ColumnFilter>) -> Seq<FilterEntryV> {
    fs.map_values(|e: ColumnFilter| (e.column, e.items@))
}

/// One rendered comparison: a column, an operator, and the value bound to
/// the comparison's placeholder.
pub struct Comparison {
    pub column: &'static str,
    pub mode: ComparisonMode,
    pub value: SqlValue,
}

/// The comparisons of one column entry, in order.
pub open spec fn entry_cmps(e: FilterEntryV) -> Seq<Comparison> {
    Seq::new(e.1.len(), |i: int| Comparison { column: e.0, mode: e.1[i].0, value: e.1[i].1 })
}

/// All comparisons of a filter set, column by column.
pub open spec fn flat_cmps(fs: Seq<FilterEntryV>) -> Seq<Comparison>
    decreases fs.len(),
{
    if fs.len() == 0 {
        Seq::empty()
    } else {
        entry_cmps(fs[0]) + flat_cmps(fs.skip(1))
    }
}

/// The values of a comparison list, in placeholder order.
pub open spec fn where_args(cs: Seq<Comparison>) -> Seq<SqlValue> {
    cs.map_values(|c: Comparison| c.value)
}

/// The text of one comparison, bound to placeholder `$idx`.
pub open spec fn cmp_text(c: Comparison, idx: int) -> Seq<char> {
    c.column@ + " "@ + c.mode.sql_spec() + " $"@ + int_dec_str(idx)
}

/// The text of comparisons after the first, each preceded by `AND`, with
/// placeholder numbers counting on from `idx`.
pub open spec fn where_tail(cs: Seq<Comparison>, idx: int) -> Seq<char>
    decreases cs.len(),
{
    if cs.len() == 0 {
        Seq::empty()
    } else {
        " AND "@ + cmp_text(cs[0], idx) + where_tail(cs.skip(1), idx + 1)
    }
}

/// The text of a whole comparison list, placeholders numbered from `idx`.
pub open spec fn where_text(cs: Seq<Comparison>, idx: int) -> Seq<char> {
    if cs.len() == 0 {
        Seq::empty()
    } else {
        cmp_text(cs[0], idx) + where_tail(cs.skip(1), idx + 1)
    }
}

/// Flattens one column entry into its comparisons.
fn entry_vec(column: &'static str, items: Vec<(ComparisonMode, SqlValue)>) -> (r: Vec<
    Comparison,
>)
    ensures
        r@ == entry_cmps((column, items@)),
    decreases items@.len(),
{
    let mut items = items;
    if items.is_empty() {
        let r: Vec<Comparison> = Vec::new();
        proof {
            assert(r@ =~= entry_cmps((column, items@)));
        }
        r
    } else {
        let ghost items0 = items@;
        let (mode, value) = items.remove(0);
        let mut r: Vec<Comparison> = Vec::new();
        r.push(Comparison { column, mode, value });
        let mut rest = entry_vec(column, items);
        r.append(&mut rest);
        proof {
            assert(items0.remove(0) =~= items0.skip(1));
            assert(r@ =~= entry_cmps((column, items0)));
        }
        r
    }
}

/// Flattens a filter set into its comparisons, column by column.
fn flatten(fs: Vec<ColumnFilter>) -> (r: Vec<Comparison>)
    ensures
        r@ == flat_cmps(filters_view(fs@)),
    decreases fs@.len(),
{
    let mut fs = fs;
    if fs.is_empty() {
        let r: Vec<Comparison> = Vec::new();
        proof {
            assert(filters_view(fs@) =~= Seq::<FilterEntryV>::empty());
            assert(r@ =~= flat_cmps(filters_view(fs@)));
        }
        r
    } else {
        let ghost fs0 = fs@;
        let e = fs.remove(0);
        proof {
            assert(fs@ =~= fs0.skip(1));
            assert(filters_view(fs0).skip(1) =~= filters_view(fs0.skip(1)));
            assert(filters_view(fs0)[0] == (e.column, e.items@));
        }
        let ColumnFilter { column, items } = e;
        let mut r = entry_vec(column, items);
        let mut rest = flatten(fs);
        r.append(&mut rest);
        proof {
            assert(r@ =~= flat_cmps(filters_view(fs0)));
        }
        r
    }
}

/// Renders comparisons after the first one: each preceded by `AND`, with
/// placeholder numbers counting on from `idx`. Returns the text and the
/// values in placeholder order.
fn render_where_tail(cs: Vec<Comparison>, idx: u128) -> (r: (String, Vec<SqlValue>))
    requires
        idx + cs@.len() <= u128::MAX,
        idx >= 1,
    ensures
        r.0@ == where_tail(cs@, idx as int),
        r.1@ == where_args(cs@),
    decreases cs@.len(),
{
    let mut cs = cs;
    if cs.is_empty() {
        let r = (String::new(), Vec::<SqlValue>::new());
        proof {
            assert(r.1@ =~= where_args(cs@));
        }
        r
    } else {
        let ghost cs0 = cs@;
        let c = cs.remove(0);
        proof {
            assert(cs@ =~= cs0.skip(1));
        }
        let mut s = String::from_str(" AND ");
        s.append(c.column);
        s.append(" ");
        s.append(c.mode.to_sql());
        s.append(" $");
        let d = u128_dec(idx);
        s.append(d.as_str());
        let (tail, mut tail_args) = render_where_tail(cs, idx + 1);
        s.append(tail.as_str());
        let mut args: Vec<SqlValue> = Vec::new();
        args.push(c.value);
        args.append(&mut tail_args);
        proof {
            assert(s@ =~= where_tail(cs0, idx as int));
            assert(args@ =~= where_args(cs0));
        }
        (s, args)
    }
}

/// Renders a whole comparison list, placeholders numbered from `idx`.
fn render_where(cs: Vec<Comparison>, idx: u128) -> (r: (String, Vec<SqlValue>))
    requires
        idx + cs@.len() <= u128::MAX,
        idx >= 1,
    ensures
        r.0@ == where_text(cs@, idx as int),
        r.1@ == where_args(cs@),
{
    let mut cs = cs;
    if cs.is_empty() {
        let r = (String::new(), Vec::<SqlValue>::new());
        proof {
            assert(r.1@ =~= where_args(cs@));
        }
        r
    } else {
        let ghost cs0 = cs@;
        let c = cs.remove(0);
        proof {
            assert(cs@ =~= cs0.skip(1));
        }
        let mut s = c.column.to_owned();
        s.append(" ");
        s.append(c.mode.to_sql());
        s.append(" $");
        let d = u128_dec(idx);
        s.append(d.as_str());
        let (tail, mut tail_args) = render_where_tail(cs, idx + 1);
        s.append(tail.as_str());
        let mut args: Vec<SqlValue> = Vec::new();
        args.push(c.value);
        args.append(&mut tail_args);
        proof {
            assert(s@ =~= where_text(cs0, idx as int));
            assert(args@ =~= where_args(cs0));
        }
        (s, args)
    }
}

/// The head of a filtered statement.
pub open spec fn select_head(op: Option<SelectOperation>) -> Seq<char> {
    match op {
        None => "SELECT *"@,
        Some(o) => "SELECT "@ + o.sql_spec() + "(*)"@,
    }
}

/// The head of a filtered statement, by operation.
pub open spec fn op_head(op: FilteredOperation) -> Seq<char> {
    match op {
        FilteredOperation::Select { op, .. } => select_head(op),
        FilteredOperation::Delete => "DELETE"@,
    }
}

/// The WHERE clause of a filter set, or nothing when no comparison was
/// registered.
pub open spec fn where_part(fs: Seq<FilterEntryV>, idx: int) -> Seq<char> {
    if flat_cmps(fs).len() == 0 {
        Seq::empty()
    } else {
        " WHERE "@ + where_text(flat_cmps(fs), idx)
    }
}

/// The literal extra fragment, preceded by a space when present.
pub open spec fn extra_part(extra: &'static str) -> Seq<char> {
    if extra@.len() == 0 {
        Seq::empty()
    } else {
        " "@ + extra@
    }
}

/// The LIMIT clause, when a limit was registered.
pub open spec fn limit_part(limit: Option<i32>) -> Seq<char> {
    match limit {
        None => Seq::empty(),
        Some(v) => " LIMIT "@ + int_dec_str(v as int),
    }
}

/// The limit that takes effect: the one carried by the operation wins over
/// the one registered on the builder.
pub open spec fn effective_limit(op_limit: Option<i32>, builder_limit: Option<i32>) -> Option<
    i32,
> {
    match op_limit {
        Some(v) => Some(v),
        None => builder_limit,
    }
}

/// The tail of a filtered statement: deletes return the removed rows,
/// selects append their limit.
pub open spec fn op_tail(op: FilteredOperation, builder_limit: Option<i32>) -> Seq<char> {
    match op {
        FilteredOperation::Delete => " RETURNING *"@,
        FilteredOperation::Select { limit, .. } => limit_part(effective_limit(limit, builder_limit)),
    }
}

/// The ghost shape of a select or delete builder.
pub struct FilteredOperationBuilderView {
    pub table: &'static str,
    pub extra: &'static str,
    pub filters: Seq<FilterEntryV>,
    pub limit: Option<i32>,
}

/// The whole text of a filtered statement: head, table, WHERE clause with
/// placeholders numbered from one, the extra fragment, and the tail.
pub open spec fn filtered_sql(op: FilteredOperation, v: FilteredOperationBuilderView) -> Seq<
    char,
> {
    op_head(op) + " FROM "@ + v.table@ + where_part(v.filters, 1) + extra_part(v.extra) + op_tail(
        op,
        v.limit,
    ) + ";"@
}

/// Registers `items` for `column` in a filter set kept sorted by column
/// name: an existing entry for the column accumulates the new comparisons,
/// a new entry is placed at its ordered position.
pub open spec fn insert_filter(
    fs: Seq<FilterEntryV>,
    column: &'static str,
    items: Seq<(ComparisonMode, SqlValue)>,
) -> Seq<FilterEntryV>
    decreases fs.len(),
{
    if fs.len() == 0 {
        seq![(column, items)]
    } else if fs[0].0.spec_bytes() == column.spec_bytes() {
        seq![(fs[0].0, fs[0].1 + items)] + fs.skip(1)
    } else if lex_lt(column.spec_bytes(), fs[0].0.spec_bytes()) {
        seq![(column, items)] + fs
    } else {
        seq![fs[0]] + insert_filter(fs.skip(1), column, items)
    }
}

/// A filter set is well formed when its columns are strictly sorted.
pub open spec fn sorted_filters(fs: Seq<FilterEntryV>) -> bool {
    forall|i: int, j: int|
        0 <= i < j < fs.len() ==> lex_lt(
            (#[trigger] fs[i]).0.spec_bytes(),
            (#[trigger] fs[j]).0.spec_bytes(),
        )
}

/// Every column of the registered set is the new column or one already
/// present.
pub proof fn lemma_insert_filter_keys(
    fs: Seq<FilterEntryV>,
    column: &'static str,
    items: Seq<(ComparisonMode, SqlValue)>,
)
    ensures
        forall|i: int|
            0 <= i < insert_filter(fs, column, items).len() ==> (#[trigger] insert_filter(
                fs,
                column,
                items,
            )[i]).0.spec_bytes() == column.spec_bytes() || exists|j: int|
                0 <= j < fs.len() && fs[j].0 == insert_filter(fs, column, items)[i].0,
    decreases fs.len(),
{
    let r = insert_filter(fs, column, items);
    if fs.len() == 0 {
    } else if fs[0].0.spec_bytes() == column.spec_bytes() {
        assert forall|i: int| 0 <= i < r.len() implies (#[trigger] r[i]).0.spec_bytes()
            == column.spec_bytes() || exists|j: int| 0 <= j < fs.len() && fs[j].0 == r[i].0 by {
            if i > 0 {
                assert(r[i].0 == fs[i].0);
            }
        }
    } else if lex_lt(column.spec_bytes(), fs[0].0.spec_bytes()) {
        assert forall|i: int| 0 <= i < r.len() implies (#[trigger] r[i]).0.spec_bytes()
            == column.spec_bytes() || exists|j: int| 0 <= j < fs.len() && fs[j].0 == r[i].0 by {
            if i > 0 {
                assert(r[i].0 == fs[i - 1].0);
            }
        }
    } else {
        lemma_insert_filter_keys(fs.skip(1), column, items);
        let rr = insert_filter(fs.skip(1), column, items);
        assert forall|i: int| 0 <= i < r.len() implies (#[trigger] r[i]).0.spec_bytes()
            == column.spec_bytes() || exists|j: int| 0 <= j < fs.len() && fs[j].0 == r[i].0 by {
            if i == 0 {
                assert(fs[0].0 == r[0].0);
            } else {
                assert(r[i].0 == rr[i - 1].0);
                if rr[i - 1].0.spec_bytes() != column.spec_bytes() {
                    let j = choose|j: int| 0 <= j < fs.skip(1).len() && fs.skip(1)[j].0 == rr[i
                        - 1].0;
                    assert(fs[j + 1].0 == rr[i - 1].0);
                }
            }
        }
    }
}

/// Registration keeps a sorted filter set sorted.
pub proof fn lemma_insert_filter_sorted(
    fs: Seq<FilterEntryV>,
    column: &'static str,
    items: Seq<(ComparisonMode, SqlValue)>,
)
    requires
        sorted_filters(fs),
    ensures
        sorted_filters(insert_filter(fs, column, items)),
    decreases fs.len(),
{
    let r = insert_filter(fs, column, items);
    if fs.len() == 0 {
    } else if fs[0].0.spec_bytes() == column.spec_bytes() {
        assert forall|i: int, j: int| 0 <= i < j < r.len() implies lex_lt(
            (#[trigger] r[i]).0.spec_bytes(),
            (#[trigger] r[j]).0.spec_bytes(),
        ) by {
            assert(r[i].0 == fs[i].0);
            assert(r[j].0 == fs[j].0);
        }
    } else if lex_lt(column.spec_bytes(), fs[0].0.spec_bytes()) {
        assert forall|i: int, j: int| 0 <= i < j < r.len() implies lex_lt(
            (#[trigger] r[i]).0.spec_bytes(),
            (#[trigger] r[j]).0.spec_bytes(),
        ) by {
            if i == 0 {
                if j == 1 {
                } else {
                    lemma_lex_trans(
                        column.spec_bytes(),
                        fs[0].0.spec_bytes(),
                        fs[j - 1].0.spec_bytes(),
                    );
                }
            } else {
                assert(r[i].0 == fs[i - 1].0);
                assert(r[j].0 == fs[j - 1].0);
            }
        }
    } else {
        assert(sorted_filters(fs.skip(1))) by {
            assert(forall|i: int|
                0 <= i < fs.skip(1).len() ==> #[trigger] fs.skip(1)[i] == fs[i + 1]);
        }
        lemma_insert_filter_sorted(fs.skip(1), column, items);
        lemma_insert_filter_keys(fs.skip(1), column, items);
        let rr = insert_filter(fs.skip(1), column, items);
        lemma_lex_connected(fs[0].0.spec_bytes(), column.spec_bytes());
        assert(lex_lt(fs[0].0.spec_bytes(), column.spec_bytes()));
        assert forall|i: int, j: int| 0 <= i < j < r.len() implies lex_lt(
            (#[trigger] r[i]).0.spec_bytes(),
            (#[trigger] r[j]).0.spec_bytes(),
        ) by {
            if i == 0 {
                assert(r[j].0 == rr[j - 1].0);
                if rr[j - 1].0.spec_bytes() == column.spec_bytes() {
                } else {
                    let k = choose|k: int| 0 <= k < fs.skip(1).len() && fs.skip(1)[k].0 == rr[j
                        - 1].0;
                    assert(fs[k + 1].0 == rr[j - 1].0);
                    assert(lex_lt(fs[0].0.spec_bytes(), fs[k + 1].0.spec_bytes()));
                }
            } else {
                assert(r[i].0 == rr[i - 1].0);
                assert(r[j].0 == rr[j - 1].0);
            }
        }
    }
}

/// Construct a select or delete statement over one table.
pub struct FilteredOperationBuilder {
    pub table: &'static str,
    pub extra: &'static str,
    pub filters: Vec<ColumnFilter>,
    pub limit: Option<i32>,
}

impl View for FilteredOperationBuilder {
    type V = FilteredOperationBuilderView;

    open spec fn view(&self) -> FilteredOperationBuilderView {
        FilteredOperationBuilderView {
            table: self.table,
            extra: self.extra,
            filters: filters_view(self.filters@),
            limit: self.limit,
        }
    }
}

/// Registers `items` for `column`, keeping entries sorted by column name.
fn insert_filter_vec(
    fs: Vec<ColumnFilter>,
    column: &'static str,
    items: Vec<(ComparisonMode, SqlValue)>,
) -> (r: Vec<ColumnFilter>)
    ensures
        filters_view(r@) == insert_filter(filters_view(fs@), column, items@),
    decreases fs@.len(),
{
    let mut fs = fs;
    if fs.is_empty() {
        fs.push(ColumnFilter { column, items });
        proof {
            assert(filters_view(fs@) =~= insert_filter(
                filters_view(Seq::<ColumnFilter>::empty()),
                column,
                items@,
            ));
        }
        fs
    } else {
        let ghost fs0 = fs@;
        proof {
            assert(filters_view(fs0)[0] == (fs0[0].column, fs0[0].items@));
        }
        let head_column = fs[0].column;
        if str_bytes_eq(column, head_column) {
            let ghost items0 = items@;
            let mut e = fs.remove(0);
            let mut items = items;
            e.items.append(&mut items);
            fs.insert(0, e);
            proof {
                assert(filters_view(fs@) =~= insert_filter(filters_view(fs0), column, items0));
            }
            fs
        } else if str_lex_lt(column, head_column) {
            fs.insert(0, ColumnFilter { column, items });
            proof {
                assert(filters_view(fs@) =~= insert_filter(filters_view(fs0), column, items@));
            }
            fs
        } else {
            let e = fs.remove(0);
            proof {
                assert(filters_view(fs@) =~= filters_view(fs0).skip(1));
            }
            let mut r = insert_filter_vec(fs, column, items);
            r.insert(0, e);
            proof {
                assert(filters_view(r@) =~= insert_filter(filters_view(fs0), column, items@));
            }
            r
        }
    }
}

impl FilteredOperationBuilder {
    /// The builder's columns are strictly sorted by name.
    pub open spec fn wf(&self) -> bool {
        sorted_filters(self@.filters)
    }

    /// Creates a builder for `table` with no filters, no extra fragment and
    /// no limit.
    pub fn new(table: &'static str) -> (r: Self)
        ensures
            r@ == (FilteredOperationBuilderView {
                table,
                extra: "",
                filters: Seq::<FilterEntryV>::empty(),
                limit: None,
            }),
            r@.extra@.len() == 0,
            r.wf(),
    {
        let r = FilteredOperationBuilder { table, extra: "", filters: Vec::new(), limit: None };
        proof {
            reveal_strlit("");
            assert(filters_view(r.filters@) =~= Seq::<FilterEntryV>::empty());
        }
        r
    }

    /// Registers the comparisons of `range` for `column`. Later
    /// registrations for a column already present accumulate behind its
    /// earlier ones; columns stay sorted by name.
    pub fn with_filter(self, column: &'static str, range: Range) -> (r: Self)
        ensures
            r@.table == self@.table,
            r@.extra == self@.extra,
            r@.limit == self@.limit,
            r@.filters == insert_filter(self@.filters, column, range.items_spec()),
            self.wf() ==> r.wf(),
    {
        let FilteredOperationBuilder { table, extra, filters, limit } = self;
        let items = range.into_items();
        let filters = insert_filter_vec(filters, column, items);
        proof {
            if sorted_filters(self@.filters) {
                lemma_insert_filter_sorted(self@.filters, column, range.items_spec());
            }
        }
        FilteredOperationBuilder { table, extra, filters, limit }
    }

    /// Registers an exact comparison for `column`: the rows where the
    /// column equals `value`.
    pub fn with_arg(self, column: &'static str, value: SqlValue) -> (r: Self)
        ensures
            r@.table == self@.table,
            r@.extra == self@.extra,
            r@.limit == self@.limit,
            r@.filters == insert_filter(
                self@.filters,
                column,
                seq![(ComparisonMode::EQ, value)],
            ),
            self.wf() ==> r.wf(),
    {
        self.with_filter(column, Range::Exact(value))
    }

    /// Registers the row limit used when the operation itself carries none.
    pub fn with_limit(self, limit: Option<i32>) -> (r: Self)
        ensures
            r@ == (FilteredOperationBuilderView { limit, ..self@ }),
            self.wf() ==> r.wf(),
    {
        let FilteredOperationBuilder { table, extra, filters, limit: _ } = self;
        FilteredOperationBuilder { table, extra, filters, limit }
    }

    /// Registers a literal fragment appended before the terminating clause.
    /// It is trusted text: it is not parameterized.
    pub fn with_extra(self, extra: &'static str) -> (r: Self)
        ensures
            r@ == (FilteredOperationBuilderView { extra, ..self@ }),
            self.wf() ==> r.wf(),
    {
        let FilteredOperationBuilder { table, extra: _, filters, limit } = self;
        FilteredOperationBuilder { table, extra, filters, limit }
    }

    /// Builds the statement: the SQL text and the values bound to its
    /// placeholders, argument `i` binding to placeholder `$i`.
    pub fn build(self, op: FilteredOperation) -> (r: (String, Vec<SqlValue>))
        ensures
            r.0@ == filtered_sql(op, self@),
            r.1@ == where_args(flat_cmps(self@.filters)),
    {
        let FilteredOperationBuilder { table, extra, filters, limit } = self;
        let flat = flatten(filters);
        let n = flat.len();
        let mut s = match op {
            FilteredOperation::Select { op: sel, .. } => match sel {
                None => String::from_str("SELECT *"),
                Some(o) => {
                    let mut h = String::from_str("SELECT ");
                    h.append(o.to_sql());
                    h.append("(*)");
                    h
                },
            },
            FilteredOperation::Delete => String::from_str("DELETE"),
        };
        s.append(" FROM ");
        s.append(table);
        let args: Vec<SqlValue>;
        if n == 0 {
            args = Vec::new();
            proof {
                assert(args@ =~= where_args(flat_cmps(self@.filters)));
            }
        } else {
            s.append(" WHERE ");
            let (wt, wargs) = render_where(flat, 1);
            s.append(wt.as_str());
            args = wargs;
        }
        if !extra.is_empty() {
            s.append(" ");
            s.append(extra);
        }
        match op {
            FilteredOperation::Delete => {
                s.append(" RETURNING *");
            },
            FilteredOperation::Select { limit: op_limit, .. } => {
                let eff = match op_limit {
                    Some(v) => Some(v),
                    None => limit,
                };
                match eff {
                    Some(v) => {
                        s.append(" LIMIT ");
                        let d = i32_dec(v);
                        s.append(d.as_str());
                    },
                    None => {},
                }
            },
        }
        s.append(";");
        proof {
            assert(s@ =~= filtered_sql(op, self@));
        }
        (s, args)
    }
}

/// The column list of an insert statement, joined by commas.
pub open spec fn cols_text(vals: Seq<(&'static str, SqlValue)>) -> Seq<char>
    decreases vals.len(),
{
    if vals.len() == 0 {
        Seq::empty()
    } else if vals.len() == 1 {
        vals[0].0@
    } else {
        vals[0].0@ + ", "@ + cols_text(vals.skip(1))
    }
}

/// The placeholder list `$idx, $idx+1, ...` of `n` placeholders.
pub open spec fn placeholders_text(idx: int, n: nat) -> Seq<char>
    decreases n,
{
    if n == 0 {
        Seq::empty()
    } else if n == 1 {
        "$"@ + int_dec_str(idx)
    } else {
        "$"@ + int_dec_str(idx) + ", "@ + placeholders_text(idx + 1, (n - 1) as nat)
    }
}

/// The values of a column-value list, in column order.
pub open spec fn vals_args(vals: Seq<(&'static str, SqlValue)>) -> Seq<SqlValue> {
    vals.map_values(|p: (&'static str, SqlValue)| p.1)
}

/// Sets `value` for `column` in a value list kept sorted by column name:
/// a later value for the same column replaces the earlier one.
pub open spec fn insert_pair(
    vals: Seq<(&'static str, SqlValue)>,
    column: &'static str,
    value: SqlValue,
) -> Seq<(&'static str, SqlValue)>
    decreases vals.len(),
{
    if vals.len() == 0 {
        seq![(column, value)]
    } else if vals[0].0.spec_bytes() == column.spec_bytes() {
        seq![(column, value)] + vals.skip(1)
    } else if lex_lt(column.spec_bytes(), vals[0].0.spec_bytes()) {
        seq![(column, value)] + vals
    } else {
        seq![vals[0]] + insert_pair(vals.skip(1), column, value)
    }
}

/// A value list is well formed when its columns are strictly sorted.
pub open spec fn sorted_vals(vals: Seq<(&'static str, SqlValue)>) -> bool {
    forall|i: int, j: int|
        0 <= i < j < vals.len() ==> lex_lt(
            (#[trigger] vals[i]).0.spec_bytes(),
            (#[trigger] vals[j]).0.spec_bytes(),
        )
}

/// Every column of the updated list is the new column or one already
/// present.
pub proof fn lemma_insert_pair_keys(
    vals: Seq<(&'static str, SqlValue)>,
    column: &'static str,
    value: SqlValue,
)
    ensures
        forall|i: int|
            0 <= i < insert_pair(vals, column, value).len() ==> (#[trigger] insert_pair(
                vals,
                column,
                value,
            )[i]).0.spec_bytes() == column.spec_bytes() || exists|j: int|
                0 <= j < vals.len() && vals[j].0 == insert_pair(vals, column, value)[i].0,
    decreases vals.len(),
{
    let r = insert_pair(vals, column, value);
    if vals.len() == 0 {
    } else if vals[0].0.spec_bytes() == column.spec_bytes() {
        assert forall|i: int| 0 <= i < r.len() implies (#[trigger] r[i]).0.spec_bytes()
            == column.spec_bytes() || exists|j: int| 0 <= j < vals.len() && vals[j].0 == r[i].0 by {
            if i > 0 {
                assert(r[i].0 == vals[i].0);
            }
        }
    } else if lex_lt(column.spec_bytes(), vals[0].0.spec_bytes()) {
        assert forall|i: int| 0 <= i < r.len() implies (#[trigger] r[i]).0.spec_bytes()
            == column.spec_bytes() || exists|j: int| 0 <= j < vals.len() && vals[j].0 == r[i].0 by {
            if i > 0 {
                assert(r[i].0 == vals[i - 1].0);
            }
        }
    } else {
        lemma_insert_pair_keys(vals.skip(1), column, value);
        let rr = insert_pair(vals.skip(1), column, value);
        assert forall|i: int| 0 <= i < r.len() implies (#[trigger] r[i]).0.spec_bytes()
            == column.spec_bytes() || exists|j: int| 0 <= j < vals.len() && vals[j].0 == r[i].0 by {
            if i == 0 {
                assert(vals[0].0 == r[0].0);
            } else {
                assert(r[i].0 == rr[i - 1].0);
                if rr[i - 1].0.spec_bytes() != column.spec_bytes() {
                    let j = choose|j: int| 0 <= j < vals.skip(1).len() && vals.skip(1)[j].0 == rr[i
                        - 1].0;
                    assert(vals[j + 1].0 == rr[i - 1].0);
                }
            }
        }
    }
}

/// Setting a value keeps a sorted value list sorted.
pub proof fn lemma_insert_pair_sorted(
    vals: Seq<(&'static str, SqlValue)>,
    column: &'static str,
    value: SqlValue,
)
    requires
        sorted_vals(vals),
    ensures
        sorted_vals(insert_pair(vals, column, value)),
    decreases vals.len(),
{
    let r = insert_pair(vals, column, value);
    if vals.len() == 0 {
    } else if vals[0].0.spec_bytes() == column.spec_bytes() {
        assert forall|i: int, j: int| 0 <= i < j < r.len() implies lex_lt(
            (#[trigger] r[i]).0.spec_bytes(),
            (#[trigger] r[j]).0.spec_bytes(),
        ) by {
            if i > 0 {
                assert(r[i].0 == vals[i].0);
            }
            assert(r[j].0 == vals[j].0);
        }
    } else if lex_lt(column.spec_bytes(), vals[0].0.spec_bytes()) {
        assert forall|i: int, j: int| 0 <= i < j < r.len() implies lex_lt(
            (#[trigger] r[i]).0.spec_bytes(),
            (#[trigger] r[j]).0.spec_bytes(),
        ) by {
            if i == 0 {
                if j == 1 {
                } else {
                    lemma_lex_trans(
                        column.spec_bytes(),
                        vals[0].0.spec_bytes(),
                        vals[j - 1].0.spec_bytes(),
                    );
                }
            } else {
                assert(r[i].0 == vals[i - 1].0);
                assert(r[j].0 == vals[j - 1].0);
            }
        }
    } else {
        assert(sorted_vals(vals.skip(1))) by {
            assert(forall|i: int|
                0 <= i < vals.skip(1).len() ==> #[trigger] vals.skip(1)[i] == vals[i + 1]);
        }
        lemma_insert_pair_sorted(vals.skip(1), column, value);
        lemma_insert_pair_keys(vals.skip(1), column, value);
        let rr = insert_pair(vals.skip(1), column, value);
        lemma_lex_connected(vals[0].0.spec_bytes(), column.spec_bytes());
        assert(lex_lt(vals[0].0.spec_bytes(), column.spec_bytes()));
        assert forall|i: int, j: int| 0 <= i < j < r.len() implies lex_lt(
            (#[trigger] r[i]).0.spec_bytes(),
            (#[trigger] r[j]).0.spec_bytes(),
        ) by {
            if i == 0 {
                assert(r[j].0 == rr[j - 1].0);
                if rr[j - 1].0.spec_bytes() == column.spec_bytes() {
                } else {
                    let k = choose|k: int| 0 <= k < vals.skip(1).len() && vals.skip(1)[k].0 == rr[j
                        - 1].0;
                    assert(vals[k + 1].0 == rr[j - 1].0);
                    assert(lex_lt(vals[0].0.spec_bytes(), vals[k + 1].0.spec_bytes()));
                }
            } else {
                assert(r[i].0 == rr[i - 1].0);
                assert(r[j].0 == rr[j - 1].0);
            }
        }
    }
}

/// Sets `value` for `column` in an executable value list.
fn insert_pair_vec(
    vals: Vec<(&'static str, SqlValue)>,
    column: &'static str,
    value: SqlValue,
) -> (r: Vec<(&'static str, SqlValue)>)
    ensures
        r@ == insert_pair(vals@, column, value),
    decreases vals@.len(),
{
    let mut vals = vals;
    if vals.is_empty() {
        vals.push((column, value));
        proof {
            assert(vals@ =~= insert_pair(Seq::empty(), column, value));
        }
        vals
    } else {
        let ghost vals0 = vals@;
        let head_column = vals[0].0;
        if str_bytes_eq(column, head_column) {
            let _ = vals.remove(0);
            vals.insert(0, (column, value));
            proof {
                assert(vals@ =~= insert_pair(vals0, column, value));
            }
            vals
        } else if str_lex_lt(column, head_column) {
            vals.insert(0, (column, value));
            proof {
                assert(vals@ =~= insert_pair(vals0, column, value));
            }
            vals
        } else {
            let e = vals.remove(0);
            proof {
                assert(vals@ =~= vals0.skip(1));
            }
            let mut r = insert_pair_vec(vals, column, value);
            r.insert(0, e);
            proof {
                assert(r@ =~= insert_pair(vals0, column, value));
            }
            r
        }
    }
}

/// Renders the column list of an insert statement.
fn render_cols(vals: &Vec<(&'static str, SqlValue)>, i: usize) -> (r: String)
    requires
        i <= vals@.len(),
    ensures
        r@ == cols_text(vals@.skip(i as int)),
    decreases vals@.len() - i,
{
    if i == vals.len() {
        let r = String::new();
        proof {
            assert(vals@.skip(i as int).len() == 0);
        }
        r
    } else {
        let mut s = vals[i].0.to_owned();
        if i + 1 < vals.len() {
            s.append(", ");
            let rest = render_cols(vals, i + 1);
            s.append(rest.as_str());
        }
        proof {
            assert(vals@.skip(i as int)[0] == vals@[i as int]);
            assert(vals@.skip(i as int).skip(1) =~= vals@.skip(i as int + 1));
            assert(s@ =~= cols_text(vals@.skip(i as int)));
        }
        s
    }
}

/// Renders `n` placeholders counting up from `$idx`.
fn render_placeholders(idx: u128, n: usize) -> (r: String)
    requires
        idx + n <= u128::MAX,
        idx >= 1,
    ensures
        r@ == placeholders_text(idx as int, n as nat),
    decreases n,
{
    if n == 0 {
        String::new()
    } else {
        let mut s = String::from_str("$");
        let d = u128_dec(idx);
        s.append(d.as_str());
        if n > 1 {
            s.append(", ");
            let rest = render_placeholders(idx + 1, n - 1);
            s.append(rest.as_str());
        }
        proof {
            assert(s@ =~= placeholders_text(idx as int, n as nat));
        }
        s
    }
}

/// Extracts the values of a column-value list, in column order.
fn take_args(vals: Vec<(&'static str, SqlValue)>) -> (r: Vec<SqlValue>)
    ensures
        r@ == vals_args(vals@),
    decreases vals@.len(),
{
    let mut vals = vals;
    if vals.is_empty() {
        let r: Vec<SqlValue> = Vec::new();
        proof {
            assert(r@ =~= vals_args(vals@));
        }
        r
    } else {
        let ghost vals0 = vals@;
        let (_, value) = vals.remove(0);
        proof {
            assert(vals@ =~= vals0.skip(1));
        }
        let mut r: Vec<SqlValue> = Vec::new();
        r.push(value);
        let mut rest = take_args(vals);
        r.append(&mut rest);
        proof {
            assert(r@ =~= vals_args(vals0));
        }
        r
    }
}

/// The ghost shape of an insert builder.
pub struct InsertBuilderView {
    pub table: &'static str,
    pub extra: &'static str,
    pub values: Seq<(&'static str, SqlValue)>,
}

/// The whole text of an insert statement.
pub open spec fn insert_sql(v: InsertBuilderView) -> Seq<char> {
    "INSERT INTO "@ + v.table@ + " ("@ + cols_text(v.values) + ") VALUES ("@ + placeholders_text(
        1,
        v.values.len(),
    ) + ")"@ + extra_part(v.extra) + " RETURNING *;"@
}

/// Construct an insert statement for one row of one table.
pub struct InsertBuilder {
    pub table: &'static str,
    pub extra: &'static str,
    pub values: Vec<(&'static str, SqlValue)>,
}

impl View for InsertBuilder {
    type V = InsertBuilderView;

    open spec fn view(&self) -> InsertBuilderView {
        InsertBuilderView { table: self.table, extra: self.extra, values: self.values@ }
    }
}

impl InsertBuilder {
    /// The builder's columns are strictly sorted by name.
    pub open spec fn wf(&self) -> bool {
        sorted_vals(self@.values)
    }

    /// Creates a builder for `table` with no values and no extra fragment.
    pub fn new(table: &'static str) -> (r: Self)
        ensures
            r@ == (InsertBuilderView {
                table,
                extra: "",
                values: Seq::<(&'static str, SqlValue)>::empty(),
            }),
            r@.extra@.len() == 0,
            r.wf(),
    {
        proof {
            reveal_strlit("");
        }
        let r = InsertBuilder { table, extra: "", values: Vec::new() };
        proof {
            assert(r@.values =~= Seq::<(&'static str, SqlValue)>::empty());
        }
        r
    }

    /// Sets `value` for `column`. A later value for the same column
    /// replaces the earlier one; columns stay sorted by name.
    pub fn with_arg(self, column: &'static str, value: SqlValue) -> (r: Self)
        ensures
            r@.table == self@.table,
            r@.extra == self@.extra,
            r@.values == insert_pair(self@.values, column, value),
            self.wf() ==> r.wf(),
    {
        let InsertBuilder { table, extra, values } = self;
        let values = insert_pair_vec(values, column, value);
        proof {
            if sorted_vals(self@.values) {
                lemma_insert_pair_sorted(self@.values, column, value);
            }
        }
        InsertBuilder { table, extra, values }
    }

    /// Registers a literal fragment appended before the terminating clause.
    /// It is trusted text: it is not parameterized.
    pub fn with_extra(self, extra: &'static str) -> (r: Self)
        ensures
            r@ == (InsertBuilderView { extra, ..self@ }),
            self.wf() ==> r.wf(),
    {
        let InsertBuilder { table, extra: _, values } = self;
        InsertBuilder { table, extra, values }
    }

    /// Builds the statement: the SQL text and the values bound to its
    /// placeholders, argument `i` binding to placeholder `$i`.
    pub fn build(self) -> (r: (String, Vec<SqlValue>))
        ensures
            r.0@ == insert_sql(self@),
            r.1@ == vals_args(self@.values),
    {
        let InsertBuilder { table, extra, values } = self;
        let mut s = String::from_str("INSERT INTO ");
        s.append(table);
        s.append(" (");
        let cols = render_cols(&values, 0);
        s.append(cols.as_str());
        s.append(") VALUES (");
        let n = values.len();
        let ph = render_placeholders(1, n);
        s.append(ph.as_str());
        s.append(")");
        if !extra.is_empty() {
            s.append(" ");
            s.append(extra);
        }
        s.append(" RETURNING *;");
        let args = take_args(values);
        proof {
            assert(self@.values.skip(0) =~= self@.values);
            assert(s@ =~= insert_sql(self@));
        }
        (s, args)
    }
}

/// The SET clause body of an update statement: `col = $idx` pairs joined by
/// commas, placeholders counting up from `idx`.
pub open spec fn set_text(vals: Seq<(&'static str, SqlValue)>, idx: int) -> Seq<char>
    decreases vals.len(),
{
    if vals.len() == 0 {
        Seq::empty()
    } else if vals.len() == 1 {
        vals[0].0@ + " = $"@ + int_dec_str(idx)
    } else {
        vals[0].0@ + " = $"@ + int_dec_str(idx) + ", "@ + set_text(vals.skip(1), idx + 1)
    }
}

/// Renders the SET clause body of an update statement.
fn render_set(vals: &Vec<(&'static str, SqlValue)>, i: usize, idx: u128) -> (r: String)
    requires
        i <= vals@.len(),
        idx >= 1,
        idx + (vals@.len() - i) <= u128::MAX,
    ensures
        r@ == set_text(vals@.skip(i as int), idx as int),
    decreases vals@.len() - i,
{
    if i == vals.len() {
        let r = String::new();
        proof {
            assert(vals@.skip(i as int).len() == 0);
        }
        r
    } else {
        let mut s = vals[i].0.to_owned();
        s.append(" = $");
        let d = u128_dec(idx);
        s.append(d.as_str());
        if i + 1 < vals.len() {
            s.append(", ");
            let rest = render_set(vals, i + 1, idx + 1);
            s.append(rest.as_str());
        }
        proof {
            assert(vals@.skip(i as int)[0] == vals@[i as int]);
            assert(vals@.skip(i as int).skip(1) =~= vals@.skip(i as int + 1));
            assert(s@ =~= set_text(vals@.skip(i as int), idx as int));
        }
        s
    }
}

/// The ghost shape of an update builder.
pub struct UpdateBuilderView {
    pub extra: &'static str,
    pub values: Seq<(&'static str, SqlValue)>,
    pub filters: FilteredOperationBuilderView,
}

/// The whole text of an update statement: SET placeholders first, WHERE
/// placeholders after them, and the argument order matching.
pub open spec fn update_sql(v: UpdateBuilderView) -> Seq<char> {
    "UPDATE "@ + v.filters.table@ + " SET "@ + set_text(v.values, 1) + where_part(
        v.filters.filters,
        v.values.len() + 1 as int,
    ) + extra_part(v.extra) + " RETURNING *;"@
}

/// Construct an update statement, or the select it degrades to when no
/// value to set was registered.
pub struct UpdateBuilder {
    pub extra: &'static str,
    pub values: Vec<(&'static str, SqlValue)>,
    pub filters: FilteredOperationBuilder,
}

impl View for UpdateBuilder {
    type V = UpdateBuilderView;

    open spec fn view(&self) -> UpdateBuilderView {
        UpdateBuilderView { extra: self.extra, values: self.values@, filters: self.filters@ }
    }
}

impl UpdateBuilder {
    /// The builder's set columns and filter columns are strictly sorted.
    pub open spec fn wf(&self) -> bool {
        sorted_vals(self@.values) && sorted_filters(self@.filters.filters)
    }

    /// Creates a builder for `table` with no values, no filters and no
    /// extra fragment.
    pub fn new(table: &'static str) -> (r: Self)
        ensures
            r@.filters.table == table,
            r@.filters.extra@.len() == 0,
            r@.filters.filters == Seq::<FilterEntryV>::empty(),
            r@.filters.limit is None,
            r@.extra@.len() == 0,
            r@.values == Seq::<(&'static str, SqlValue)>::empty(),
            r.wf(),
    {
        let filters = FilteredOperationBuilder::new(table);
        UpdateBuilder { extra: filters.extra, values: Vec::new(), filters }
    }

    /// Registers the comparisons of `range` for `column` in the embedded
    /// WHERE clause.
    pub fn with_filter(self, column: &'static str, range: Range) -> (r: Self)
        ensures
            r@.extra == self@.extra,
            r@.values == self@.values,
            r@.filters.table == self@.filters.table,
            r@.filters.extra == self@.filters.extra,
            r@.filters.limit == self@.filters.limit,
            r@.filters.filters == insert_filter(
                self@.filters.filters,
                column,
                range.items_spec(),
            ),
            self.wf() ==> r.wf(),
    {
        let UpdateBuilder { extra, values, filters } = self;
        let filters = filters.with_filter(column, range);
        UpdateBuilder { extra, values, filters }
    }

    /// Sets `value` for `column` in the SET clause. A later value for the
    /// same column replaces the earlier one; columns stay sorted by name.
    pub fn with_value(self, column: &'static str, value: SqlValue) -> (r: Self)
        ensures
            r@.extra == self@.extra,
            r@.filters == self@.filters,
            r@.values == insert_pair(self@.values, column, value),
            self.wf() ==> r.wf(),
    {
        let UpdateBuilder { extra, values, filters } = self;
        let values = insert_pair_vec(values, column, value);
        proof {
            if sorted_vals(self@.values) {
                lemma_insert_pair_sorted(self@.values, column, value);
            }
        }
        UpdateBuilder { extra, values, filters }
    }

    /// Registers a literal fragment appended before the terminating clause.
    /// It is trusted text: it is not parameterized.
    pub fn with_extra(self, extra: &'static str) -> (r: Self)
        ensures
            r@ == (UpdateBuilderView { extra, ..self@ }),
            self.wf() ==> r.wf(),
    {
        let UpdateBuilder { extra: _, values, filters } = self;
        UpdateBuilder { extra, values, filters }
    }

    /// Builds an update statement when values to set were registered, and
    /// the select the builder degrades to otherwise. SET placeholders are
    /// numbered before WHERE placeholders and the argument order matches:
    /// SET arguments first, WHERE arguments after them.
    pub fn build(self) -> (r: (String, Vec<SqlValue>))
        ensures
            self@.values.len() == 0 ==> r.0@ == filtered_sql(
                FilteredOperation::Select { op: None, limit: None },
                self@.filters,
            ) && r.1@ == where_args(flat_cmps(self@.filters.filters)),
            self@.values.len() > 0 ==> r.0@ == update_sql(self@) && r.1@ == vals_args(self@.values)
                + where_args(flat_cmps(self@.filters.filters)),
    {
        let UpdateBuilder { extra, values, filters } = self;
        if values.is_empty() {
            return filters.build(FilteredOperation::Select { op: None, limit: None });
        }
        let FilteredOperationBuilder { table, extra: _, filters: columns, limit: _ } = filters;
        let mut s = String::from_str("UPDATE ");
        s.append(table);
        s.append(" SET ");
        let n = values.len();
        let st = render_set(&values, 0, 1);
        s.append(st.as_str());
        let flat = flatten(columns);
        let m = flat.len();
        let mut args = take_args(values);
        if m > 0 {
            s.append(" WHERE ");
            let (wt, mut wargs) = render_where(flat, n as u128 + 1);
            s.append(wt.as_str());
            args.append(&mut wargs);
        }
        if !extra.is_empty() {
            s.append(" ");
            s.append(extra);
        }
        s.append(" RETURNING *;");
        proof {
            assert(self@.values.skip(0) =~= self@.values);
            assert(s@ =~= update_sql(self@));
            assert(args@ =~= vals_args(self@.values) + where_args(flat_cmps(self@.filters.filters)));
        }
        (s, args)
    }
}

impl UpdateBuilder {
    /// Reuses a filtered builder as the WHERE clause of an update. The
    /// update inherits the builder's extra fragment.
    pub fn from_filters(v: FilteredOperationBuilder) -> (r: UpdateBuilder)
        ensures
            r@.extra == v@.extra,
            r@.values == Seq::<(&'static str, SqlValue)>::empty(),
            r@.filters == v@,
            v.wf() ==> r.wf(),
    {
        let r = UpdateBuilder { extra: v.extra, values: Vec::new(), filters: v };
        proof {
            assert(r@.values =~= Seq::<(&'static str, SqlValue)>::empty());
        }
        r
    }
}

/// A value that can describe which rows a select or delete targets.
pub trait Filter {
    /// The builder this filter renders to, for `table`.
    spec fn filter_spec(&self, table: &'static str) -> FilteredOperationBuilderView;

    /// Renders this filter as a builder for `table`.
    fn into_filtered_operation_builder(self, table: &'static str) -> (r: FilteredOperationBuilder)
        where Self: Sized
        ensures
            r@ == self.filter_spec(table),
            r.wf(),
    ;
}

/// A value that can describe one row to create.
pub trait Inserter {
    /// The builder this payload renders to, for `table`.
    spec fn inserter_spec(&self, table: &'static str) -> InsertBuilderView;

    /// Renders this payload as a builder for `table`.
    fn into_insert_builder(self, table: &'static str) -> (r: InsertBuilder)
        where Self: Sized
        ensures
            r@ == self.inserter_spec(table),
            r.wf(),
    ;
}

/// A value that can describe values to set plus the rows to set them on.
pub trait Updater {
    /// Whether this payload can be rendered at all.
    spec fn updater_ok(&self) -> bool;

    /// The builder this payload renders to, for `table`.
    spec fn updater_spec(&self, table: &'static str) -> UpdateBuilderView;

    /// Renders this payload as a builder for `table`.
    fn into_update_builder(self, table: &'static str) -> (r: UpdateBuilder)
        where Self: Sized
        requires
            self.updater_ok(),
        ensures
            r@ == self.updater_spec(table),
            r.wf(),
    ;
}

/// Building is deterministic: builders holding equal registered state
/// render byte-identical SQL text and the same argument order, however
/// each was constructed.
pub proof fn lemma_build_deterministic(
    a: FilteredOperationBuilderView,
    b: FilteredOperationBuilderView,
    op: FilteredOperation,
)
    requires
        a == b,
    ensures
        filtered_sql(op, a) == filtered_sql(op, b),
        where_args(flat_cmps(a.filters)) == where_args(flat_cmps(b.filters)),
{
}

/// Registering two distinct columns yields the same filter set in either
/// order: the sorted column order makes the rendered statement canonical.
pub proof fn lemma_insert_filter_commutes(
    fs: Seq<FilterEntryV>,
    c1: &'static str,
    items1: Seq<(ComparisonMode, SqlValue)>,
    c2: &'static str,
    items2: Seq<(ComparisonMode, SqlValue)>,
)
    requires
        c1.spec_bytes() != c2.spec_bytes(),
    ensures
        insert_filter(insert_filter(fs, c1, items1), c2, items2) == insert_filter(
            insert_filter(fs, c2, items2),
            c1,
            items1,
        ),
    decreases fs.len(),
{
    lemma_lex_connected(c1.spec_bytes(), c2.spec_bytes());
    lemma_lex_irrefl(c1.spec_bytes());
    lemma_lex_irrefl(c2.spec_bytes());
    lemma_lex_asym(c1.spec_bytes(), c2.spec_bytes());
    let ab = insert_filter(insert_filter(fs, c1, items1), c2, items2);
    let ba = insert_filter(insert_filter(fs, c2, items2), c1, items1);
    if fs.len() == 0 {
        let one1 = insert_filter(fs, c1, items1);
        let one2 = insert_filter(fs, c2, items2);
        assert(fs =~= Seq::<FilterEntryV>::empty());
        assert(one1 =~= seq![(c1, items1)]);
        assert(one2 =~= seq![(c2, items2)]);
        assert(one1.skip(1) =~= fs);
        assert(one2.skip(1) =~= fs);
        if lex_lt(c1.spec_bytes(), c2.spec_bytes()) {
            assert(ab =~= seq![(c1, items1)] + one2);
            assert(ba =~= seq![(c1, items1)] + one2);
            assert(ab =~= ba);
        } else {
            assert(lex_lt(c2.spec_bytes(), c1.spec_bytes()));
            assert(ab =~= seq![(c2, items2)] + one1);
            assert(ba =~= seq![(c2, items2)] + one1);
            assert(ab =~= ba);
        }
    } else {
        let h = fs[0];
        lemma_lex_connected(c1.spec_bytes(), h.0.spec_bytes());
        lemma_lex_connected(c2.spec_bytes(), h.0.spec_bytes());
        lemma_lex_asym(c1.spec_bytes(), h.0.spec_bytes());
        lemma_lex_asym(c2.spec_bytes(), h.0.spec_bytes());
        if h.0.spec_bytes() == c1.spec_bytes() {
            // c1 accumulates into the head; c2 goes past it on both sides
            let fs1 = seq![(h.0, h.1 + items1)] + fs.skip(1);
            assert(insert_filter(fs, c1, items1) == fs1);
            if lex_lt(c2.spec_bytes(), h.0.spec_bytes()) {
                assert(ab =~= seq![(c2, items2)] + fs1);
                assert(insert_filter(fs, c2, items2) =~= seq![(c2, items2)] + fs);
                assert((seq![(c2, items2)] + fs).skip(1) =~= fs);
                assert(ba =~= seq![(c2, items2)] + fs1);
            } else {
                let fs2 = insert_filter(fs.skip(1), c2, items2);
                assert((seq![(h.0, h.1 + items1)] + fs.skip(1)).skip(1) =~= fs.skip(1));
                assert(ab =~= seq![(h.0, h.1 + items1)] + fs2);
                assert(insert_filter(fs, c2, items2) =~= seq![h] + fs2);
                assert((seq![h] + fs2)[0] == h);
                assert((seq![h] + fs2).skip(1) =~= fs2);
                assert(ba =~= seq![(h.0, h.1 + items1)] + fs2);
            }
        } else if h.0.spec_bytes() == c2.spec_bytes() {
            let fs2 = seq![(h.0, h.1 + items2)] + fs.skip(1);
            assert(insert_filter(fs, c2, items2) == fs2);
            if lex_lt(c1.spec_bytes(), h.0.spec_bytes()) {
                assert(ba =~= seq![(c1, items1)] + fs2);
                assert(insert_filter(fs, c1, items1) =~= seq![(c1, items1)] + fs);
                assert((seq![(c1, items1)] + fs).skip(1) =~= fs);
                assert(ab =~= seq![(c1, items1)] + fs2);
            } else {
                let fs1 = insert_filter(fs.skip(1), c1, items1);
                assert((seq![(h.0, h.1 + items2)] + fs.skip(1)).skip(1) =~= fs.skip(1));
                assert(ba =~= seq![(h.0, h.1 + items2)] + fs1);
                assert(insert_filter(fs, c1, items1) =~= seq![h] + fs1);
                assert((seq![h] + fs1)[0] == h);
                assert((seq![h] + fs1).skip(1) =~= fs1);
                assert(ab =~= seq![(h.0, h.1 + items2)] + fs1);
            }
        } else {
            let lt1 = lex_lt(c1.spec_bytes(), h.0.spec_bytes());
            let lt2 = lex_lt(c2.spec_bytes(), h.0.spec_bytes());
            if lt1 && lt2 {
                if lex_lt(c1.spec_bytes(), c2.spec_bytes()) {
                    assert(ab =~= seq![(c1, items1), (c2, items2)] + fs) by {
                        assert(insert_filter(fs, c1, items1) =~= seq![(c1, items1)] + fs);
                        assert((seq![(c1, items1)] + fs)[0] == (c1, items1));
                        assert((seq![(c1, items1)] + fs).skip(1) =~= fs);
                    }
                    assert(ba =~= seq![(c1, items1), (c2, items2)] + fs) by {
                        assert(insert_filter(fs, c2, items2) =~= seq![(c2, items2)] + fs);
                        assert((seq![(c2, items2)] + fs)[0] == (c2, items2));
                    }
                } else {
                    assert(lex_lt(c2.spec_bytes(), c1.spec_bytes()));
                    assert(ab =~= seq![(c2, items2), (c1, items1)] + fs) by {
                        assert(insert_filter(fs, c1, items1) =~= seq![(c1, items1)] + fs);
                        assert((seq![(c1, items1)] + fs)[0] == (c1, items1));
                    }
                    assert(ba =~= seq![(c2, items2), (c1, items1)] + fs) by {
                        assert(insert_filter(fs, c2, items2) =~= seq![(c2, items2)] + fs);
                        assert((seq![(c2, items2)] + fs)[0] == (c2, items2));
                        assert((seq![(c2, items2)] + fs).skip(1) =~= fs);
                    }
                }
            } else if lt1 && !lt2 {
                // c1 goes before the head, c2 goes past it
                assert(lex_lt(h.0.spec_bytes(), c2.spec_bytes()));
                lemma_lex_trans(c1.spec_bytes(), h.0.spec_bytes(), c2.spec_bytes());
                let fs2 = insert_filter(fs.skip(1), c2, items2);
                assert(insert_filter(fs, c2, items2) =~= seq![h] + fs2);
                assert(ab =~= seq![(c1, items1)] + (seq![h] + fs2)) by {
                    assert(insert_filter(fs, c1, items1) =~= seq![(c1, items1)] + fs);
                    assert((seq![(c1, items1)] + fs)[0] == (c1, items1));
                    assert((seq![(c1, items1)] + fs).skip(1) =~= fs);
                }
                assert(ba =~= seq![(c1, items1)] + (seq![h] + fs2)) by {
                    assert((seq![h] + fs2)[0] == h);
                }
            } else if !lt1 && lt2 {
                assert(lex_lt(h.0.spec_bytes(), c1.spec_bytes()));
                lemma_lex_trans(c2.spec_bytes(), h.0.spec_bytes(), c1.spec_bytes());
                let fs1 = insert_filter(fs.skip(1), c1, items1);
                assert(insert_filter(fs, c1, items1) =~= seq![h] + fs1);
                assert(ba =~= seq![(c2, items2)] + (seq![h] + fs1)) by {
                    assert(insert_filter(fs, c2, items2) =~= seq![(c2, items2)] + fs);
                    assert((seq![(c2, items2)] + fs)[0] == (c2, items2));
                    assert((seq![(c2, items2)] + fs).skip(1) =~= fs);
                }
                assert(ab =~= seq![(c2, items2)] + (seq![h] + fs1)) by {
                    assert((seq![h] + fs1)[0] == h);
                }
            } else {
                // both go past the head: recurse
                lemma_insert_filter_commutes(fs.skip(1), c1, items1, c2, items2);
                let fs1 = insert_filter(fs.skip(1), c1, items1);
                let fs2 = insert_filter(fs.skip(1), c2, items2);
                assert(insert_filter(fs, c1, items1) =~= seq![h] + fs1);
                assert(insert_filter(fs, c2, items2) =~= seq![h] + fs2);
                assert((seq![h] + fs1)[0] == h);
                assert((seq![h] + fs1).skip(1) =~= fs1);
                assert((seq![h] + fs2)[0] == h);
                assert((seq![h] + fs2).skip(1) =~= fs2);
                assert(ab =~= seq![h] + insert_filter(fs1, c2, items2));
                assert(ba =~= seq![h] + insert_filter(fs2, c1, items1));
            }
        }
    }
}

/// How often a character occurs in a sequence.
pub open spec fn count_char(s: Seq<char>, c: char) -> nat
    decreases s.len(),
{
    if s.len() == 0 {
        0
    } else {
        (if s[0] == c {
            1nat
        } else {
            0nat
        }) + count_char(s.skip(1), c)
    }
}

/// Occurrences in a concatenation are the occurrences in the parts.
pub proof fn lemma_count_char_concat(a: Seq<char>, b: Seq<char>, c: char)
    ensures
        count_char(a + b, c) == count_char(a, c) + count_char(b, c),
    decreases a.len(),
{
    if a.len() == 0 {
        assert(a + b =~= b);
    } else {
        lemma_count_char_concat(a.skip(1), b, c);
        assert((a + b).skip(1) =~= a.skip(1) + b);
        assert((a + b)[0] == a[0]);
    }
}

/// A singleton holds one occurrence when it is the character, none
/// otherwise.
pub proof fn lemma_count_char_single(x: char, c: char)
    ensures
        count_char(seq![x], c) == (if x == c {
            1nat
        } else {
            0nat
        }),
{
    assert(seq![x].skip(1) =~= Seq::<char>::empty());
    assert(count_char(Seq::<char>::empty(), c) == 0);
}

/// A sequence without the character holds no occurrence of it.
pub proof fn lemma_count_char_zero(s: Seq<char>, c: char)
    requires
        forall|i: int| 0 <= i < s.len() ==> s[i] != c,
    ensures
        count_char(s, c) == 0,
    decreases s.len(),
{
    if s.len() > 0 {
        assert(forall|i: int| 0 <= i < s.skip(1).len() ==> #[trigger] s.skip(1)[i] == s[i + 1]);
        lemma_count_char_zero(s.skip(1), c);
    }
}

/// Decimal digits contain no placeholder mark.
pub proof fn lemma_dec_str_no_dollar(n: nat)
    ensures
        count_char(dec_str(n), '$') == 0,
    decreases n,
{
    if n < 10 {
        lemma_count_char_single(dec_char(n as int), '$');
        assert(dec_char(n as int) != '$');
    } else {
        lemma_dec_str_no_dollar(n / 10);
        assert(dec_str(n) =~= dec_str(n / 10) + seq![dec_char((n % 10) as int)]);
        lemma_count_char_concat(dec_str(n / 10), seq![dec_char((n % 10) as int)], '$');
        lemma_count_char_single(dec_char((n % 10) as int), '$');
        assert(dec_char((n % 10) as int) != '$');
    }
}

/// Rendered integers contain no placeholder mark.
pub proof fn lemma_int_dec_str_no_dollar(i: int)
    ensures
        count_char(int_dec_str(i), '$') == 0,
{
    if i >= 0 {
        lemma_dec_str_no_dollar(i as nat);
    } else {
        lemma_dec_str_no_dollar((-i) as nat);
        lemma_count_char_concat(seq!['-'], dec_str((-i) as nat), '$');
        lemma_count_char_single('-', '$');
    }
}

/// One comparison's text holds exactly one placeholder mark, provided its
/// column name holds none.
pub proof fn lemma_cmp_text_dollars(c: Comparison, idx: int)
    requires
        count_char(c.column@, '$') == 0,
    ensures
        count_char(cmp_text(c, idx), '$') == 1,
{
    reveal_strlit(" ");
    reveal_strlit(" $");
    reveal_strlit("<");
    reveal_strlit("<=");
    reveal_strlit("=");
    reveal_strlit(">=");
    reveal_strlit(">");
    lemma_int_dec_str_no_dollar(idx);
    let sp = " "@;
    let dl = " $"@;
    let ms = c.mode.sql_spec();
    assert(count_char(sp, '$') == 0) by {
        lemma_count_char_zero(sp, '$');
    }
    assert(count_char(dl, '$') == 1) by {
        assert(dl =~= seq![' '] + seq!['$']);
        lemma_count_char_concat(seq![' '], seq!['$'], '$');
        lemma_count_char_single(' ', '$');
        lemma_count_char_single('$', '$');
    }
    assert(count_char(ms, '$') == 0) by {
        lemma_count_char_zero(ms, '$');
    }
    lemma_count_char_concat(c.column@, sp, '$');
    lemma_count_char_concat(c.column@ + sp, ms, '$');
    lemma_count_char_concat(c.column@ + sp + ms, dl, '$');
    lemma_count_char_concat(c.column@ + sp + ms + dl, int_dec_str(idx), '$');
}

/// A comparison list with no placeholder marks in its column names.
pub open spec fn dollar_free_columns(cs: Seq<Comparison>) -> bool {
    forall|i: int| 0 <= i < cs.len() ==> count_char((#[trigger] cs[i]).column@, '$') == 0
}

/// Positional consistency of a WHERE clause: the argument list holds one
/// value per comparison, argument `j` is the value of comparison `j`, the
/// text numbers its placeholders `idx, idx + 1, ...` in that same order,
/// and (when no column name holds a `$` of its own) the text holds exactly
/// one placeholder mark per argument.
pub proof fn lemma_where_positional(cs: Seq<Comparison>, idx: int)
    requires
        dollar_free_columns(cs),
    ensures
        where_args(cs).len() == cs.len(),
        forall|j: int| 0 <= j < cs.len() ==> where_args(cs)[j] == (#[trigger] cs[j]).value,
        count_char(where_text(cs, idx), '$') == cs.len(),
    decreases cs.len(),
{
    reveal_strlit(" AND ");
    if cs.len() == 0 {
    } else {
        assert(dollar_free_columns(cs.skip(1))) by {
            assert(forall|i: int|
                0 <= i < cs.skip(1).len() ==> #[trigger] cs.skip(1)[i] == cs[i + 1]);
        }
        lemma_where_tail_dollars(cs.skip(1), idx + 1);
        lemma_cmp_text_dollars(cs[0], idx);
        lemma_count_char_concat(cmp_text(cs[0], idx), where_tail(cs.skip(1), idx + 1), '$');
    }
}

/// The tail form of the clause holds one placeholder mark per comparison.
pub proof fn lemma_where_tail_dollars(cs: Seq<Comparison>, idx: int)
    requires
        dollar_free_columns(cs),
    ensures
        count_char(where_tail(cs, idx), '$') == cs.len(),
    decreases cs.len(),
{
    reveal_strlit(" AND ");
    if cs.len() == 0 {
    } else {
        assert(dollar_free_columns(cs.skip(1))) by {
            assert(forall|i: int|
                0 <= i < cs.skip(1).len() ==> #[trigger] cs.skip(1)[i] == cs[i + 1]);
        }
        lemma_where_tail_dollars(cs.skip(1), idx + 1);
        lemma_cmp_text_dollars(cs[0], idx);
        let sep = " AND "@;
        assert(count_char(sep, '$') == 0) by {
            lemma_count_char_zero(sep, '$');
        }
        lemma_count_char_concat(sep, cmp_text(cs[0], idx), '$');
        lemma_count_char_concat(
            sep + cmp_text(cs[0], idx),
            where_tail(cs.skip(1), idx + 1),
            '$',
        );
    }
}

/// Range rendering: `Between` with an exclusive lower and an inclusive
/// upper endpoint on column `c` renders as `c > $idx AND c <= $idx+1`,
/// the two comparisons binding consecutive placeholders.
pub proof fn lemma_between_rendering(
    c: &'static str,
    from: RangeLimit,
    to: RangeLimit,
    idx: int,
)
    requires
        !from.inclusive,
        to.inclusive,
    ensures
        where_text(entry_cmps((c, Range::Between(from, to).items_spec())), idx) == c@ + " > $"@
            + int_dec_str(idx) + " AND "@ + c@ + " <= $"@ + int_dec_str(idx + 1),
{
    reveal_strlit(" ");
    reveal_strlit(" $");
    reveal_strlit(">");
    reveal_strlit("<=");
    reveal_strlit(" > $");
    reveal_strlit(" <= $");
    reveal_strlit(" AND ");
    let items = Range::Between(from, to).items_spec();
    let cs = entry_cmps((c, items));
    assert(cs.len() == 2);
    assert(cs[0] == Comparison { column: c, mode: ComparisonMode::GT, value: from.value });
    assert(cs[1] == Comparison { column: c, mode: ComparisonMode::LTE, value: to.value });
    assert(cs.skip(1).skip(1).len() == 0);
    assert(cs.skip(1)[0] == cs[1]);
    assert(where_tail(cs.skip(1).skip(1), idx + 2) =~= Seq::<char>::empty());
    assert(cmp_text(cs[0], idx) =~= c@ + " > $"@ + int_dec_str(idx));
    assert(cmp_text(cs[1], idx + 1) =~= c@ + " <= $"@ + int_dec_str(idx + 1));
    assert(where_tail(cs.skip(1), idx + 1) =~= " AND "@ + c@ + " <= $"@ + int_dec_str(idx + 1));
    assert(where_text(cs, idx) =~= c@ + " > $"@ + int_dec_str(idx) + " AND "@ + c@ + " <= $"@
        + int_dec_str(idx + 1));
}

/// A value list with no placeholder marks in its column names.
pub open spec fn dollar_free_vals(vals: Seq<(&'static str, SqlValue)>) -> bool {
    forall|i: int| 0 <= i < vals.len() ==> count_char((#[trigger] vals[i]).0@, '$') == 0
}

/// The SET clause holds one placeholder mark per value, provided no column
/// name holds a `$` of its own.
pub proof fn lemma_set_text_dollars(vals: Seq<(&'static str, SqlValue)>, idx: int)
    requires
        dollar_free_vals(vals),
    ensures
        count_char(set_text(vals, idx), '$') == vals.len(),
    decreases vals.len(),
{
    reveal_strlit(" = $");
    reveal_strlit(", ");
    if vals.len() == 0 {
    } else {
        lemma_int_dec_str_no_dollar(idx);
        let eq = " = $"@;
        assert(count_char(eq, '$') == 1) by {
            assert(eq =~= seq![' ', '='] + (seq![' '] + seq!['$']));
            lemma_count_char_zero(seq![' ', '='], '$');
            lemma_count_char_single(' ', '$');
            lemma_count_char_single('$', '$');
            lemma_count_char_concat(seq![' '], seq!['$'], '$');
            lemma_count_char_concat(seq![' ', '='], seq![' '] + seq!['$'], '$');
        }
        lemma_count_char_concat(vals[0].0@, eq, '$');
        lemma_count_char_concat(vals[0].0@ + eq, int_dec_str(idx), '$');
        if vals.len() == 1 {
        } else {
            assert(dollar_free_vals(vals.skip(1))) by {
                assert(forall|i: int|
                    0 <= i < vals.skip(1).len() ==> #[trigger] vals.skip(1)[i] == vals[i + 1]);
            }
            lemma_set_text_dollars(vals.skip(1), idx + 1);
            assert(count_char(", "@, '$') == 0) by {
                lemma_count_char_zero(", "@, '$');
            }
            lemma_count_char_concat(vals[0].0@ + eq + int_dec_str(idx), ", "@, '$');
            lemma_count_char_concat(
                vals[0].0@ + eq + int_dec_str(idx) + ", "@,
                set_text(vals.skip(1), idx + 1),
                '$',
            );
        }
    }
}

/// Positional consistency of a whole update statement: with `M` values to
/// set and `N` registered comparisons, the argument list holds `M + N`
/// values, SET placeholders are numbered before WHERE placeholders, and
/// (when neither the column names nor the extra fragment hold a `$` of
/// their own) the text holds exactly one placeholder mark per argument.
pub proof fn lemma_update_positional(v: UpdateBuilderView)
    requires
        v.values.len() > 0,
        dollar_free_vals(v.values),
        dollar_free_columns(flat_cmps(v.filters.filters)),
        count_char(v.filters.table@, '$') == 0,
        count_char(v.extra@, '$') == 0,
    ensures
        (vals_args(v.values) + where_args(flat_cmps(v.filters.filters))).len() == v.values.len()
            + flat_cmps(v.filters.filters).len(),
        count_char(update_sql(v), '$') == v.values.len() + flat_cmps(v.filters.filters).len(),
{
    reveal_strlit("UPDATE ");
    reveal_strlit(" SET ");
    reveal_strlit(" WHERE ");
    reveal_strlit(" ");
    reveal_strlit(" RETURNING *;");
    let cs = flat_cmps(v.filters.filters);
    let m = v.values.len() as int;
    lemma_set_text_dollars(v.values, 1);
    lemma_where_positional(cs, m + 1);
    assert(count_char("UPDATE "@, '$') == 0) by {
        lemma_count_char_zero("UPDATE "@, '$');
    }
    assert(count_char(" SET "@, '$') == 0) by {
        lemma_count_char_zero(" SET "@, '$');
    }
    assert(count_char(" WHERE "@, '$') == 0) by {
        lemma_count_char_zero(" WHERE "@, '$');
    }
    assert(count_char(" "@, '$') == 0) by {
        lemma_count_char_zero(" "@, '$');
    }
    assert(count_char(" RETURNING *;"@, '$') == 0) by {
        lemma_count_char_zero(" RETURNING *;"@, '$');
    }
    assert(count_char(where_part(v.filters.filters, m + 1), '$') == cs.len()) by {
        if cs.len() > 0 {
            lemma_count_char_concat(" WHERE "@, where_text(cs, m + 1), '$');
        }
    }
    assert(count_char(extra_part(v.extra), '$') == 0) by {
        if v.extra@.len() > 0 {
            lemma_count_char_concat(" "@, v.extra@, '$');
        }
    }
    lemma_count_char_concat("UPDATE "@, v.filters.table@, '$');
    lemma_count_char_concat("UPDATE "@ + v.filters.table@, " SET "@, '$');
    lemma_count_char_concat("UPDATE "@ + v.filters.table@ + " SET "@, set_text(v.values, 1), '$');
    lemma_count_char_concat(
        "UPDATE "@ + v.filters.table@ + " SET "@ + set_text(v.values, 1),
        where_part(v.filters.filters, m + 1),
        '$',
    );
    lemma_count_char_concat(
        "UPDATE "@ + v.filters.table@ + " SET "@ + set_text(v.values, 1) + where_part(
            v.filters.filters,
            m + 1,
        ),
        extra_part(v.extra),
        '$',
    );
    lemma_count_char_concat(
        "UPDATE "@ + v.filters.table@ + " SET "@ + set_text(v.values, 1) + where_part(
            v.filters.filters,
            m + 1,
        ) + extra_part(v.extra),
        " RETURNING *;"@,
        '$',
    );
}

} // verus!
