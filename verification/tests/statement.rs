use stq_core::statement::{
    FilteredOperation, FilteredOperationBuilder, Range, RangeLimit, SelectOperation, SqlValue,
    UpdateBuilder,
};

#[test]
fn test_select_builder() {
    let expectation = (
        "SELECT count(*) FROM my_table WHERE filter_column1 = $1 AND filter_column2 > $2 AND filter_column2 <= $3 LIMIT 5;",
        vec![SqlValue::Int(3), SqlValue::Int(25), SqlValue::Int(125)],
    );

    let res = FilteredOperationBuilder::new("my_table")
        .with_filter("filter_column1", Range::Exact(SqlValue::Int(3)))
        .with_filter(
            "filter_column2",
            Range::Between(
                RangeLimit {
                    value: SqlValue::Int(25),
                    inclusive: false,
                },
                RangeLimit {
                    value: SqlValue::Int(125),
                    inclusive: true,
                },
            ),
        )
        .build(FilteredOperation::Select {
            op: Some(SelectOperation::Count),
            limit: Some(5),
        });

    assert_eq!(res.0, expectation.0);
    assert_eq!(res.1, expectation.1);
}

#[test]
fn test_update_builder() {
    let res = UpdateBuilder::from_filters(
        FilteredOperationBuilder::new("my_table")
            .with_filter("filter_column1", Range::Exact(SqlValue::Int(3)))
            .with_filter(
                "filter_column2",
                Range::Between(
                    RangeLimit {
                        value: SqlValue::Int(25),
                        inclusive: false,
                    },
                    RangeLimit {
                        value: SqlValue::Int(125),
                        inclusive: true,
                    },
                ),
            ),
    )
    .with_value("value_column1", SqlValue::Int(1))
    .with_value("value_column2", SqlValue::Int(2))
    .build();

    let expectation = (
        "UPDATE my_table SET value_column1 = $1, value_column2 = $2 WHERE filter_column1 = $3 AND filter_column2 > $4 AND filter_column2 <= $5 RETURNING *;",
        vec![
            SqlValue::Int(1),
            SqlValue::Int(2),
            SqlValue::Int(3),
            SqlValue::Int(25),
            SqlValue::Int(125),
        ],
    );

    assert_eq!(res.0, expectation.0);
    assert_eq!(res.1, expectation.1);
}

#[test]
fn build_is_deterministic_across_registration_order() {
    let a = FilteredOperationBuilder::new("t")
        .with_filter("a", Range::Exact(SqlValue::Int(1)))
        .with_filter("b", Range::Exact(SqlValue::Int(2)))
        .build(FilteredOperation::Select { op: None, limit: None });
    let b = FilteredOperationBuilder::new("t")
        .with_filter("b", Range::Exact(SqlValue::Int(2)))
        .with_filter("a", Range::Exact(SqlValue::Int(1)))
        .build(FilteredOperation::Select { op: None, limit: None });
    assert_eq!(a.0, b.0);
    assert_eq!(a.1, b.1);
    assert_eq!(a.0, "SELECT * FROM t WHERE a = $1 AND b = $2;");
}

#[test]
fn placeholders_match_argument_positions() {
    let (sql, args) = UpdateBuilder::new("t")
        .with_value("x", SqlValue::Int(10))
        .with_value("y", SqlValue::Int(20))
        .with_filter("a", Range::Exact(SqlValue::Int(1)))
        .with_filter(
            "b",
            Range::Between(
                RangeLimit { value: SqlValue::Int(2), inclusive: true },
                RangeLimit { value: SqlValue::Int(3), inclusive: false },
            ),
        )
        .build();
    let dollars = sql.chars().filter(|c| *c == '$').count();
    assert_eq!(dollars, args.len());
    for k in 1..=args.len() {
        let marker = format!("${}", k);
        assert!(sql.contains(&marker));
    }
}

#[test]
fn update_without_values_degrades_to_select() {
    let updated = UpdateBuilder::new("t")
        .with_filter("a", Range::Exact(SqlValue::Int(1)))
        .build();
    let selected = FilteredOperationBuilder::new("t")
        .with_arg("a", SqlValue::Int(1))
        .build(FilteredOperation::Select { op: None, limit: None });
    assert_eq!(updated.0, selected.0);
    assert_eq!(updated.1, selected.1);
    assert_eq!(updated.0, "SELECT * FROM t WHERE a = $1;");
}

#[test]
fn between_renders_by_inclusivity() {
    let (sql, args) = FilteredOperationBuilder::new("t")
        .with_filter(
            "c",
            Range::Between(
                RangeLimit { value: SqlValue::Int(5), inclusive: false },
                RangeLimit { value: SqlValue::Int(9), inclusive: true },
            ),
        )
        .build(FilteredOperation::Select { op: None, limit: None });
    assert_eq!(sql, "SELECT * FROM t WHERE c > $1 AND c <= $2;");
    assert_eq!(args, vec![SqlValue::Int(5), SqlValue::Int(9)]);
}

#[test]
fn count_orders_for_store() {
    let (sql, args) = FilteredOperationBuilder::new("orders")
        .with_filter("store_id", Range::Exact(SqlValue::Int(7)))
        .build(FilteredOperation::Select {
            op: Some(SelectOperation::Count),
            limit: Some(5),
        });
    assert_eq!(sql, "SELECT count(*) FROM orders WHERE store_id = $1 LIMIT 5;");
    assert_eq!(args, vec![SqlValue::Int(7)]);
}

#[test]
fn same_column_registrations_accumulate() {
    let (sql, args) = FilteredOperationBuilder::new("t")
        .with_filter(
            "c",
            Range::From(RangeLimit { value: SqlValue::Int(1), inclusive: true }),
        )
        .with_filter(
            "c",
            Range::To(RangeLimit { value: SqlValue::Int(9), inclusive: false }),
        )
        .build(FilteredOperation::Select { op: None, limit: None });
    assert_eq!(sql, "SELECT * FROM t WHERE c >= $1 AND c < $2;");
    assert_eq!(args, vec![SqlValue::Int(1), SqlValue::Int(9)]);
}

#[test]
fn insert_builder_renders_sorted_columns() {
    let (sql, args) = stq_core::statement::InsertBuilder::new("t")
        .with_arg("b", SqlValue::Text(String::from("hi")))
        .with_arg("a", SqlValue::Bool(true))
        .build();
    assert_eq!(sql, "INSERT INTO t (a, b) VALUES ($1, $2) RETURNING *;");
    assert_eq!(
        args,
        vec![SqlValue::Bool(true), SqlValue::Text(String::from("hi"))]
    );
}

#[test]
fn insert_builder_replaces_repeated_column() {
    let (sql, args) = stq_core::statement::InsertBuilder::new("t")
        .with_arg("a", SqlValue::Int(1))
        .with_arg("a", SqlValue::Int(2))
        .build();
    assert_eq!(sql, "INSERT INTO t (a) VALUES ($1) RETURNING *;");
    assert_eq!(args, vec![SqlValue::Int(2)]);
}

#[test]
fn delete_returns_removed_rows() {
    let (sql, args) = FilteredOperationBuilder::new("t")
        .with_filter("a", Range::Exact(SqlValue::Uuid(7)))
        .build(FilteredOperation::Delete);
    assert_eq!(sql, "DELETE FROM t WHERE a = $1 RETURNING *;");
    assert_eq!(args, vec![SqlValue::Uuid(7)]);
}

#[test]
fn extra_fragment_is_appended_before_the_tail() {
    let (sql, _) = FilteredOperationBuilder::new("t")
        .with_extra("ORDER BY a")
        .build(FilteredOperation::Select { op: None, limit: Some(2) });
    assert_eq!(sql, "SELECT * FROM t ORDER BY a LIMIT 2;");
}
