use stq_core::acl::{AclEngine, ForbiddenACL, SystemACL};
use stq_core::repo::{
    exactly_one, Action, DbOutcome, DbRow, FromRow, MultipleOperationError, RepoError,
    ScriptedConn, SuRepo, query_debug,
};
use stq_core::roles::{DummyRoleUpdater, RoleEntry, RoleSearchTerms};
use stq_core::statement::SqlValue;
use stq_core::types::{RoleEntryId, UserId, UsersRole};

type TestRepo = SuRepo<DbRow, RoleEntry<UsersRole>, RoleSearchTerms<UsersRole>, DummyRoleUpdater>;

fn row(tag: i64) -> DbRow {
    DbRow {
        columns: vec![(String::from("tag"), SqlValue::Int(tag))],
    }
}

fn ok_rows(tags: &[i64]) -> Result<(Vec<DbRow>, u32), (RepoError, u32)> {
    Ok((tags.iter().map(|t| row(*t)).collect(), 77))
}

#[test]
fn exactly_one_with_no_rows_is_no_data() {
    let r = exactly_one(ok_rows(&[]));
    match r {
        Err((RepoError::Multiple(MultipleOperationError::NoData), conn)) => assert_eq!(conn, 77),
        _ => panic!("expected NoData"),
    }
}

#[test]
fn exactly_one_with_two_rows_reports_one_extra() {
    let r = exactly_one(ok_rows(&[1, 2]));
    match r {
        Err((RepoError::Multiple(MultipleOperationError::ExtraData { extra }), conn)) => {
            assert_eq!(extra, 1);
            assert_eq!(conn, 77);
        }
        _ => panic!("expected ExtraData"),
    }
}

#[test]
fn exactly_one_with_one_row_returns_it() {
    let r = exactly_one(ok_rows(&[5]));
    match r {
        Ok((row, conn)) => {
            assert_eq!(conn, 77);
            match row.get("tag") {
                Some(SqlValue::Int(v)) => assert_eq!(*v, 5),
                _ => panic!("bad row"),
            }
        }
        _ => panic!("expected one row"),
    }
}

#[test]
fn exactly_one_hands_failures_through() {
    let r = exactly_one::<DbRow, u32>(Err((RepoError::Mapping, 3)));
    match r {
        Err((RepoError::Mapping, conn)) => assert_eq!(conn, 3),
        _ => panic!("expected the same failure"),
    }
}

#[test]
fn complete_returns_the_connection_on_every_failure() {
    let repo: TestRepo = SuRepo::new("things");
    let sql = String::from("SELECT * FROM things;");
    let args: Vec<SqlValue> = vec![];

    // prepare failure
    let r = repo.complete(
        41u64,
        Action::Select,
        &sql,
        &args,
        DbOutcome::PrepareFailed(String::from("boom")),
    );
    match r {
        Err((RepoError::Prepare { message, context }, conn)) => {
            assert_eq!(conn, 41);
            assert_eq!(message, "boom");
            assert_eq!(context, "Query: SELECT * FROM things;. Args: ");
        }
        _ => panic!("expected a prepare failure"),
    }

    // query failure
    let r = repo.complete(
        42u64,
        Action::Select,
        &sql,
        &args,
        DbOutcome::QueryFailed(String::from("later boom")),
    );
    match r {
        Err((RepoError::Query { message, context }, conn)) => {
            assert_eq!(conn, 42);
            assert_eq!(message, "later boom");
            assert_eq!(context, "Query: SELECT * FROM things;. Args: ");
        }
        _ => panic!("expected a query failure"),
    }

    // success also returns the same connection
    let r = repo.complete(43u64, Action::Select, &sql, &args, DbOutcome::Rows(vec![row(1)]));
    match r {
        Ok((rows, conn)) => {
            assert_eq!(conn, 43);
            assert_eq!(rows.len(), 1);
        }
        _ => panic!("expected rows"),
    }
}

#[test]
fn mapping_failure_returns_the_connection() {
    let repo: SuRepo<
        RoleEntry<UsersRole>,
        RoleEntry<UsersRole>,
        RoleSearchTerms<UsersRole>,
        DummyRoleUpdater,
    > = SuRepo::new("roles");
    let sql = String::from("SELECT * FROM roles;");
    let args: Vec<SqlValue> = vec![];
    // a row without the entry's columns cannot be mapped
    let r = repo.complete(9u8, Action::Select, &sql, &args, DbOutcome::Rows(vec![row(1)]));
    match r {
        Err((RepoError::Mapping, conn)) => assert_eq!(conn, 9),
        _ => panic!("expected a mapping failure"),
    }
}

#[test]
fn forbidden_afterop_rejects_the_whole_batch() {
    let repo = TestRepo::new("things").with_afterop_acl_engine(ForbiddenACL);
    let sql = String::from("SELECT * FROM things;");
    let args: Vec<SqlValue> = vec![];
    let r = repo.complete(5i32, Action::Select, &sql, &args, DbOutcome::Rows(vec![row(1)]));
    match r {
        Err((RepoError::Unauthorized, conn)) => assert_eq!(conn, 5),
        _ => panic!("expected a denial"),
    }
    // an empty batch has no row to reject
    let r = repo.complete(6i32, Action::Select, &sql, &args, DbOutcome::Rows(vec![]));
    match r {
        Ok((rows, conn)) => {
            assert!(rows.is_empty());
            assert_eq!(conn, 6);
        }
        _ => panic!("expected an empty success"),
    }
}

#[test]
fn scripted_connection_drives_the_full_pipeline() {
    let repo: SuRepo<
        RoleEntry<UsersRole>,
        RoleEntry<UsersRole>,
        RoleSearchTerms<UsersRole>,
        DummyRoleUpdater,
    > = SuRepo::new("roles");
    let conn = ScriptedConn::new(vec![DbOutcome::Rows(vec![DbRow {
        columns: vec![
            (String::from("id"), SqlValue::Uuid(11)),
            (String::from("user_id"), SqlValue::Int(1)),
            (String::from("role"), SqlValue::Int(2)),
        ],
    }])]);
    let r = repo.select(conn, RoleSearchTerms::Meta(UserId(1), None));
    match r {
        Ok((entries, conn)) => {
            assert_eq!(entries.len(), 1);
            assert_eq!(entries[0].id, RoleEntryId(11));
            assert_eq!(entries[0].user_id, UserId(1));
            assert_eq!(entries[0].role, UsersRole::User);
            assert!(conn.script.is_empty());
        }
        _ => panic!("expected one entry"),
    }
}

#[test]
fn scripted_connection_reports_an_exhausted_script() {
    let repo: SuRepo<
        RoleEntry<UsersRole>,
        RoleEntry<UsersRole>,
        RoleSearchTerms<UsersRole>,
        DummyRoleUpdater,
    > = SuRepo::new("roles");
    let conn = ScriptedConn::new(vec![]);
    let r = repo.select(conn, RoleSearchTerms::Meta(UserId(1), None));
    match r {
        Err((RepoError::Prepare { message, context }, _conn)) => {
            assert_eq!(message, "script exhausted");
            assert_eq!(
                context,
                "Query: SELECT * FROM roles WHERE user_id = $1;. Args: $1 = 1"
            );
        }
        _ => panic!("expected a prepare failure"),
    }
}

#[test]
fn query_debug_renders_statement_and_arguments() {
    let args = vec![
        SqlValue::Int(-3),
        SqlValue::Text(String::from("x")),
        SqlValue::Bool(true),
        SqlValue::Uuid(9),
    ];
    let s = query_debug("SELECT 1;", &args);
    assert_eq!(
        s,
        "Query: SELECT 1;. Args: $1 = -3, $2 = \"x\", $3 = true, $4 = 00000000-0000-0000-0000-000000000009"
    );
}

#[test]
fn system_acl_allows_and_forbidden_acl_denies() {
    let (ok, ctx) = SystemACL.allows(10);
    assert!(ok);
    assert_eq!(ctx, 10);
    let (ok, ctx) = ForbiddenACL.allows(10);
    assert!(!ok);
    assert_eq!(ctx, 10);
    assert!(SystemACL.ensure_access(5).is_ok());
    match ForbiddenACL.ensure_access(5) {
        Err((_, ctx)) => assert_eq!(ctx, 5),
        _ => panic!("expected a denial"),
    }
}
