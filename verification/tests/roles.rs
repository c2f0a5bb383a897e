use stq_core::repo::{Action, DbOutcome, DbRow, FromRow, RepoError, ScriptedConn};
use stq_core::roles::{
    check_acl, dispatch, make_repo, make_su_repo, HttpMethod, RepoLogin, RoleCommand, RoleEntry,
    RoleModel, RoleSearchTerms, Route,
};
use stq_core::routes::RouteBuilder;
use stq_core::statement::SqlValue;
use stq_core::types::{RoleEntryId, StoresRole, UserId, UsersRole};

fn entry(user: i32, role: UsersRole) -> RoleEntry<UsersRole> {
    RoleEntry {
        id: RoleEntryId(user as u128),
        user_id: UserId(user),
        role,
    }
}

fn role_row(id: u128, user: i64, key: i64) -> DbRow {
    DbRow {
        columns: vec![
            (String::from("id"), SqlValue::Uuid(id)),
            (String::from("user_id"), SqlValue::Int(user)),
            (String::from("role"), SqlValue::Int(key)),
        ],
    }
}

#[test]
fn anonymous_callers_are_denied() {
    let login: RepoLogin<UsersRole> = RepoLogin::Anonymous;
    assert!(!check_acl(&login, &entry(1, UsersRole::User), Action::Select));
    assert!(!check_acl(&login, &entry(1, UsersRole::User), Action::Insert));
}

#[test]
fn superusers_may_do_anything() {
    let login = RepoLogin::User {
        caller_id: UserId(9),
        caller_roles: vec![entry(9, UsersRole::Superuser)],
    };
    assert!(check_acl(&login, &entry(1, UsersRole::User), Action::Delete));
    assert!(check_acl(&login, &entry(1, UsersRole::User), Action::Select));
}

#[test]
fn plain_users_may_only_see_their_own_roles() {
    let login = RepoLogin::User {
        caller_id: UserId(9),
        caller_roles: vec![entry(9, UsersRole::User)],
    };
    assert!(check_acl(&login, &entry(9, UsersRole::User), Action::Select));
    assert!(!check_acl(&login, &entry(1, UsersRole::User), Action::Select));
    assert!(!check_acl(&login, &entry(9, UsersRole::User), Action::Delete));
}

#[test]
fn role_statements_render_for_each_search_term() {
    let repo = make_su_repo::<UsersRole>();
    let (sql, args) = repo
        .insert_statement(entry(4, UsersRole::Moderator))
        .unwrap();
    assert_eq!(
        sql,
        "INSERT INTO roles (id, role, user_id) VALUES ($1, $2, $3) RETURNING *;"
    );
    assert_eq!(
        args,
        vec![SqlValue::Uuid(4), SqlValue::Int(3), SqlValue::Int(4)]
    );

    let (sql, args) = repo
        .select_statement(RoleSearchTerms::Meta(UserId(4), None))
        .unwrap();
    assert_eq!(sql, "SELECT * FROM roles WHERE user_id = $1;");
    assert_eq!(args, vec![SqlValue::Int(4)]);

    let (sql, args) = repo
        .delete_statement(RoleSearchTerms::Meta(UserId(4), Some(UsersRole::User)))
        .unwrap();
    assert_eq!(
        sql,
        "DELETE FROM roles WHERE role = $1 AND user_id = $2 RETURNING *;"
    );
    assert_eq!(args, vec![SqlValue::Int(2), SqlValue::Int(4)]);

    let (sql, args) = repo
        .delete_statement(RoleSearchTerms::Id(RoleEntryId(8)))
        .unwrap();
    assert_eq!(sql, "DELETE FROM roles WHERE id = $1 RETURNING *;");
    assert_eq!(args, vec![SqlValue::Uuid(8)]);
}

#[test]
fn role_rows_map_back_to_entries() {
    let e = RoleEntry::<UsersRole>::from_row(role_row(12, 7, 1)).unwrap();
    assert_eq!(e.id, RoleEntryId(12));
    assert_eq!(e.user_id, UserId(7));
    assert_eq!(e.role, UsersRole::Superuser);

    // an unknown role key is a row of the wrong shape
    assert!(RoleEntry::<UsersRole>::from_row(role_row(12, 7, 99)).is_none());
    // so is a missing column
    let partial = DbRow {
        columns: vec![(String::from("id"), SqlValue::Uuid(1))],
    };
    assert!(RoleEntry::<UsersRole>::from_row(partial).is_none());
}

#[test]
fn a_single_foreign_row_rejects_the_whole_batch() {
    let repo = make_repo(RepoLogin::User {
        caller_id: UserId(1),
        caller_roles: vec![entry(1, UsersRole::User)],
    });
    let conn = ScriptedConn::new(vec![DbOutcome::Rows(vec![
        role_row(10, 1, 2),
        role_row(11, 2, 2),
    ])]);
    let r = repo.select(conn, RoleSearchTerms::Meta(UserId(1), None));
    match r {
        Err((RepoError::Unauthorized, conn)) => assert!(conn.script.is_empty()),
        _ => panic!("expected the batch to be rejected"),
    }
}

#[test]
fn own_rows_pass_the_per_row_check() {
    let repo = make_repo(RepoLogin::User {
        caller_id: UserId(1),
        caller_roles: vec![entry(1, UsersRole::User)],
    });
    let conn = ScriptedConn::new(vec![DbOutcome::Rows(vec![
        role_row(10, 1, 2),
        role_row(11, 1, 3),
    ])]);
    let r = repo.select(conn, RoleSearchTerms::Meta(UserId(1), None));
    match r {
        Ok((entries, _conn)) => {
            assert_eq!(entries.len(), 2);
            assert_eq!(entries[1].role, UsersRole::Moderator);
        }
        _ => panic!("expected the batch to pass"),
    }
}

#[test]
fn role_keys_round_trip() {
    for role in [
        StoresRole::Superuser,
        StoresRole::User,
        StoresRole::Moderator,
        StoresRole::PlatformAdmin,
    ] {
        assert_eq!(StoresRole::of_key(role.key()), Some(role));
    }
    assert!(StoresRole::of_key(0).is_none());
    assert!(StoresRole::of_key(5).is_none());
    assert!(StoresRole::Superuser.is_su());
    assert!(!StoresRole::Moderator.is_su());
}

#[test]
fn role_routes_render_their_paths() {
    assert_eq!(Route::Roles.route(), "roles");
    assert_eq!(
        Route::RoleById(RoleEntryId(15)).route(),
        "roles/by-id/00000000-0000-0000-0000-00000000000f"
    );
    assert_eq!(Route::RolesByUserId(UserId(7)).route(), "roles/by-user-id/7");
    assert_eq!(
        Route::RolesByUserId(UserId(7)).build_route(Some("http://orders")),
        "http://orders/roles/by-user-id/7"
    );
    assert_eq!(Route::Roles.build_route(None), "roles");
}

#[test]
fn the_controller_dispatches_by_method_and_route() {
    assert_eq!(
        dispatch(HttpMethod::Get, Route::RolesByUserId(UserId(4))),
        Some(RoleCommand::ListForUser(UserId(4)))
    );
    assert_eq!(
        dispatch(HttpMethod::Post, Route::Roles),
        Some(RoleCommand::CreateFromBody)
    );
    assert_eq!(
        dispatch(HttpMethod::Delete, Route::RolesByUserId(UserId(4))),
        Some(RoleCommand::RemoveForUserFromBody(UserId(4)))
    );
    assert_eq!(
        dispatch(HttpMethod::Delete, Route::RoleById(RoleEntryId(5))),
        Some(RoleCommand::RemoveById(RoleEntryId(5)))
    );
    assert_eq!(dispatch(HttpMethod::Get, Route::Roles), None);
    assert_eq!(dispatch(HttpMethod::Post, Route::RoleById(RoleEntryId(5))), None);
}

#[test]
fn fresh_role_entry_ids_differ() {
    let a = RoleEntryId::new();
    let b = RoleEntryId::new();
    assert_ne!(a.0, b.0);
}
