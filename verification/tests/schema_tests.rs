use pantry_service::error::AppError;
use pantry_service::item::AttrMap;
use pantry_service::jwt::validate_token;
use pantry_service::pantry::{Address, OptStatus};
use pantry_service::pantry_access::AccessLevel;
use pantry_service::schema::{MutationRoot, QueryRoot};
use pantry_service::tables;

const NOW: i64 = 1704164645;
const SECRET: &str = "SECRET-REDACTED";

#[test]
fn create_user_then_lookup_by_email_then_delete() {
    let (user, item) =
        MutationRoot::create_user("a@b.com".to_string(), "pw-1", "Ada".to_string(), "Lovelace".to_string(), NOW)
            .expect("created");
    assert_eq!(user.email.as_str(), "a@b.com");
    assert_eq!(user.id.len(), 36);

    // the store would index this item by email; a query returns it
    let found = QueryRoot::user_by_email(&vec![item], NOW).expect("found");
    assert_eq!(found, user);

    // deletion is keyed by email; after it the query returns nothing
    let key = MutationRoot::delete_user_key("a@b.com".to_string());
    assert_eq!(key.get_s("email").map(|s| s.as_str()), Some("a@b.com"));
    let gone = QueryRoot::user_by_email(&vec![], NOW);
    assert!(matches!(gone, Err(AppError::NotFound(_))));
}

#[test]
fn users_scan_skips_unmappable_records() {
    let (user_a, item_a) =
        MutationRoot::create_user("a@b.com".to_string(), "pw-1", "Ada".to_string(), "L".to_string(), NOW)
            .expect("created");
    let (user_b, item_b) =
        MutationRoot::create_user("c@d.com".to_string(), "pw-2", "Bob".to_string(), "M".to_string(), NOW)
            .expect("created");
    let mut broken = AttrMap::new();
    broken.insert_s("id", "no-email-here".to_string());

    let users = QueryRoot::users(&vec![item_a, broken, item_b], NOW);
    assert_eq!(users, vec![user_a, user_b]);
}

#[test]
fn user_by_id_distinguishes_missing_from_corrupt() {
    let (user, item) =
        MutationRoot::create_user("a@b.com".to_string(), "pw-1", "Ada".to_string(), "L".to_string(), NOW)
            .expect("created");
    assert_eq!(QueryRoot::user_by_id(Some(&item), NOW).expect("found"), user);
    assert!(matches!(QueryRoot::user_by_id(None, NOW), Err(AppError::NotFound(_))));
    let mut corrupt = AttrMap::new();
    corrupt.insert_s("id", user.id.clone());
    assert!(matches!(QueryRoot::user_by_id(Some(&corrupt), NOW), Err(AppError::DatabaseError(_))));
}

#[test]
fn login_issues_token_for_right_password_only() {
    let (user, _item) =
        MutationRoot::create_user("a@b.com".to_string(), "pw-1", "Ada".to_string(), "L".to_string(), NOW)
            .expect("created");

    let (subject, token) =
        MutationRoot::login(Some(&user), "pw-1", SECRET, 1700000000).expect("login succeeds");
    assert_eq!(subject, user.id);
    let claims = validate_token(SECRET, &token, 1700000000).expect("token valid");
    assert_eq!(claims.sub, user.id);
    assert_eq!(claims.email.as_str(), "a@b.com");

    let wrong = MutationRoot::login(Some(&user), "pw-2", SECRET, 1700000000);
    assert!(matches!(wrong, Err(AppError::Unauthorized(_))));
    let unknown = MutationRoot::login(None, "pw-1", SECRET, 1700000000);
    assert!(matches!(unknown, Err(AppError::Unauthorized(_))));
}

#[test]
fn create_pantry_roundtrips_through_its_item() {
    let address = Address {
        street: "1 Main St".to_string(),
        unit: None,
        city: "Springfield".to_string(),
        state: "IL".to_string(),
        zipcode: "62701".to_string(),
    };
    let (pantry, item) = MutationRoot::create_pantry(
        "North Pantry".to_string(),
        OptStatus::T3,
        address,
        true,
        "555-0100".to_string(),
        "pantry@example.org".to_string(),
        NOW,
    )
    .expect("created");
    assert_eq!(pantry.id.len(), 36);
    assert_eq!(pantry.is_self_managed.as_str(), "true");
    assert_eq!(
        pantry_service::pantry::Pantry::from_item(&item, 0).as_ref(),
        Some(&pantry)
    );
}

#[test]
fn email_query_shape_is_exact() {
    let q = QueryRoot::user_by_email_query("a@b.com".to_string());
    assert_eq!(q.table.as_str(), "Users");
    assert_eq!(q.index.as_str(), "EmailIndex");
    assert_eq!(q.key_condition.as_str(), "email = :email");
    assert_eq!(q.params, vec![(":email".to_string(), "a@b.com".to_string())]);
}

#[test]
fn access_pattern_query_shapes() {
    let by_role = QueryRoot::users_by_role_query("admin".to_string());
    assert_eq!((by_role.table.as_str(), by_role.index.as_str()), ("Users", "RoleIndex"));

    let self_managed = QueryRoot::self_managed_pantries_query("true".to_string());
    assert_eq!(
        (self_managed.table.as_str(), self_managed.index.as_str()),
        ("Pantries", "SelfManagedIndex")
    );

    let by_user = QueryRoot::pantries_by_user_query("uid-1".to_string());
    assert_eq!((by_user.table.as_str(), by_user.index.as_str()), ("PantryAccess", "UserAccessIndex"));
    assert_eq!(by_user.params, vec![(":user_id".to_string(), "uid-1".to_string())]);

    let by_level = QueryRoot::users_by_access_level_query("p-1".to_string(), &AccessLevel::Manager);
    assert_eq!(by_level.index.as_str(), "AccessLevelIndex");
    assert_eq!(
        by_level.params,
        vec![
            (":pantry_id".to_string(), "p-1".to_string()),
            (":access_level".to_string(), "Manager".to_string()),
        ]
    );

    let agents = QueryRoot::contact_agents_query("p-1".to_string());
    assert_eq!(agents.index.as_str(), "ContactAgentIndex");
}

#[test]
fn table_specs_carry_the_key_schemas() {
    let system = tables::pantry_system();
    assert_eq!(system.name.as_str(), "PantrySystem");
    assert_eq!(system.hash_key.as_str(), "PK");
    assert_eq!(system.range_key.as_deref(), Some("SK"));
    let index_names: Vec<&str> = system.indexes.iter().map(|ix| ix.name.as_str()).collect();
    assert_eq!(
        index_names,
        vec!["UserAccessIndex", "PantryManagementIndex", "SelfManagedPantryIndex", "EmailLookupIndex"]
    );

    let users = tables::users();
    assert_eq!(users.hash_key.as_str(), "user_id");
    assert_eq!(users.indexes.len(), 2);

    let access = tables::pantry_access();
    assert_eq!(access.hash_key.as_str(), "pantry_id");
    assert_eq!(access.range_key.as_deref(), Some("user_id"));
    assert_eq!(access.indexes.len(), 3);

    let early = tables::usertt();
    assert_eq!(early.hash_key.as_str(), "id");
    assert_eq!(early.indexes[0].name.as_str(), "EmailIndex");
}

#[test]
fn tables_to_create_skips_existing_ones() {
    let none_exist: Vec<String> = vec![];
    let all = tables::tables_to_create(&none_exist);
    let names: Vec<&str> = all.iter().map(|t| t.name.as_str()).collect();
    assert_eq!(names, vec!["PantrySystem", "Users", "Pantries", "PantryAccess"]);

    let some = vec!["Users".to_string(), "PantryAccess".to_string()];
    let missing = tables::tables_to_create(&some);
    let names: Vec<&str> = missing.iter().map(|t| t.name.as_str()).collect();
    assert_eq!(names, vec!["PantrySystem", "Pantries"]);

    let every = vec![
        "PantrySystem".to_string(),
        "Users".to_string(),
        "Pantries".to_string(),
        "PantryAccess".to_string(),
    ];
    assert!(tables::tables_to_create(&every).is_empty());
}

#[test]
fn build_helper_adds_context_to_failures() {
    let ok: Result<u32, String> = Ok(7);
    assert_eq!(tables::build(ok, "making key"), Ok(7));
    let err: Result<u32, String> = Err("boom".to_string());
    match tables::build(err, "making key") {
        Err(AppError::DatabaseError(m)) => assert_eq!(m.as_str(), "making key: boom"),
        other => panic!("wrong mapping: {:?}", other),
    }
}

#[test]
fn error_codes_and_statuses_are_exact() {
    let not_found = AppError::NotFound("x".to_string());
    assert_eq!(not_found.code(), "NOT_FOUND");
    assert_eq!(not_found.graphql_status(), 404);
    assert_eq!(not_found.http_status(), 404);
    assert_eq!(not_found.message().as_str(), "x");

    let env = AppError::EnvError("missing".to_string());
    assert_eq!(env.code(), "ENV_ERROR");
    assert_eq!(env.graphql_status(), 404);
    assert_eq!(env.http_status(), 500);

    let unauthorized = AppError::Unauthorized("no".to_string());
    assert_eq!(unauthorized.code(), "UNAUTHORIZED");
    assert_eq!(unauthorized.graphql_status(), 401);

    let validation = AppError::ValidationError("bad".to_string());
    assert_eq!(validation.code(), "VALIDATION_ERROR");
    assert_eq!(validation.graphql_status(), 400);

    let forbidden = AppError::Forbidden("no".to_string());
    assert_eq!((forbidden.graphql_status(), forbidden.http_status()), (403, 403));

    let db = AppError::DatabaseError("oops".to_string());
    assert_eq!(db.code(), "INTERNAL_SERVER_ERROR");
    assert_eq!(db.http_status(), 500);

    let external = AppError::ExternalServiceError("down".to_string());
    assert_eq!(external.http_status(), 502);

    let internal = AppError::InternalServerError("bug".to_string());
    assert_eq!((internal.code(), internal.http_status()), ("INTERNAL_SERVER_ERROR", 500));
}

#[test]
fn access_level_codec_exact() {
    assert_eq!(AccessLevel::Admin.to_str(), "Admin");
    assert_eq!(AccessLevel::from_string("Viewer"), Ok(AccessLevel::Viewer));
    assert!(matches!(AccessLevel::from_string("Owner"), Err(AppError::ValidationError(_))));
}
