use app_catalog::api::create_app;
use app_catalog::api::get_own_apps;
use app_catalog::api::user_register;
use app_catalog::api::CreateAppOutcome;
use app_catalog::api::CreateAppRequest;
use app_catalog::api::GetOwnAppsOutcome;
use app_catalog::api::RegisterOutcome;
use app_catalog::api::RegisterRequest;
use app_catalog::apps::AppStore;
use app_catalog::dberror::DbError;
use app_catalog::token::JwtManager;
use app_catalog::users::User;
use app_catalog::users::UserStore;

const NOW: u64 = 1_700_000_000;

fn request(username: &str, email: &str) -> RegisterRequest {
    RegisterRequest {
        username: username.to_string(),
        email: email.to_string(),
        password: "password1".to_string(),
        terms: true,
    }
}

#[test]
fn register_rejects_bad_input() {
    let mut store = UserStore::new();
    let r = user_register(&mut store, &request("ab", "a@b.com"), NOW);
    assert_eq!(r, RegisterOutcome::InvalidUsername);
    assert_eq!(r.status_code(), 400);

    let r = user_register(&mut store, &request("alice", "a@b"), NOW);
    assert_eq!(r, RegisterOutcome::InvalidEmail);

    let mut req = request("alice", "a@b.com");
    req.password = "short".to_string();
    assert_eq!(user_register(&mut store, &req, NOW), RegisterOutcome::PasswordTooShort);

    // the minimum counts bytes: seven bytes in four characters is too short
    let mut req = request("alice", "a@b.com");
    req.password = "\u{e9}\u{e9}\u{e9}a".to_string();
    assert_eq!(req.password.len(), 7);
    assert_eq!(user_register(&mut store, &req, NOW), RegisterOutcome::PasswordTooShort);

    let mut req = request("alice", "a@b.com");
    req.terms = false;
    assert_eq!(user_register(&mut store, &req, NOW), RegisterOutcome::TermsNotAccepted);
}

#[test]
fn duplicate_username_is_conflict() {
    let mut store = UserStore::new();
    assert_eq!(user_register(&mut store, &request("alice", "a@b.com"), NOW), RegisterOutcome::Created);
    // same username under different case, different email: conflict, not a plain failure
    let r = user_register(&mut store, &request("ALICE", "c@d.com"), NOW);
    assert_eq!(r, RegisterOutcome::UsernameTaken);
    assert_eq!(r.status_code(), 409);
}

#[test]
fn duplicate_email_is_conflict() {
    let mut store = UserStore::new();
    assert_eq!(user_register(&mut store, &request("alice", "a@b.com"), NOW), RegisterOutcome::Created);
    let r = user_register(&mut store, &request("bob", "A@B.COM"), NOW);
    assert_eq!(r, RegisterOutcome::EmailTaken);
    assert_eq!(r.status_code(), 409);
}

#[test]
fn store_lookups() {
    let mut store = UserStore::new();
    let id = store
        .register_user(
            "alice".to_string(),
            "a@b.com".to_string(),
            "stored-hash".to_string(),
            true,
            NOW,
        )
        .unwrap();

    assert!(store.user_exists_by_username("ALICE"));
    assert!(!store.user_exists_by_username("bob"));
    assert!(store.user_exists_by_email("A@B.com"));
    assert!(!store.user_exists_by_email("x@y.com"));

    let by_id = store.get_user_id(id).unwrap();
    assert_eq!(by_id.username, "alice");
    assert_eq!(by_id.password, None); // the hash is withheld
    assert_eq!(store.get_user_id(id + 1), Err(DbError::NotFound));

    let by_name = store.get_user_username_authentication("a@B.Com").unwrap();
    assert_eq!(by_name.id, id);
    assert_eq!(by_name.password, Some("stored-hash".to_string()));

    let second = store
        .register_user("alice".to_string(), "other@b.com".to_string(), "h".to_string(), true, NOW);
    assert_eq!(second, Err(DbError::Conflict));
}

#[test]
fn user_new_keeps_fields() {
    let u = User::new(3, "n".to_string(), "e@x.com".to_string(), 5, Some(6), true, false, None);
    assert_eq!(u.id, 3);
    assert_eq!(u.username, "n");
    assert_eq!(u.last_logged_in, Some(6));
    assert!(u.terms);
    assert!(!u.is_admin);
}

#[test]
fn app_store_by_id_and_owner() {
    let mut apps = AppStore::new();
    let a = apps.add_app("one", "first app", Some("https://example.org/r"), "one.png", 7, NOW);
    let b = apps.add_app("two", "second app", None, "two.png", 8, NOW + 1);
    let c = apps.add_app("three", "third app", None, "three.png", 7, NOW + 2);

    let got = apps.get_app_by_id(b).unwrap();
    assert_eq!(got.name, "two");
    assert_eq!(got.github_url, None);
    assert_eq!(got.user_id, 8);
    assert!(got.is_active);
    assert_eq!(apps.get_app_by_id(999), Err(DbError::NotFound));

    let owned = apps.get_apps_by_user_id(7);
    assert_eq!(owned.len(), 2);
    assert_eq!(owned[0].id, a);
    assert_eq!(owned[0].github_url, Some("https://example.org/r".to_string()));
    assert_eq!(owned[1].id, c);
    assert_eq!(apps.get_apps_by_user_id(42).len(), 0);
}

#[test]
fn create_app_without_auth_is_unauthorized() {
    let mut apps = AppStore::new();
    let jwt = JwtManager::from_secret("secret".to_string());
    let query = CreateAppRequest {
        name: "tool".to_string(),
        description: "a tool".to_string(),
        github_url: "https://example.org/tool".to_string(),
    };
    // no Authorization header: refused whatever the body carries
    let r = create_app(&mut apps, &jwt, None, &query, "tool.png", NOW);
    assert_eq!(r, CreateAppOutcome::MissingToken);
    assert_eq!(r.status_code(), 401);
    assert_eq!(apps.get_apps_by_user_id(7).len(), 0);

    let r = create_app(&mut apps, &jwt, Some("Token abc"), &query, "tool.png", NOW);
    assert_eq!(r, CreateAppOutcome::MissingToken);
}

#[test]
fn create_app_with_token_inserts_for_subject() {
    let mut apps = AppStore::new();
    let jwt = JwtManager::from_secret("secret".to_string());
    let token = jwt.generate_token_at("alice", 7, NOW);
    let header = format!("Bearer {}", token);
    let query = CreateAppRequest {
        name: "tool".to_string(),
        description: "a tool".to_string(),
        github_url: "https://example.org/tool".to_string(),
    };
    let r = create_app(&mut apps, &jwt, Some(&header), &query, "tool.png", NOW);
    let id = match r {
        CreateAppOutcome::Created(id) => id,
        other => panic!("expected creation, got {:?}", other),
    };
    assert_eq!(r.status_code(), 200);

    let stored = apps.get_app_by_id(id).unwrap();
    assert_eq!(stored.name, "tool");
    assert_eq!(stored.user_id, 7);
    assert_eq!(stored.image_name, "tool.png");
    assert_eq!(stored.created_at, NOW);

    match get_own_apps(&apps, &jwt, Some(&header), NOW) {
        GetOwnAppsOutcome::Success(v) => {
            assert_eq!(v.len(), 1);
            assert_eq!(v[0].id, id);
        }
        other => panic!("expected the owned apps, got {:?}", other),
    }
    assert_eq!(get_own_apps(&apps, &jwt, None, NOW), GetOwnAppsOutcome::MissingToken);
}

#[test]
fn db_error_messages() {
    assert_eq!(DbError::NotFound.message(), "Not found");
    assert_eq!(DbError::DatabaseError("boom".to_string()).message(), "Database error: boom");
    assert_eq!(DbError::HashingError("cost".to_string()).message(), "Hashing error: cost");
    assert_eq!(DbError::Conflict.message(), "Conflict");
}
