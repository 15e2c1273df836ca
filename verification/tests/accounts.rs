use vault_core::accounts::{
    prelogin, prelogin_response, register, register_as, required_email, send_verification_email,
    sign_up, sign_up_as, KeyData, PreloginResponse, RegisterRequest,
};
use vault_core::allowlist::{chars_of, is_allow_listed};
use vault_core::error::AppError;
use vault_core::users::UserTable;

const T0: &str = "2024-01-01T00:00:00+00:00";

fn request(email: &str, kdf_iterations: i32) -> RegisterRequest {
    RegisterRequest {
        name: Some("Alice".to_string()),
        email: email.to_string(),
        master_password_hash: "hash".to_string(),
        master_password_hint: Some("hint".to_string()),
        user_symmetric_key: "2.sym".to_string(),
        user_asymmetric_keys: KeyData {
            encrypted_private_key: "2.private".to_string(),
            public_key: "public".to_string(),
        },
        kdf: 0,
        kdf_iterations,
    }
}

#[test]
fn prelogin_without_email_is_a_bad_request() {
    let users = UserTable::new();
    assert_eq!(prelogin(&users, None), Err(AppError::BadRequest("Missing email".to_string())));
}

#[test]
fn prelogin_for_unknown_email_gives_the_default() {
    let users = UserTable::new();
    assert_eq!(
        prelogin(&users, Some("nobody@example.com")),
        Ok(PreloginResponse { kdf: 0, kdf_iterations: 600_000 })
    );
}

#[test]
fn prelogin_for_known_email_gives_the_users_rounds() {
    let mut users = UserTable::new();
    register_as(
        &mut users,
        Some("alice@example.com"),
        request("alice@example.com", 100_000),
        "u-1".to_string(),
        "s-1".to_string(),
        T0.to_string(),
    )
    .unwrap();
    assert_eq!(
        prelogin(&users, Some("alice@example.com")),
        Ok(PreloginResponse { kdf: 0, kdf_iterations: 100_000 })
    );
    assert_eq!(
        prelogin(&users, Some("ALICE@example.com")),
        Ok(PreloginResponse { kdf: 0, kdf_iterations: 600_000 })
    );
}

#[test]
fn register_stores_the_user_with_lowercased_email() {
    let mut users = UserTable::new();
    let r = register_as(
        &mut users,
        Some("someone@example.com, Alice@Example.COM"),
        request("Alice@Example.COM", 600_000),
        "u-1".to_string(),
        "s-1".to_string(),
        T0.to_string(),
    );
    assert_eq!(r, Ok(()));
    let user = users.get("u-1").unwrap();
    assert_eq!(user.email, "alice@example.com");
    assert_eq!(user.id, "u-1");
    assert_eq!(user.name, Some("Alice".to_string()));
    assert_eq!(user.avatar_color, None);
    assert!(!user.email_verified);
    assert_eq!(user.master_password_hash, "hash");
    assert_eq!(user.master_password_hint, Some("hint".to_string()));
    assert_eq!(user.key, "2.sym");
    assert_eq!(user.private_key, "2.private");
    assert_eq!(user.public_key, "public");
    assert_eq!(user.kdf_type, 0);
    assert_eq!(user.kdf_iterations, 600_000);
    assert_eq!(user.security_stamp, "s-1");
    assert_eq!(user.created_at, T0);
    assert_eq!(user.updated_at, T0);
    assert_eq!(users.find_by_email("alice@example.com"), Some(user));
    assert_eq!(users.find_by_email("Alice@Example.COM"), None);
}

#[test]
fn register_off_the_list_is_unauthorized() {
    let mut users = UserTable::new();
    let r = register_as(
        &mut users,
        Some("bob@example.com,carol@example.com"),
        request("alice@example.com", 600_000),
        "u-1".to_string(),
        "s-1".to_string(),
        T0.to_string(),
    );
    assert_eq!(r, Err(AppError::Unauthorized("Not allowed to signup".to_string())));
    assert_eq!(users.get("u-1"), None);
}

#[test]
fn register_compares_the_address_as_typed() {
    let mut users = UserTable::new();
    let r = register_as(
        &mut users,
        Some("alice@example.com"),
        request("Alice@example.com", 600_000),
        "u-1".to_string(),
        "s-1".to_string(),
        T0.to_string(),
    );
    assert_eq!(r, Err(AppError::Unauthorized("Not allowed to signup".to_string())));
}

#[test]
fn register_without_a_list_is_internal() {
    let mut users = UserTable::new();
    let r = register_as(
        &mut users,
        None,
        request("alice@example.com", 600_000),
        "u-1".to_string(),
        "s-1".to_string(),
        T0.to_string(),
    );
    assert_eq!(r, Err(AppError::Internal));
    assert_eq!(register(&mut users, None, request("alice@example.com", 1)), Err(AppError::Internal));
}

#[test]
fn register_twice_with_one_email_is_refused() {
    let mut users = UserTable::new();
    let list = Some("alice@example.com,ALICE@example.com");
    register_as(&mut users, list, request("alice@example.com", 1), "u-1".to_string(), "s".to_string(), T0.to_string())
        .unwrap();
    let r = register_as(&mut users, list, request("ALICE@example.com", 2), "u-2".to_string(), "s".to_string(), T0.to_string());
    assert_eq!(r, Err(AppError::Database));
    assert_eq!(users.get("u-2"), None);
    let again = register_as(&mut users, list, request("other@example.com", 2), "u-1".to_string(), "s".to_string(), T0.to_string());
    assert_eq!(again, Err(AppError::Unauthorized("Not allowed to signup".to_string())));
}

#[test]
fn register_under_a_taken_id_is_refused() {
    let mut users = UserTable::new();
    let list = Some("a@example.com,b@example.com");
    register_as(&mut users, list, request("a@example.com", 1), "u-1".to_string(), "s".to_string(), T0.to_string())
        .unwrap();
    let r = register_as(&mut users, list, request("b@example.com", 2), "u-1".to_string(), "s".to_string(), T0.to_string());
    assert_eq!(r, Err(AppError::Database));
    assert_eq!(users.get("u-1").unwrap().email, "a@example.com");
}

#[test]
fn register_draws_id_stamp_and_time() {
    let mut users = UserTable::new();
    assert_eq!(register(&mut users, Some("alice@example.com"), request("alice@example.com", 5)), Ok(()));
    let user = users.find_by_email("alice@example.com").unwrap();
    assert_eq!(user.id.len(), 36);
    assert_eq!(user.security_stamp.len(), 36);
    assert_ne!(user.id, user.security_stamp);
    assert_eq!(user.created_at, user.updated_at);
    assert!(user.created_at.ends_with("+00:00"));
    assert_eq!(
        register(&mut users, Some("alice@example.com"), request("alice@example.com", 5)),
        Err(AppError::Database)
    );
}

#[test]
fn allow_list_is_split_on_commas_and_trimmed() {
    assert!(is_allow_listed("a@x.org", "a@x.org"));
    assert!(is_allow_listed("a@x.org,b@x.org", "b@x.org"));
    assert!(is_allow_listed("  a@x.org \t,\n b@x.org\u{00a0}", "a@x.org"));
    assert!(is_allow_listed("  a@x.org \t,\n b@x.org\u{00a0}", "b@x.org"));
    assert!(is_allow_listed("a@x.org,,b@x.org", ""));
    assert!(is_allow_listed("", ""));
    assert!(is_allow_listed("a@x.org, ", ""));
    assert!(is_allow_listed("first last@x.org", "first last@x.org"));
    assert!(!is_allow_listed("a@x.org", ""));
    assert!(!is_allow_listed("a@x.org,b@x.org", "a@x.org,b@x.org"));
    assert!(!is_allow_listed("a@x.org", "a@x.or"));
    assert!(!is_allow_listed("a@x.org", "@x.org"));
    assert!(!is_allow_listed("a@x.org", " a@x.org"));
    assert!(!is_allow_listed("a@x.org;b@x.org", "b@x.org"));
    assert!(!is_allow_listed("A@x.org", "a@x.org"));
}

#[test]
fn chars_of_gives_the_characters_in_order() {
    assert_eq!(chars_of("a\u{00e9},\u{4e2d}"), vec!['a', '\u{00e9}', ',', '\u{4e2d}']);
    assert_eq!(chars_of(""), Vec::<char>::new());
}

#[test]
fn verification_token_is_fixed() {
    assert_eq!(send_verification_email(), "fixed-token-to-mock");
}

#[test]
fn required_email_passes_the_address_on() {
    assert_eq!(required_email(Some("a@x.org")), Ok("a@x.org".to_string()));
    assert_eq!(required_email(None), Err(AppError::BadRequest("Missing email".to_string())));
}

#[test]
fn prelogin_response_defaults_the_rounds() {
    assert_eq!(prelogin_response(Some(5_000)), PreloginResponse { kdf: 0, kdf_iterations: 5_000 });
    assert_eq!(prelogin_response(None), PreloginResponse { kdf: 0, kdf_iterations: 600_000 });
}

#[test]
fn sign_up_decides_without_a_table() {
    let user = sign_up_as(
        Some(" Bob@X.org "),
        request("Bob@X.org", 7),
        "u-9".to_string(),
        "s-9".to_string(),
        T0.to_string(),
    )
    .unwrap();
    assert_eq!(user.email, "bob@x.org");
    assert_eq!(user.id, "u-9");
    assert_eq!(
        sign_up_as(Some("bob@x.org"), request("Bob@X.org", 7), "u".to_string(), "s".to_string(), T0.to_string()),
        Err(AppError::Unauthorized("Not allowed to signup".to_string()))
    );
    let drawn = sign_up(Some("bob@x.org"), request("bob@x.org", 7)).unwrap();
    assert_eq!(drawn.id.len(), 36);
    assert_eq!(drawn.email, "bob@x.org");
}
