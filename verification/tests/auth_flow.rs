use notification_service::errors::AuthError;
use notification_service::service::{logout, Service};
use notification_service::token::{Claims, JwtUtils};
use notification_service::user::{CreateUserRequest, LoginRequest};
use notification_service::password::{hash_password, verify_password};

fn new_service() -> Service {
    Service::new("test-secret".to_string(), 3600)
}

fn register_req(username: &str, password: &str, is_admin: Option<bool>) -> CreateUserRequest {
    CreateUserRequest {
        username: username.to_string(),
        password: password.to_string(),
        is_admin,
    }
}

#[test]
fn register_then_login_returns_token_for_registered_user() {
    let mut s = new_service();
    let v = s
        .register(&register_req("alice", "pw12345", None))
        .expect("registration succeeds");
    assert_eq!(v.username, "alice");
    assert_eq!(v.id, 1);
    assert!(!v.is_admin);
    assert!(!v.totp_enabled);

    let resp = s
        .login(&LoginRequest {
            username: "alice".to_string(),
            password: "pw12345".to_string(),
        })
        .expect("login succeeds with the registered pair");
    assert_eq!(resp.user.username, "alice");
    assert!(!resp.user.totp_enabled);

    let claims = s
        .jwt
        .verify_token(&resp.access_token)
        .expect("a fresh token verifies");
    assert_eq!(claims.sub, "1");
    assert_eq!(claims.username, "alice");

    let me = s.get_current_user(&claims).expect("subject resolves");
    assert_eq!(me.username, "alice");
    assert_eq!(me.id, 1);
    assert!(!me.totp_enabled);
}

#[test]
fn login_with_wrong_password_is_unauthorized() {
    let mut s = new_service();
    s.register(&register_req("alice", "pw12345", None)).unwrap();
    let r = s.login(&LoginRequest {
        username: "alice".to_string(),
        password: "wrong".to_string(),
    });
    assert_eq!(r.unwrap_err(), AuthError::Unauthorized);
}

#[test]
fn login_with_unknown_username_is_unauthorized() {
    let s = new_service();
    let r = s.login(&LoginRequest {
        username: "nobody".to_string(),
        password: "pw".to_string(),
    });
    assert_eq!(r.unwrap_err(), AuthError::Unauthorized);
}

#[test]
fn duplicate_registration_conflicts_and_first_user_is_unaffected() {
    let mut s = new_service();
    let first = s.register(&register_req("alice", "pw12345", None)).unwrap();
    let second = s.register(&register_req("alice", "other", Some(true)));
    assert_eq!(second.unwrap_err(), AuthError::Conflict);

    let resp = s
        .login(&LoginRequest {
            username: "alice".to_string(),
            password: "pw12345".to_string(),
        })
        .expect("the first registration still logs in");
    assert_eq!(resp.user.id, first.id);
    assert!(!resp.user.is_admin);
}

#[test]
fn token_verifies_until_expiry_and_fails_after() {
    let jwt = JwtUtils::new("another-secret".to_string(), 60);
    let token = jwt.generate_token_at(7, "bob", 1000).unwrap();
    let claims = jwt.verify_token_at(&token, 1059).expect("before expiry");
    assert_eq!(claims.sub, "7");
    assert_eq!(claims.username, "bob");
    assert_eq!(claims.iat, 1000);
    assert_eq!(claims.exp, 1060);
    assert_eq!(jwt.verify_token_at(&token, 1060).unwrap_err(), AuthError::Unauthorized);
    assert_eq!(jwt.verify_token_at(&token, 5000).unwrap_err(), AuthError::Unauthorized);
}

#[test]
fn token_with_wrong_secret_or_garbage_is_rejected() {
    let jwt = JwtUtils::new("secret-one".to_string(), 60);
    let other = JwtUtils::new("secret-two".to_string(), 60);
    let token = jwt.generate_token_at(1, "alice", 1000).unwrap();
    assert!(token.contains('.'));
    assert_ne!(token, "1");
    assert_eq!(other.verify_token_at(&token, 1001).unwrap_err(), AuthError::Unauthorized);
    assert_eq!(jwt.verify_token_at("not.a.token", 0).unwrap_err(), AuthError::Unauthorized);
    assert_eq!(jwt.verify_token_at("", 0).unwrap_err(), AuthError::Unauthorized);
}

#[test]
fn password_hash_roundtrip_and_mismatch() {
    let h = hash_password("pw12345").unwrap();
    assert_ne!(h, "pw12345");
    assert!(h.starts_with("$2"));
    assert_eq!(verify_password("pw12345", &h).unwrap(), true);
    assert_eq!(verify_password("pw12346", &h).unwrap(), false);
    assert_eq!(verify_password("", &h).unwrap(), false);
}

#[test]
fn malformed_hash_is_an_internal_error() {
    let r = verify_password("pw", "not-a-bcrypt-hash");
    assert_eq!(r.unwrap_err(), AuthError::Internal);
}

#[test]
fn current_user_with_malformed_subject_is_invalid_input() {
    let s = new_service();
    let claims = Claims {
        sub: "abc".to_string(),
        username: "x".to_string(),
        exp: 0,
        iat: 0,
    };
    assert_eq!(s.get_current_user(&claims).unwrap_err(), AuthError::InvalidInput);
}

#[test]
fn current_user_with_unknown_subject_is_not_found() {
    let s = new_service();
    let claims = Claims {
        sub: "999".to_string(),
        username: "x".to_string(),
        exp: 0,
        iat: 0,
    };
    assert_eq!(s.get_current_user(&claims).unwrap_err(), AuthError::NotFound);
}

#[test]
fn logout_acknowledges() {
    assert_eq!(logout(), "logged out");
}

#[test]
fn error_messages_are_stable() {
    assert_eq!(AuthError::NotFound.message(), "not found");
    assert_eq!(AuthError::Unauthorized.message(), "unauthorized");
    assert_eq!(AuthError::Conflict.message(), "conflict");
    assert_eq!(AuthError::Forbidden.message(), "forbidden");
    assert_eq!(AuthError::InvalidInput.message(), "invalid input");
    assert_eq!(AuthError::Internal.message(), "internal error");
}

#[test]
fn login_token_expires_after_ttl() {
    let mut s = new_service();
    s.register(&register_req("alice", "pw12345", None)).unwrap();
    let resp = s
        .login_at(
            &LoginRequest {
                username: "alice".to_string(),
                password: "pw12345".to_string(),
            },
            1000,
        )
        .unwrap();
    // The service was built with a 3600-second time-to-live.
    let claims = s.jwt.verify_token_at(&resp.access_token, 4599).unwrap();
    assert_eq!(claims.iat, 1000);
    assert_eq!(claims.exp, 4600);
    assert_eq!(
        s.jwt.verify_token_at(&resp.access_token, 4600).unwrap_err(),
        AuthError::Unauthorized
    );
}

#[test]
fn user_view_excludes_the_password_hash() {
    let user = notification_service::user::User {
        id: 3,
        username: "carol".to_string(),
        password_hash: "$2b$12$pretend-this-is-a-hash".to_string(),
        is_admin: true,
        created_at: 11,
        updated_at: 12,
        totp_secret: None,
        totp_enabled: false,
        backup_codes: None,
    };
    let view = notification_service::user::UserResponse::from(user);
    assert_eq!(view.id, 3);
    assert_eq!(view.username, "carol");
    assert!(view.is_admin);
    assert_eq!(view.created_at, 11);
    assert_eq!(view.updated_at, 12);
    assert!(!view.totp_enabled);
}

#[test]
fn attachment_view_excludes_the_storage_path() {
    let a = notification_service::notification::Attachment {
        id: 9,
        notification_id: Some(2),
        filename: "f.bin".to_string(),
        original_filename: "orig.bin".to_string(),
        file_path: "/var/data/f.bin".to_string(),
        file_size: 123,
        mime_type: "application/octet-stream".to_string(),
        uploaded_at: 99,
    };
    let view = notification_service::notification::AttachmentResponse::from(a);
    assert_eq!(view.id, 9);
    assert_eq!(view.notification_id, Some(2));
    assert_eq!(view.filename, "f.bin");
    assert_eq!(view.original_filename, "orig.bin");
    assert_eq!(view.file_size, 123);
    assert_eq!(view.mime_type, "application/octet-stream");
    assert_eq!(view.uploaded_at, 99);
}

#[test]
fn identifier_rendering_and_parsing_roundtrip() {
    assert_eq!(notification_service::numeric::i64_to_dec_string(0), "0");
    assert_eq!(notification_service::numeric::i64_to_dec_string(9007), "9007");
    assert_eq!(
        notification_service::numeric::i64_to_dec_string(i64::MAX),
        "9223372036854775807"
    );
    assert_eq!(notification_service::numeric::parse_user_id("42"), Ok(42));
    assert_eq!(
        notification_service::numeric::parse_user_id("9223372036854775807"),
        Ok(i64::MAX)
    );
    assert_eq!(
        notification_service::numeric::parse_user_id(""),
        Err(AuthError::InvalidInput)
    );
    assert_eq!(
        notification_service::numeric::parse_user_id("-1"),
        Err(AuthError::InvalidInput)
    );
    assert_eq!(
        notification_service::numeric::parse_user_id("9223372036854775808"),
        Err(AuthError::InvalidInput)
    );
}
