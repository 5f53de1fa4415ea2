use notification_service::errors::AuthError;
use notification_service::service::Service;
use notification_service::token::Claims;
use notification_service::totp::{
    generate_backup_codes, generate_totp_secret, verify_totp_code_at, TotpVerification,
};
use notification_service::user::CreateUserRequest;
use hmac::Mac;

/// The standard time-step one-time code, computed independently of the
/// library: HMAC-SHA1 of the big-endian step, dynamic truncation, six
/// decimal digits.
fn expected_code(secret: &str, step: u64) -> u32 {
    let mut mac =
        hmac::Hmac::<sha1::Sha1>::new_from_slice(secret.as_bytes()).expect("any key length");
    mac.update(&step.to_be_bytes());
    let d = mac.finalize().into_bytes();
    let off = (d[19] & 0x0f) as usize;
    let bin = ((d[off] & 0x7f) as u32) << 24
        | (d[off + 1] as u32) << 16
        | (d[off + 2] as u32) << 8
        | (d[off + 3] as u32);
    bin % 1_000_000
}

fn code_string(secret: &str, step: u64) -> String {
    format!("{:06}", expected_code(secret, step))
}

fn now_secs() -> u64 {
    std::time::SystemTime::now()
        .duration_since(std::time::UNIX_EPOCH)
        .expect("clock after the epoch")
        .as_secs()
}

fn subject(sub: &str) -> Claims {
    Claims {
        sub: sub.to_string(),
        username: "alice".to_string(),
        exp: 0,
        iat: 0,
    }
}

#[test]
fn one_time_code_matches_independent_computation() {
    let secret = "abcdef0123456789abcdef0123456789";
    let now: u64 = 59;
    let step = now / 30; // step 1
    assert!(verify_totp_code_at(secret, &code_string(secret, step), now));
    assert!(verify_totp_code_at(secret, &code_string(secret, step - 1), now));
    assert!(verify_totp_code_at(secret, &code_string(secret, step + 1), now));
    let far = code_string(secret, step + 2);
    let near = [
        code_string(secret, step - 1),
        code_string(secret, step),
        code_string(secret, step + 1),
    ];
    if !near.contains(&far) {
        assert!(!verify_totp_code_at(secret, &far, now));
    }
}

#[test]
fn malformed_codes_are_rejected() {
    let secret = "abcdef0123456789abcdef0123456789";
    assert!(!verify_totp_code_at(secret, "", 59));
    assert!(!verify_totp_code_at(secret, "12345", 59));
    assert!(!verify_totp_code_at(secret, "1234567", 59));
    assert!(!verify_totp_code_at(secret, "12a456", 59));
}

#[test]
fn codes_differ_for_different_secrets() {
    // The digest truly depends on the key: two secrets giving the same six
    // digits for the same step would be a one-in-a-million accident.
    let a = code_string("secret-a", 1);
    let b = code_string("secret-b", 1);
    let c = code_string("secret-a", 2);
    assert!(a != b || a != c);
}

#[test]
fn enrollment_material_is_well_formed() {
    let setup = generate_totp_secret("alice", "Notification App");
    assert_eq!(setup.secret.len(), 32);
    assert!(setup
        .secret
        .chars()
        .all(|c| c.is_ascii_digit() || ('a'..='f').contains(&c)));
    assert_eq!(setup.manual_entry_key, setup.secret);
    assert_eq!(
        setup.qr_code,
        format!(
            "otpauth://totp/Notification App:alice?secret={}&issuer=Notification App",
            setup.secret
        )
    );
}

#[test]
fn backup_codes_are_eight_uppercase_tokens() {
    let codes = generate_backup_codes();
    assert_eq!(codes.len(), 8);
    for c in &codes {
        assert_eq!(c.len(), 8);
        assert!(c
            .chars()
            .all(|ch| ch.is_ascii_digit() || ('A'..='F').contains(&ch)));
    }
}

#[test]
fn second_factor_lifecycle() {
    let mut s = Service::new("test-secret".to_string(), 3600);
    s.register(&CreateUserRequest {
        username: "alice".to_string(),
        password: "pw12345".to_string(),
        is_admin: None,
    })
    .unwrap();
    let claims = subject("1");

    // Status starts disabled; confirming before enrollment is "not enrolled".
    assert_eq!(s.get_2fa_status(&claims), Ok(false));
    let premature = s.enable_2fa(
        &claims,
        &TotpVerification {
            code: "123456".to_string(),
        },
    );
    assert_eq!(premature.unwrap_err(), AuthError::InvalidInput);

    let (setup, codes) = s.setup_2fa(&claims).expect("enrollment begins");
    assert_eq!(codes.len(), 8);
    assert_eq!(s.get_2fa_status(&claims), Ok(false));

    // A malformed code does not enable.
    let bad = s.enable_2fa(
        &claims,
        &TotpVerification {
            code: "nope".to_string(),
        },
    );
    assert_eq!(bad, Ok(false));
    assert_eq!(s.get_2fa_status(&claims), Ok(false));

    // A valid code enables.
    let good = TotpVerification {
        code: code_string(&setup.secret, now_secs() / 30),
    };
    assert_eq!(s.enable_2fa(&claims, &good), Ok(true));
    assert_eq!(s.get_2fa_status(&claims), Ok(true));

    // A valid code disables and purges the material.
    let good_again = TotpVerification {
        code: code_string(&setup.secret, now_secs() / 30),
    };
    assert_eq!(s.disable_2fa(&claims, &good_again), Ok(true));
    assert_eq!(s.get_2fa_status(&claims), Ok(false));

    // Replaying a confirmation after the purge is "not enrolled".
    let replay = s.enable_2fa(&claims, &good_again);
    assert_eq!(replay.unwrap_err(), AuthError::InvalidInput);
}

#[test]
fn second_factor_status_for_unknown_subject() {
    let s = Service::new("test-secret".to_string(), 3600);
    assert_eq!(s.get_2fa_status(&subject("5")).unwrap_err(), AuthError::NotFound);
    assert_eq!(
        s.get_2fa_status(&subject("zzz")).unwrap_err(),
        AuthError::InvalidInput
    );
}
