use bff::digest::hash_verification_token;
use bff::dtos::auth_dto::{AuthResDto, LoginReqDto, LogoutDto, RegisterReqDto, VerifyEmailDto};
use bff::dtos::general_res_dto::GeneralResDto;
use bff::error::CustomError;
use bff::handlers::auth_handler::{
    email_is_plausible, expiry_to_millis, login, logout, refresh, register, resume, verify_email,
};
use bff::handlers::conversation::{refuse, serve, Effect, Event, Flow, Reply};
use bff::handlers::reuse::{classify_reuse, Reuse, REUSE_GRACE_MILLIS};
use bff::models::refresh_token::{NewRefreshToken, RefreshToken};
use bff::models::user::{NewUser, User};
use bff::services::refresh_token_service::RevokeOutcome;
use bff::types::claims::Claims;
use bff::types::refresh_claims::RefreshClaims;

const ALICE: &str = "0123456789abcdef01234567";

fn refused(error: CustomError) -> Option<(Flow, Effect)> {
    Some((Flow::Finished { reuse: None }, Effect::Done { result: Err(error) }))
}

fn request(email: &str, username: &str, password: &str) -> RegisterReqDto {
    RegisterReqDto {
        email: email.to_string(),
        username: username.to_string(),
        password: password.to_string(),
    }
}

fn claims(sub: &str, jti: &str) -> RefreshClaims {
    RefreshClaims {
        sub: sub.to_string(),
        exp: 2_000,
        jti: jti.to_string(),
        aud: "aud".to_string(),
        iss: "iss".to_string(),
    }
}

fn record(is_revoked: bool, expires_at: i64, used_at: Option<i64>) -> RefreshToken {
    RefreshToken {
        id: "89abcdef0123456701234567".to_string(),
        user_id: ALICE.to_string(),
        token: "jti-1".to_string(),
        is_revoked,
        created_at: 0,
        expires_at,
        used_at,
    }
}

fn finding(raced: bool) -> Flow {
    Flow::RefreshFinding { subject: ALICE.to_string(), jti: "jti-1".to_string(), raced }
}

fn pair() -> AuthResDto {
    AuthResDto::new("access".to_string(), "refresh".to_string())
}

#[test]
fn grace_window_is_ninety_seconds() {
    assert_eq!(REUSE_GRACE_MILLIS, 90_000);
    assert_eq!(classify_reuse(Some(1_000), 1_000), Reuse::WithinGrace);
    assert_eq!(classify_reuse(Some(1_000), 90_999), Reuse::WithinGrace);
    assert_eq!(classify_reuse(Some(1_000), 91_000), Reuse::WithinGrace);
    assert_eq!(classify_reuse(Some(1_000), 91_001), Reuse::Replay);
    assert_eq!(classify_reuse(None, 91_001), Reuse::Inconsistent);
}

#[test]
fn reuse_is_classified_at_the_ends_of_time() {
    assert_eq!(classify_reuse(Some(i64::MIN), i64::MAX), Reuse::Replay);
    assert_eq!(classify_reuse(Some(i64::MAX), i64::MIN), Reuse::WithinGrace);
    assert_eq!(classify_reuse(Some(5), 4), Reuse::WithinGrace);
    assert_eq!(classify_reuse(Some(i64::MAX - 90_000), i64::MAX), Reuse::WithinGrace);
    assert_eq!(classify_reuse(Some(i64::MAX - 90_001), i64::MAX), Reuse::Replay);
}

#[test]
fn expiry_in_seconds_becomes_milliseconds() {
    assert_eq!(expiry_to_millis(0), Some(0));
    assert_eq!(expiry_to_millis(1_700_000_000), Some(1_700_000_000_000));
    assert_eq!(expiry_to_millis(9_223_372_036_854_775), Some(9_223_372_036_854_775_000));
    assert_eq!(expiry_to_millis(9_223_372_036_854_776), None);
    assert_eq!(expiry_to_millis(usize::MAX), None);
}

#[test]
fn email_needs_an_at_sign() {
    assert!(email_is_plausible("a@b.com"));
    assert!(email_is_plausible("@"));
    assert!(email_is_plausible("später@ö"));
    assert!(!email_is_plausible(""));
    assert!(!email_is_plausible("a.b.com"));
}

#[test]
fn registration_begins_with_the_hashing() {
    assert_eq!(
        register(request("a@b.com", "alice", "longenough1")),
        (
            Flow::RegisterHashing { email: "a@b.com".to_string(), username: "alice".to_string() },
            Effect::HashPassword { password: "longenough1".to_string() },
        )
    );
    assert_eq!(
        register(request("a@b.com", "alice", "12345678")).1,
        Effect::HashPassword { password: "12345678".to_string() }
    );
}

#[test]
fn registration_refuses_credentials_that_cannot_be_right() {
    let missing = refused(CustomError::MissingCredentials);
    assert_eq!(Some(register(request("", "alice", "longenough1"))), missing);
    assert_eq!(Some(register(request("ab.com", "alice", "longenough1"))), missing);
    assert_eq!(Some(register(request("a@b.com", "alic", "longenough1"))), missing);
    assert_eq!(Some(register(request("a@b.com", "alice", "1234567"))), missing);
    assert!(matches!(register(request("a@b.com", "äö", "longenough1")).0, Flow::Finished { .. }));
    assert!(matches!(
        register(request("a@b.com", "äöü", "longenough1")).0,
        Flow::RegisterHashing { .. }
    ));
}

#[test]
fn registration_stores_the_user_with_a_lower_case_address() {
    let flow = Flow::RegisterHashing { email: "Alice@B.COM".to_string(), username: "alice".to_string() };
    assert_eq!(
        resume(flow, Event::PasswordHashed(Ok("the-hash".to_string())), 77),
        Some((
            Flow::RegisterCreating { email: "alice@b.com".to_string(), username: "alice".to_string() },
            Effect::CreateUser {
                user: NewUser {
                    username: "alice".to_string(),
                    email: "alice@b.com".to_string(),
                    password: "the-hash".to_string(),
                    is_email_verified: false,
                    last_login_at: 77,
                    created_at: 77,
                    updated_at: 77,
                },
            },
        ))
    );
    let flow = Flow::RegisterHashing { email: "a@b.com".to_string(), username: "alice".to_string() };
    assert_eq!(
        resume(flow, Event::PasswordHashed(Err(CustomError::MongoError)), 77),
        refused(CustomError::HashError)
    );
}

#[test]
fn registration_starts_the_mail_and_then_asks_for_tokens() {
    let creating = || Flow::RegisterCreating { email: "a@b.com".to_string(), username: "alice".to_string() };
    assert_eq!(
        resume(creating(), Event::UserCreated(Ok(ALICE.to_string())), 1),
        Some((
            Flow::RegisterNotifying { subject: ALICE.to_string() },
            Effect::SendVerification {
                user_id: ALICE.to_string(),
                username: "alice".to_string(),
                email: "a@b.com".to_string(),
            },
        ))
    );
    assert_eq!(
        resume(creating(), Event::UserCreated(Err(CustomError::DuplicateKey("a@b.com".to_string()))), 1),
        refused(CustomError::DuplicateKey("a@b.com".to_string()))
    );
    assert_eq!(
        resume(Flow::RegisterNotifying { subject: ALICE.to_string() }, Event::VerificationStarted, 1),
        Some((
            Flow::Issuing { subject: ALICE.to_string(), retried: false },
            Effect::IssueTokens { subject: ALICE.to_string() },
        ))
    );
}

#[test]
fn login_begins_with_the_lookup() {
    assert_eq!(
        login(LoginReqDto { email: "a@b.com".to_string(), password: "longenough1".to_string() }),
        (
            Flow::LoginFinding { password: "longenough1".to_string() },
            Effect::FindUserByEmail { email: "a@b.com".to_string() },
        )
    );
    let missing = refused(CustomError::MissingCredentials);
    assert_eq!(
        Some(login(LoginReqDto { email: String::new(), password: "longenough1".to_string() })),
        missing
    );
    assert_eq!(
        Some(login(LoginReqDto { email: "ab.com".to_string(), password: "longenough1".to_string() })),
        missing
    );
    assert_eq!(
        Some(login(LoginReqDto { email: "a@b.com".to_string(), password: "short".to_string() })),
        missing
    );
}

#[test]
fn login_checks_the_password_of_the_user_that_was_found() {
    let user = User {
        id: ALICE.to_string(),
        username: "alice".to_string(),
        email: "a@b.com".to_string(),
        password: "the-hash".to_string(),
        is_email_verified: false,
        last_login_at: 0,
        created_at: 0,
        updated_at: 0,
    };
    let finding = || Flow::LoginFinding { password: "longenough1".to_string() };
    assert_eq!(
        resume(finding(), Event::UserFound(Ok(user)), 1),
        Some((
            Flow::LoginChecking { subject: ALICE.to_string() },
            Effect::CheckPassword {
                password: "longenough1".to_string(),
                password_hash: "the-hash".to_string(),
            },
        ))
    );
    assert_eq!(
        resume(finding(), Event::UserFound(Err(CustomError::NotFoundError("a@b.com".to_string()))), 1),
        refused(CustomError::NotFoundError("a@b.com".to_string()))
    );
    let checking = || Flow::LoginChecking { subject: ALICE.to_string() };
    assert_eq!(
        resume(checking(), Event::PasswordChecked(Ok(())), 1),
        Some((
            Flow::Issuing { subject: ALICE.to_string(), retried: false },
            Effect::IssueTokens { subject: ALICE.to_string() },
        ))
    );
    assert_eq!(
        resume(checking(), Event::PasswordChecked(Err(CustomError::WrongCredentials)), 1),
        refused(CustomError::WrongCredentials)
    );
    assert_eq!(
        resume(checking(), Event::PasswordChecked(Err(CustomError::HashError)), 1),
        refused(CustomError::HashError)
    );
}

#[test]
fn issued_tokens_are_persisted_as_an_active_record() {
    let issuing = |retried| Flow::Issuing { subject: ALICE.to_string(), retried };
    assert_eq!(
        resume(issuing(false), Event::TokensIssued(Ok((pair(), "jti-9".to_string(), 2_000))), 500),
        Some((
            Flow::Persisting { subject: ALICE.to_string(), retried: false, tokens: pair() },
            Effect::CreateRefreshToken {
                record: NewRefreshToken {
                    user_id: ALICE.to_string(),
                    token: "jti-9".to_string(),
                    is_revoked: false,
                    created_at: 500,
                    expires_at: 2_000_000,
                    used_at: None,
                },
            },
        ))
    );
    assert_eq!(
        resume(issuing(true), Event::TokensIssued(Err(CustomError::MongoError)), 500),
        refused(CustomError::TokenCreation)
    );
    assert_eq!(
        resume(issuing(false), Event::TokensIssued(Ok((pair(), "jti-9".to_string(), usize::MAX))), 500),
        refused(CustomError::TokenCreation)
    );
}

#[test]
fn failed_persistence_is_retried_once() {
    let persisting = |retried| Flow::Persisting { subject: ALICE.to_string(), retried, tokens: pair() };
    let duplicate = || Event::RefreshTokenCreated(Err(CustomError::DuplicateKey("jti-9".to_string())));
    assert_eq!(
        resume(persisting(false), duplicate(), 1),
        Some((
            Flow::Issuing { subject: ALICE.to_string(), retried: true },
            Effect::IssueTokens { subject: ALICE.to_string() },
        ))
    );
    assert_eq!(resume(persisting(true), duplicate(), 1), refused(CustomError::TokenCreation));
    assert_eq!(
        resume(persisting(false), Event::RefreshTokenCreated(Err(CustomError::MongoError)), 1),
        Some((
            Flow::Issuing { subject: ALICE.to_string(), retried: true },
            Effect::IssueTokens { subject: ALICE.to_string() },
        ))
    );
    for retried in [false, true] {
        assert_eq!(
            resume(persisting(retried), Event::RefreshTokenCreated(Ok(ALICE.to_string())), 1),
            Some((
                Flow::Finished { reuse: None },
                Effect::Done { result: Ok(Reply::Tokens(pair())) },
            ))
        );
    }
}

#[test]
fn refresh_begins_with_the_decoding() {
    assert_eq!(
        refresh(LogoutDto { refresh_token: "token".to_string() }),
        (Flow::RefreshDecoding, Effect::DecodeRefreshToken { token: "token".to_string() })
    );
    assert_eq!(
        Some(refresh(LogoutDto { refresh_token: String::new() })),
        refused(CustomError::MissingCredentials)
    );
}

#[test]
fn refresh_looks_the_record_up_by_the_jti() {
    assert_eq!(
        resume(Flow::RefreshDecoding, Event::RefreshTokenDecoded(Ok(claims(ALICE, "jti-1"))), 1),
        Some((finding(false), Effect::FindRefreshToken { jti: "jti-1".to_string() }))
    );
    assert_eq!(
        resume(Flow::RefreshDecoding, Event::RefreshTokenDecoded(Ok(claims(ALICE, ""))), 1),
        refused(CustomError::MissingCredentials)
    );
    for error in [CustomError::InvalidToken, CustomError::TokenExpired] {
        assert_eq!(
            resume(Flow::RefreshDecoding, Event::RefreshTokenDecoded(Err(error.clone())), 1),
            refused(error)
        );
    }
}

#[test]
fn refresh_of_a_missing_record_does_not_say_so() {
    assert_eq!(
        resume(
            finding(false),
            Event::RefreshTokenFound(Err(CustomError::NotFoundError("jti-1".to_string()))),
            1
        ),
        refused(CustomError::InvalidToken)
    );
    assert_eq!(
        resume(finding(false), Event::RefreshTokenFound(Err(CustomError::MongoError)), 1),
        refused(CustomError::MongoError)
    );
}

#[test]
fn refresh_revokes_an_active_record() {
    assert_eq!(
        resume(finding(false), Event::RefreshTokenFound(Ok(record(false, 1_000, None))), 1_000),
        Some((
            Flow::RefreshRevoking { subject: ALICE.to_string(), jti: "jti-1".to_string() },
            Effect::RevokeRefreshToken { jti: "jti-1".to_string(), revoked_at: 1_000 },
        ))
    );
    assert_eq!(
        resume(finding(false), Event::RefreshTokenFound(Ok(record(false, 1_000, None))), 1_001),
        refused(CustomError::TokenExpired)
    );
    assert_eq!(
        resume(finding(false), Event::RefreshTokenFound(Ok(record(true, 1_000, Some(5)))), 1_001),
        refused(CustomError::TokenExpired)
    );
}

#[test]
fn refresh_of_a_revoked_record_is_invalid_whatever_the_reason() {
    let rejected = |reuse| {
        Some((
            Flow::Finished { reuse: Some(reuse) },
            Effect::Done { result: Err(CustomError::InvalidToken) },
        ))
    };
    let found = |used_at| Event::RefreshTokenFound(Ok(record(true, i64::MAX, used_at)));
    assert_eq!(resume(finding(false), found(None), 100_000), rejected(Reuse::Inconsistent));
    assert_eq!(resume(finding(false), found(Some(10_000))
        , 100_000), rejected(Reuse::WithinGrace));
    assert_eq!(resume(finding(false), found(Some(9_999)), 100_000), rejected(Reuse::Replay));
    assert_eq!(resume(finding(true), found(Some(99_999)), 100_000), rejected(Reuse::WithinGrace));
    assert_eq!(
        resume(finding(true), Event::RefreshTokenFound(Ok(record(false, i64::MAX, None))), 100_000),
        rejected(Reuse::Inconsistent)
    );
}

#[test]
fn refresh_issues_tokens_only_after_the_revocation() {
    let revoking = || Flow::RefreshRevoking { subject: ALICE.to_string(), jti: "jti-1".to_string() };
    assert_eq!(
        resume(revoking(), Event::RefreshTokenRevoked(Ok(RevokeOutcome::Revoked)), 1),
        Some((
            Flow::Issuing { subject: ALICE.to_string(), retried: false },
            Effect::IssueTokens { subject: ALICE.to_string() },
        ))
    );
    assert_eq!(
        resume(revoking(), Event::RefreshTokenRevoked(Ok(RevokeOutcome::AlreadyRevoked)), 1),
        Some((finding(true), Effect::FindRefreshToken { jti: "jti-1".to_string() }))
    );
    assert_eq!(
        resume(revoking(), Event::RefreshTokenRevoked(Err(CustomError::MongoError)), 1),
        refused(CustomError::MongoError)
    );
}

#[test]
fn logout_revokes_the_token_of_the_caller_only() {
    let caller = Claims {
        sub: ALICE.to_string(),
        exp: 1,
        aud: "aud".to_string(),
        iss: "iss".to_string(),
    };
    assert_eq!(
        logout(caller.clone(), LogoutDto { refresh_token: "token".to_string() }),
        (
            Flow::LogoutDecoding { subject: ALICE.to_string() },
            Effect::DecodeRefreshToken { token: "token".to_string() },
        )
    );
    assert_eq!(
        Some(logout(caller, LogoutDto { refresh_token: String::new() })),
        refused(CustomError::MissingCredentials)
    );
    let decoding = || Flow::LogoutDecoding { subject: ALICE.to_string() };
    assert_eq!(
        resume(decoding(), Event::RefreshTokenDecoded(Ok(claims(ALICE, "jti-1"))), 9),
        Some((
            Flow::LogoutRevoking,
            Effect::RevokeRefreshToken { jti: "jti-1".to_string(), revoked_at: 9 },
        ))
    );
    assert_eq!(
        resume(decoding(), Event::RefreshTokenDecoded(Ok(claims("89abcdef0123456701234567", "jti-1"))), 9),
        refused(CustomError::WrongCredentials)
    );
    assert_eq!(
        resume(decoding(), Event::RefreshTokenDecoded(Ok(claims(ALICE, ""))), 9),
        refused(CustomError::MissingCredentials)
    );
    assert_eq!(
        resume(decoding(), Event::RefreshTokenDecoded(Err(CustomError::TokenExpired)), 9),
        refused(CustomError::TokenExpired)
    );
}

#[test]
fn logout_succeeds_whether_or_not_the_token_was_active() {
    let done = Some((
        Flow::Finished { reuse: None },
        Effect::Done { result: Ok(Reply::General(GeneralResDto::ok())) },
    ));
    for outcome in [RevokeOutcome::Revoked, RevokeOutcome::AlreadyRevoked] {
        assert_eq!(resume(Flow::LogoutRevoking, Event::RefreshTokenRevoked(Ok(outcome)), 1), done);
    }
    assert_eq!(
        resume(Flow::LogoutRevoking, Event::RefreshTokenRevoked(Err(CustomError::MongoError)), 1),
        refused(CustomError::MongoError)
    );
    assert_eq!(GeneralResDto::ok(), GeneralResDto { status_code: 200, message: "Ok".to_string() });
}

#[test]
fn verification_consumes_the_digest_for_the_canonical_id() {
    let payload = VerifyEmailDto {
        token: "abc".to_string(),
        user_id: "0123456789ABCDEF01234567".to_string(),
    };
    assert_eq!(
        verify_email(payload, 55),
        (
            Flow::VerifyConsuming { user_id: ALICE.to_string() },
            Effect::ConsumeVerification {
                token_hash: "ba7816bf8f01cfea414140de5dae2223b00361a396177a9cb410ff61f20015ad"
                    .to_string(),
                user_id: ALICE.to_string(),
                at: 55,
            },
        )
    );
    assert_eq!(hash_verification_token("abc").len(), 64);
    for id in ["", "xyz", "alice", "0123456789abcdef0123456", "0123456789abcdef0123456z"] {
        let payload = VerifyEmailDto { token: "abc".to_string(), user_id: id.to_string() };
        assert_eq!(Some(verify_email(payload, 55)), refused(CustomError::InvalidToken));
    }
}

#[test]
fn verification_marks_the_user_after_the_consumption() {
    let consuming = || Flow::VerifyConsuming { user_id: ALICE.to_string() };
    assert_eq!(
        resume(consuming(), Event::VerificationConsumed(Ok(())), 1),
        Some((Flow::VerifyMarking, Effect::MarkEmailVerified { user_id: ALICE.to_string() }))
    );
    for error in [CustomError::InvalidToken, CustomError::MongoError] {
        assert_eq!(
            resume(consuming(), Event::VerificationConsumed(Err(error)), 1),
            refused(CustomError::InvalidToken)
        );
    }
    assert_eq!(
        resume(Flow::VerifyMarking, Event::EmailMarkedVerified(Ok(())), 1),
        Some((
            Flow::Finished { reuse: None },
            Effect::Done { result: Ok(Reply::General(GeneralResDto::ok())) },
        ))
    );
    assert_eq!(
        resume(Flow::VerifyMarking, Event::EmailMarkedVerified(Err(CustomError::MongoError)), 1),
        refused(CustomError::MongoError)
    );
}

#[test]
fn answer_to_a_question_that_was_not_asked_is_no_step() {
    assert_eq!(resume(Flow::RefreshDecoding, Event::VerificationStarted, 1), None);
    assert_eq!(resume(Flow::LogoutRevoking, Event::PasswordChecked(Ok(())), 1), None);
    assert_eq!(
        resume(Flow::Finished { reuse: None }, Event::RefreshTokenRevoked(Ok(RevokeOutcome::Revoked)), 1),
        None
    );
    assert_eq!(
        resume(finding(false), Event::RefreshTokenRevoked(Ok(RevokeOutcome::Revoked)), 1),
        None
    );
    assert_eq!(
        resume(Flow::VerifyMarking, Event::VerificationConsumed(Ok(())), 1),
        None
    );
}

#[test]
fn conversation_ends_with_a_refusal_or_a_reply() {
    assert_eq!(Some(refuse(CustomError::InvalidToken)), refused(CustomError::InvalidToken));
    assert_eq!(
        serve(Reply::Tokens(pair())),
        (Flow::Finished { reuse: None }, Effect::Done { result: Ok(Reply::Tokens(pair())) })
    );
    assert_eq!(pair().token_type, "Bearer");
    assert_eq!(pair().access_token, "access");
    assert_eq!(pair().refresh_token, "refresh");
}
