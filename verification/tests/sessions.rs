use base64::Engine;
use bff::dtos::auth_dto::{AuthResDto, LoginReqDto, LogoutDto, RegisterReqDto, VerifyEmailDto};
use bff::error::CustomError;
use bff::handlers::auth_handler::{login, logout, refresh, register, resume, verify_email};
use bff::handlers::conversation::{Effect, Event, Flow, Reply, Step};
use bff::handlers::reuse::Reuse;
use bff::models::email_verif_token::NewEmailVerifToken;
use bff::models::refresh_token::NewRefreshToken;
use bff::services::auth_service::AuthService;
use bff::services::email_verif_token_service::VerifEmailTokenService;
use bff::services::refresh_token_service::RefreshTokenService;
use bff::services::user_service::UserService;
use bff::types::keys::Keys;
use bff::utils::now_epoch;

const PRIVATE_DER: [u8; 48] = [
    48, 46, 2, 1, 0, 48, 5, 6, 3, 43, 101, 112, 4, 34, 4, 32, 114, 161, 147, 211, 150, 155, 76, 30,
    35, 221, 173, 26, 76, 148, 171, 187, 104, 178, 122, 219, 125, 215, 223, 225, 158, 225, 21, 35,
    95, 8, 72, 96,
];

const PUBLIC_DER: [u8; 44] = [
    48, 42, 48, 5, 6, 3, 43, 101, 112, 3, 33, 0, 73, 62, 186, 40, 4, 32, 219, 236, 49, 116, 163,
    241, 133, 159, 244, 209, 220, 146, 112, 161, 5, 10, 53, 147, 119, 202, 109, 72, 199, 212, 218,
    211,
];

fn pem(label: &str, der: &[u8]) -> Vec<u8> {
    let body = base64::engine::general_purpose::STANDARD.encode(der);
    format!("-----BEGIN {label}-----\n{body}\n-----END {label}-----\n").into_bytes()
}

struct Backend {
    auth: AuthService,
    users: UserService,
    refresh_tokens: RefreshTokenService,
    verif_tokens: VerifEmailTokenService,
    mails_started: Vec<String>,
    verified: Vec<String>,
    tokens_issued: usize,
    ids_drawn: u64,
}

fn backend() -> Backend {
    let keys = Keys::new(pem("PRIVATE KEY", &PRIVATE_DER), pem("PUBLIC KEY", &PUBLIC_DER))
        .expect("the key pair is read");
    Backend {
        auth: AuthService::new(keys, "the-app".to_string(), "the-issuer".to_string()),
        users: UserService::new(),
        refresh_tokens: RefreshTokenService::new(),
        verif_tokens: VerifEmailTokenService::new(),
        mails_started: Vec::new(),
        verified: Vec::new(),
        tokens_issued: 0,
        ids_drawn: 0,
    }
}

fn draw_id(b: &mut Backend) -> String {
    b.ids_drawn += 1;
    format!("{:024x}", b.ids_drawn)
}

fn answer(b: &mut Backend, effect: Effect) -> Event {
    match effect {
        Effect::HashPassword { password } => Event::PasswordHashed(b.auth.hash_password(password)),
        Effect::CreateUser { user } => {
            let id = draw_id(b);
            Event::UserCreated(b.users.create_user(&user, id))
        }
        Effect::SendVerification { user_id, .. } => {
            b.mails_started.push(user_id);
            Event::VerificationStarted
        }
        Effect::FindUserByEmail { email } => Event::UserFound(b.users.get_user_by_email(&email)),
        Effect::CheckPassword { password, password_hash } => {
            Event::PasswordChecked(b.auth.verify_password(password, password_hash))
        }
        Effect::IssueTokens { subject } => {
            b.tokens_issued += 1;
            Event::TokensIssued(b.auth.generate_tokens(&subject))
        }
        Effect::CreateRefreshToken { record } => {
            let id = draw_id(b);
            Event::RefreshTokenCreated(b.refresh_tokens.create_token(&record, id))
        }
        Effect::DecodeRefreshToken { token } => {
            Event::RefreshTokenDecoded(b.auth.decode_refresh_token(&token))
        }
        Effect::FindRefreshToken { jti } => {
            Event::RefreshTokenFound(b.refresh_tokens.get_token_by_jti(&jti))
        }
        Effect::RevokeRefreshToken { jti, revoked_at } => {
            Event::RefreshTokenRevoked(b.refresh_tokens.revoke_token(&jti, revoked_at))
        }
        Effect::ConsumeVerification { token_hash, user_id, at } => Event::VerificationConsumed(
            b.verif_tokens.find_valid_token_then_update(&token_hash, &user_id, at),
        ),
        Effect::MarkEmailVerified { user_id } => {
            b.verified.push(user_id.clone());
            Event::EmailMarkedVerified(b.users.update_email_verified(&user_id, 0))
        }
        Effect::Done { .. } => unreachable!("a request that was answered asks for nothing"),
    }
}

fn run(b: &mut Backend, step: Step, now: i64) -> (Flow, Result<Reply, CustomError>) {
    let (mut flow, mut effect) = step;
    loop {
        if let Effect::Done { result } = effect {
            return (flow, result);
        }
        let event = answer(b, effect);
        let next = resume(flow, event, now).expect("every effect is answered by its event");
        flow = next.0;
        effect = next.1;
    }
}

fn now_millis() -> i64 {
    now_epoch().expect("the clock reads a time after 1970") as i64 * 1000
}

fn tokens(result: Result<Reply, CustomError>) -> AuthResDto {
    match result {
        Ok(Reply::Tokens(pair)) => pair,
        other => panic!("expected a pair of tokens, got {other:?}"),
    }
}

fn jti_of(b: &Backend, pair: &AuthResDto) -> String {
    b.auth.decode_refresh_token(&pair.refresh_token).expect("a fresh refresh token decodes").jti
}

fn register_alice(b: &mut Backend) -> AuthResDto {
    let step = register(RegisterReqDto {
        email: "a@b.com".to_string(),
        username: "alice".to_string(),
        password: "longenough1".to_string(),
    });
    tokens(run(b, step, now_millis()).1)
}

fn login_alice(b: &mut Backend) -> AuthResDto {
    let step = login(LoginReqDto {
        email: "a@b.com".to_string(),
        password: "longenough1".to_string(),
    });
    tokens(run(b, step, now_millis()).1)
}

fn rotate(b: &mut Backend, token: &str, now: i64) -> (Flow, Result<Reply, CustomError>) {
    run(b, refresh(LogoutDto { refresh_token: token.to_string() }), now)
}

#[test]
fn register_login_refresh_logout_scenario() {
    let mut b = backend();
    let registered = register_alice(&mut b);
    assert!(!registered.access_token.is_empty());
    assert!(!registered.refresh_token.is_empty());
    assert_eq!(registered.token_type, "Bearer");
    assert_eq!(b.mails_started.len(), 1);

    let logged_in = login_alice(&mut b);
    assert_ne!(logged_in.refresh_token, registered.refresh_token);
    let first_jti = jti_of(&b, &registered);
    let second_jti = jti_of(&b, &logged_in);
    assert_ne!(first_jti, second_jti);

    let refreshed = tokens(rotate(&mut b, &logged_in.refresh_token, now_millis()).1);
    let third_jti = jti_of(&b, &refreshed);
    assert_ne!(third_jti, first_jti);
    assert_ne!(third_jti, second_jti);

    let claims = b.auth.authenticate(&refreshed.access_token).expect("the access token is good");
    let step = logout(claims, LogoutDto { refresh_token: refreshed.refresh_token.clone() });
    let (_, logged_out) = run(&mut b, step, now_millis());
    match logged_out {
        Ok(Reply::General(res)) => {
            assert_eq!(res.status_code, 200);
            assert_eq!(res.message, "Ok");
        }
        other => panic!("expected the logout to be carried out, got {other:?}"),
    }

    let (_, after_logout) = rotate(&mut b, &refreshed.refresh_token, now_millis());
    assert_eq!(after_logout, Err(CustomError::InvalidToken));
}

#[test]
fn login_then_rotate_succeeds_exactly_once() {
    let mut b = backend();
    register_alice(&mut b);
    let logged_in = login_alice(&mut b);
    let presented = jti_of(&b, &logged_in);
    let before = b.refresh_tokens.len();

    let now = now_millis();
    let rotated = tokens(rotate(&mut b, &logged_in.refresh_token, now).1);
    assert_ne!(jti_of(&b, &rotated), presented);
    assert_eq!(b.refresh_tokens.len(), before + 1);
    let record = b.refresh_tokens.get_token_by_jti(&presented).expect("the record stays");
    assert!(record.is_revoked);
    assert_eq!(record.used_at, Some(now));

    let (_, again) = rotate(&mut b, &logged_in.refresh_token, now + 1);
    assert_eq!(again, Err(CustomError::InvalidToken));
    assert_eq!(b.refresh_tokens.len(), before + 1);
}

#[test]
fn successor_is_an_active_record_of_the_same_subject() {
    let mut b = backend();
    register_alice(&mut b);
    let logged_in = login_alice(&mut b);
    let subject = b.auth.decode_refresh_token(&logged_in.refresh_token).unwrap().sub;
    let now = now_millis();
    let rotated = tokens(rotate(&mut b, &logged_in.refresh_token, now).1);
    let claims = b.auth.decode_refresh_token(&rotated.refresh_token).unwrap();
    assert_eq!(claims.sub, subject);
    let record = b.refresh_tokens.get_token_by_jti(&claims.jti).unwrap();
    assert_eq!(record.user_id, subject);
    assert!(!record.is_revoked);
    assert_eq!(record.used_at, None);
    assert_eq!(record.created_at, now);
    assert_eq!(record.expires_at, claims.exp as i64 * 1000);
}

#[test]
fn double_submission_within_grace_gets_one_pair() {
    let mut b = backend();
    let registered = register_alice(&mut b);
    let before = b.refresh_tokens.len();
    let issued_before = b.tokens_issued;
    let now = now_millis();

    let (_, first) = rotate(&mut b, &registered.refresh_token, now);
    assert!(matches!(first, Ok(Reply::Tokens(_))));
    let (flow, second) = rotate(&mut b, &registered.refresh_token, now + 89_999);
    assert_eq!(second, Err(CustomError::InvalidToken));
    assert_eq!(flow, Flow::Finished { reuse: Some(Reuse::WithinGrace) });
    assert_eq!(b.refresh_tokens.len(), before + 1);
    assert_eq!(b.tokens_issued, issued_before + 1);
}

#[test]
fn presentation_at_the_edge_of_the_grace_window() {
    let mut b = backend();
    let registered = register_alice(&mut b);
    let now = now_millis();
    rotate(&mut b, &registered.refresh_token, now).1.expect("the first rotation succeeds");

    let (flow, at_edge) = rotate(&mut b, &registered.refresh_token, now + 90_000);
    assert_eq!(at_edge, Err(CustomError::InvalidToken));
    assert_eq!(flow, Flow::Finished { reuse: Some(Reuse::WithinGrace) });
    let (flow, past_edge) = rotate(&mut b, &registered.refresh_token, now + 90_001);
    assert_eq!(past_edge, Err(CustomError::InvalidToken));
    assert_eq!(flow, Flow::Finished { reuse: Some(Reuse::Replay) });
}

#[test]
fn replay_after_grace_creates_no_record() {
    let mut b = backend();
    let registered = register_alice(&mut b);
    let now = now_millis();
    rotate(&mut b, &registered.refresh_token, now).1.expect("the first rotation succeeds");
    let before = b.refresh_tokens.len();
    let issued_before = b.tokens_issued;

    let (flow, replayed) = rotate(&mut b, &registered.refresh_token, now + 120_000);
    assert_eq!(replayed, Err(CustomError::InvalidToken));
    assert_eq!(flow, Flow::Finished { reuse: Some(Reuse::Replay) });
    assert_eq!(b.refresh_tokens.len(), before);
    assert_eq!(b.tokens_issued, issued_before);
}

#[test]
fn refresh_of_a_record_past_its_expiry_is_expired() {
    let mut b = backend();
    let registered = register_alice(&mut b);
    let exp = b.auth.decode_refresh_token(&registered.refresh_token).unwrap().exp as i64;
    let (_, late) = rotate(&mut b, &registered.refresh_token, exp * 1000 + 1);
    assert_eq!(late, Err(CustomError::TokenExpired));
    let (_, in_time) = rotate(&mut b, &registered.refresh_token, exp * 1000);
    assert!(matches!(in_time, Ok(Reply::Tokens(_))));
}

#[test]
fn refresh_of_an_unknown_record_is_invalid() {
    let mut b = backend();
    let (pair, _, _) = b.auth.generate_tokens("0123456789abcdef01234567").unwrap();
    let (flow, result) = rotate(&mut b, &pair.refresh_token, now_millis());
    assert_eq!(result, Err(CustomError::InvalidToken));
    assert_eq!(flow, Flow::Finished { reuse: None });
    assert_eq!(b.refresh_tokens.len(), 0);
}

#[test]
fn refresh_of_text_that_is_no_token_is_invalid() {
    let mut b = backend();
    let (_, result) = rotate(&mut b, "not.a.token", now_millis());
    assert_eq!(result, Err(CustomError::InvalidToken));
    let (_, empty) = rotate(&mut b, "", now_millis());
    assert_eq!(empty, Err(CustomError::MissingCredentials));
}

#[test]
fn logout_is_idempotent() {
    let mut b = backend();
    let registered = register_alice(&mut b);
    for _ in 0..2 {
        let claims = b.auth.authenticate(&registered.access_token).unwrap();
        let step = logout(claims, LogoutDto { refresh_token: registered.refresh_token.clone() });
        let (_, result) = run(&mut b, step, now_millis());
        assert!(matches!(result, Ok(Reply::General(_))));
    }
    let jti = jti_of(&b, &registered);
    assert!(b.refresh_tokens.get_token_by_jti(&jti).unwrap().is_revoked);
}

#[test]
fn logout_with_the_token_of_another_subject_is_refused() {
    let mut b = backend();
    let alice = register_alice(&mut b);
    let step = register(RegisterReqDto {
        email: "bob@b.com".to_string(),
        username: "bobby".to_string(),
        password: "longenough2".to_string(),
    });
    let bob = tokens(run(&mut b, step, now_millis()).1);

    let claims = b.auth.authenticate(&alice.access_token).unwrap();
    let step = logout(claims, LogoutDto { refresh_token: bob.refresh_token.clone() });
    let (_, result) = run(&mut b, step, now_millis());
    assert_eq!(result, Err(CustomError::WrongCredentials));
    let jti = jti_of(&b, &bob);
    assert!(!b.refresh_tokens.get_token_by_jti(&jti).unwrap().is_revoked);
}

#[test]
fn login_with_a_wrong_password_is_refused() {
    let mut b = backend();
    register_alice(&mut b);
    let before = b.refresh_tokens.len();
    let step = login(LoginReqDto {
        email: "a@b.com".to_string(),
        password: "longenough2".to_string(),
    });
    let (_, result) = run(&mut b, step, now_millis());
    assert_eq!(result, Err(CustomError::WrongCredentials));
    assert_eq!(b.refresh_tokens.len(), before);
}

#[test]
fn login_of_an_unknown_user_is_not_found() {
    let mut b = backend();
    let step = login(LoginReqDto {
        email: "nobody@b.com".to_string(),
        password: "longenough1".to_string(),
    });
    let (_, result) = run(&mut b, step, now_millis());
    assert_eq!(result, Err(CustomError::NotFoundError("nobody@b.com".to_string())));
}

#[test]
fn login_finds_the_user_whatever_the_case_of_the_address() {
    let mut b = backend();
    let step = register(RegisterReqDto {
        email: "Alice@B.com".to_string(),
        username: "alice".to_string(),
        password: "longenough1".to_string(),
    });
    tokens(run(&mut b, step, now_millis()).1);
    assert_eq!(b.users.get_user_by_email("alice@b.com").unwrap().email, "alice@b.com");
    let step = login(LoginReqDto {
        email: "ALICE@b.COM".to_string(),
        password: "longenough1".to_string(),
    });
    assert!(matches!(run(&mut b, step, now_millis()).1, Ok(Reply::Tokens(_))));
}

#[test]
fn register_twice_with_one_address_is_a_duplicate() {
    let mut b = backend();
    register_alice(&mut b);
    let step = register(RegisterReqDto {
        email: "a@b.com".to_string(),
        username: "alice2".to_string(),
        password: "longenough1".to_string(),
    });
    let (_, result) = run(&mut b, step, now_millis());
    assert_eq!(result, Err(CustomError::DuplicateKey("a@b.com".to_string())));
    assert_eq!(b.mails_started.len(), 1);
}

#[test]
fn verification_token_is_good_once() {
    let mut b = backend();
    register_alice(&mut b);
    let user_id = b.mails_started[0].clone();
    let (raw_token, token_hash) = b.auth.generate_email_verification_token().unwrap();
    let now = now_millis();
    let id = draw_id(&mut b);
    b.verif_tokens
        .create_token(
            &NewEmailVerifToken::unused(user_id.clone(), token_hash, now, now + 3_600_000),
            id,
        )
        .unwrap();

    let step = verify_email(VerifyEmailDto { token: raw_token.clone(), user_id: user_id.clone() }, now);
    let (_, first) = run(&mut b, step, now);
    assert!(matches!(first, Ok(Reply::General(_))));
    assert_eq!(b.verified, vec![user_id.clone()]);
    assert!(b.users.get_user_by_id(&user_id).unwrap().is_email_verified);

    let step = verify_email(VerifyEmailDto { token: raw_token, user_id: user_id.clone() }, now + 1);
    let (_, second) = run(&mut b, step, now + 1);
    assert_eq!(second, Err(CustomError::InvalidToken));
    assert_eq!(b.verified, vec![user_id]);
}

#[test]
fn verification_with_a_wrong_token_or_subject_is_invalid() {
    let mut b = backend();
    register_alice(&mut b);
    let user_id = b.mails_started[0].clone();
    let (raw_token, token_hash) = b.auth.generate_email_verification_token().unwrap();
    let now = now_millis();
    let id = draw_id(&mut b);
    b.verif_tokens
        .create_token(
            &NewEmailVerifToken::unused(user_id.clone(), token_hash, now, now + 3_600_000),
            id,
        )
        .unwrap();

    let step = verify_email(VerifyEmailDto { token: "0".repeat(64), user_id: user_id.clone() }, now);
    assert_eq!(run(&mut b, step, now).1, Err(CustomError::InvalidToken));
    let other = "0123456789abcdef01234567".to_string();
    let step = verify_email(VerifyEmailDto { token: raw_token.clone(), user_id: other }, now);
    assert_eq!(run(&mut b, step, now).1, Err(CustomError::InvalidToken));
    let none = "xyz".to_string();
    let step = verify_email(VerifyEmailDto { token: raw_token.clone(), user_id: none }, now);
    assert_eq!(run(&mut b, step, now).1, Err(CustomError::InvalidToken));
    let late = now + 3_600_000;
    let step = verify_email(VerifyEmailDto { token: raw_token.clone(), user_id: user_id.clone() }, late);
    assert_eq!(run(&mut b, step, late).1, Err(CustomError::InvalidToken));
    assert!(b.verified.is_empty());

    let step = verify_email(VerifyEmailDto { token: raw_token, user_id }, late - 1);
    assert!(matches!(run(&mut b, step, late - 1).1, Ok(Reply::General(_))));
}

fn take_turn(b: &mut Backend, part: (Flow, Effect), now: i64) -> (Flow, Effect) {
    if let Effect::Done { .. } = part.1 {
        return part;
    }
    let event = answer(b, part.1);
    resume(part.0, event, now).expect("every effect is answered by its event")
}

#[test]
fn concurrent_refreshes_of_one_token_get_one_pair_in_every_order() {
    let subject = "0123456789abcdef01234567";
    let now = now_millis();
    for pattern in 0u32..256 {
        let mut b = backend();
        let (pair, jti, exp) = b.auth.generate_tokens(subject).unwrap();
        let id = draw_id(&mut b);
        let record = NewRefreshToken::active(subject.to_string(), jti.clone(), now, exp as i64 * 1000);
        b.refresh_tokens.create_token(&record, id).unwrap();

        let mut first = refresh(LogoutDto { refresh_token: pair.refresh_token.clone() });
        let mut second = refresh(LogoutDto { refresh_token: pair.refresh_token.clone() });
        for turn in 0..24 {
            let first_moves = if turn < 8 { pattern >> turn & 1 == 1 } else { turn % 2 == 0 };
            if first_moves {
                first = take_turn(&mut b, first, now + 1);
            } else {
                second = take_turn(&mut b, second, now + 2);
            }
        }
        let replies = match (first.1, second.1) {
            (Effect::Done { result: one }, Effect::Done { result: other }) => (one, other),
            other => panic!("a request was not answered: {other:?}"),
        };
        let (won, lost, at) = match replies {
            (Ok(Reply::Tokens(won)), lost) => (won, lost, now + 1),
            (lost, Ok(Reply::Tokens(won))) => (won, lost, now + 2),
            other => panic!("neither request was handed a pair: {other:?}"),
        };
        assert_eq!(lost, Err(CustomError::InvalidToken));
        assert_eq!(b.refresh_tokens.len(), 2);
        assert_eq!(b.tokens_issued, 1);
        let presented = b.refresh_tokens.get_token_by_jti(&jti).unwrap();
        assert!(presented.is_revoked);
        assert_eq!(presented.used_at, Some(at));
        let successor = b.refresh_tokens.get_token_by_jti(&jti_of(&b, &won)).unwrap();
        assert!(!successor.is_revoked);
        assert_eq!(successor.user_id, subject);
        assert_eq!(successor.created_at, at);
    }
}
