use bff::error::CustomError;
use bff::handlers::verification_mail::{
    fail_mail, resume_mail, send_verification, verification_expires_at, Addressee, MailEffect,
    MailEvent, MailFlow, VERIFY_EMAIL_SUBJECT, VERIFY_EMAIL_TEMPLATE,
};
use bff::models::email_verif_token::NewEmailVerifToken;
use bff::services::email_service::{EmailService, EmailTemplateValues};
use bff::text::{chars_of, contains_char, contains_text, decimal, replace_all, stands_at, text_of};
use bff::types::email::{Email, MailSettings, Person};
use bff::types::verify_email::VerifyEmail;

const ALICE: &str = "0123456789abcdef01234567";

fn settings() -> MailSettings {
    MailSettings {
        app_name: "The App".to_string(),
        domain: "https://app.example".to_string(),
        support_email: "help@app.example".to_string(),
        company_address: "1 Main Street".to_string(),
        sender_name: "The App Team".to_string(),
        sender_email: "noreply@app.example".to_string(),
    }
}

fn alice() -> Addressee {
    Addressee {
        user_id: ALICE.to_string(),
        username: "alice".to_string(),
        email: "a@b.com".to_string(),
    }
}

fn values() -> EmailTemplateValues {
    EmailTemplateValues::VerifyEmailValues(VerifyEmail::new(&settings(), "alice", ALICE, "tok"))
}

#[test]
fn text_is_taken_apart_and_put_together() {
    assert_eq!(chars_of("aö€"), vec!['a', 'ö', '€']);
    assert_eq!(chars_of(""), Vec::<char>::new());
    assert_eq!(text_of(&vec!['a', 'ö', '€']), "aö€");
    assert_eq!(text_of(&Vec::new()), "");
}

#[test]
fn character_is_found_in_text() {
    assert!(contains_char("a@b", '@'));
    assert!(contains_char("@", '@'));
    assert!(!contains_char("ab", '@'));
    assert!(!contains_char("", '@'));
}

#[test]
fn pattern_is_found_at_a_position() {
    let text = chars_of("text/html");
    let html = chars_of("html");
    assert!(stands_at(&text, &html, 5));
    assert!(!stands_at(&text, &html, 4));
    assert!(!stands_at(&text, &html, 6));
    assert!(!stands_at(&text, &html, usize::MAX));
    assert!(stands_at(&text, &Vec::new(), 9));
    assert!(!stands_at(&text, &Vec::new(), 10));
}

#[test]
fn pattern_is_found_in_text() {
    assert!(contains_text("text/html; charset=utf-8", "html"));
    assert!(contains_text("html", "html"));
    assert!(contains_text("xhtml", "html"));
    assert!(!contains_text("text/plain", "html"));
    assert!(!contains_text("htm", "html"));
    assert!(!contains_text("", "html"));
    assert!(contains_text("", ""));
    assert!(contains_text("a", ""));
}

#[test]
fn every_occurrence_is_replaced_from_left_to_right() {
    assert_eq!(replace_all("a{{x}}b{{x}}", "{{x}}", "1"), "a1b1");
    assert_eq!(replace_all("aaa", "aa", "b"), "ba");
    assert_eq!(replace_all("aaaa", "aa", "b"), "bb");
    assert_eq!(replace_all("abc", "abc", ""), "");
    assert_eq!(replace_all("abc", "abcd", "x"), "abc");
    assert_eq!(replace_all("", "a", "x"), "");
    assert_eq!(replace_all("ab", "b", "bb"), "abb");
    assert_eq!(replace_all("äöä", "ä", "ae"), "aeöae");
    assert_eq!(replace_all("abc", "", "x"), "abc");
    assert_eq!(replace_all("abc", "x", "y"), "abc".replace("x", "y"));
    assert_eq!(replace_all("{{{{x}}}}", "{{x}}", "1"), "{{{{x}}}}".replace("{{x}}", "1"));
}

#[test]
fn number_is_written_in_decimal() {
    assert_eq!(decimal(0), "0");
    assert_eq!(decimal(9), "9");
    assert_eq!(decimal(10), "10");
    assert_eq!(decimal(60), "60");
    assert_eq!(decimal(4_294_967_295), "4294967295");
    assert_eq!(decimal(u64::MAX), "18446744073709551615");
}

#[test]
fn values_of_the_verification_mail() {
    let values = VerifyEmail::new(&settings(), "alice", ALICE, "tok");
    assert_eq!(
        values.as_array(),
        [
            ("app_name", "The App"),
            ("username", "alice"),
            (
                "verification_url",
                "https://app.example/auth/verify_email?token=tok&user_id=0123456789abcdef01234567"
            ),
            ("expiry_minutes", "60"),
            ("support_email", "help@app.example"),
            ("company_address", "1 Main Street"),
            ("unsubscribe_url", "https://app.example/unsubscribe"),
        ]
    );
}

#[test]
fn template_is_filled_in() {
    let template = "<p>Hi {{username}}, welcome to {{app_name}}. {{username}}: \
        <a href=\"{{verification_url}}\">verify</a> within {{expiry_minutes}} minutes. \
        {{support_email}} {{company_address}} {{unsubscribe_url}} {{unknown}} {username}</p>";
    let html = EmailService::new().prepare_template(template.as_bytes(), "text/html", values());
    assert_eq!(
        html,
        Ok("<p>Hi alice, welcome to The App. alice: \
            <a href=\"https://app.example/auth/verify_email?token=tok&user_id=0123456789abcdef01234567\">verify</a> \
            within 60 minutes. help@app.example 1 Main Street https://app.example/unsubscribe \
            {{unknown}} {username}</p>"
            .to_string())
    );
}

#[test]
fn values_are_filled_in_one_after_the_other() {
    let mut s = settings();
    s.app_name = "{{username}}".to_string();
    let values = EmailTemplateValues::VerifyEmailValues(VerifyEmail::new(&s, "alice", ALICE, "tok"));
    let html = EmailService::new().prepare_template(b"{{app_name}}", "html", values);
    assert_eq!(html, Ok("alice".to_string()));
    let values = EmailTemplateValues::VerifyEmailValues(VerifyEmail::new(&settings(), "{{app_name}}", ALICE, "tok"));
    let html = EmailService::new().prepare_template(b"{{username}}", "html", values);
    assert_eq!(html, Ok("{{app_name}}".to_string()));
}

#[test]
fn template_that_is_not_html_or_not_utf8_is_refused() {
    let service = EmailService::new();
    assert_eq!(
        service.prepare_template(b"{{username}}", "text/plain", values()),
        Err(CustomError::EmailTemplateError)
    );
    assert_eq!(
        service.prepare_template(b"{{username}}", "", values()),
        Err(CustomError::EmailTemplateError)
    );
    assert_eq!(
        service.prepare_template(&[0xff, 0xfe], "text/html", values()),
        Err(CustomError::EmailTemplateError)
    );
    assert_eq!(
        service.prepare_template(&[0xc3, 0xa4], "html", values()),
        Ok("ä".to_string())
    );
    assert_eq!(service.prepare_template(b"", "html", values()), Ok(String::new()));
}

#[test]
fn mail_is_composed() {
    let mail = Email::new(
        "The App Team",
        "noreply@app.example",
        vec![("alice", "a@b.com"), ("bob", "bob@b.com")],
        "<p>hi</p>".to_string(),
        "Hello",
    );
    assert_eq!(
        mail,
        Email {
            sender: Person {
                name: "The App Team".to_string(),
                email: "noreply@app.example".to_string(),
            },
            to: vec![
                Person { name: "alice".to_string(), email: "a@b.com".to_string() },
                Person { name: "bob".to_string(), email: "bob@b.com".to_string() },
            ],
            html_content: "<p>hi</p>".to_string(),
            subject: "Hello".to_string(),
        }
    );
    assert!(Email::new("s", "s@s", Vec::new(), String::new(), "").to.is_empty());
}

#[test]
fn verification_token_expires_after_an_hour() {
    assert_eq!(verification_expires_at(0), Some(3_600_000));
    assert_eq!(verification_expires_at(1_700_000_000_000), Some(1_700_003_600_000));
    assert_eq!(verification_expires_at(i64::MAX - 3_600_000), Some(i64::MAX));
    assert_eq!(verification_expires_at(i64::MAX - 3_599_999), None);
    assert_eq!(verification_expires_at(-3_600_000), Some(0));
}

#[test]
fn sending_begins_with_the_template() {
    assert_eq!(VERIFY_EMAIL_TEMPLATE, "halalho/email-templates/verify-email.html");
    assert_eq!(
        send_verification(alice()),
        (
            MailFlow::Fetching { to: alice() },
            MailEffect::FetchTemplate { key: VERIFY_EMAIL_TEMPLATE.to_string() },
        )
    );
}

#[test]
fn sending_needs_the_template_and_its_content_type() {
    let fetching = || MailFlow::Fetching { to: alice() };
    let failed = Some((MailFlow::Finished, MailEffect::Done { result: Err(CustomError::R2Error) }));
    assert_eq!(
        resume_mail(fetching(), MailEvent::TemplateFetched(Err(CustomError::MongoError)), &settings(), 1),
        failed
    );
    assert_eq!(
        resume_mail(fetching(), MailEvent::TemplateFetched(Ok((b"x".to_vec(), None))), &settings(), 1),
        failed
    );
    assert_eq!(
        resume_mail(
            fetching(),
            MailEvent::TemplateFetched(Ok((b"x".to_vec(), Some("text/html".to_string())))),
            &settings(),
            1
        ),
        Some((
            MailFlow::Drawing {
                to: alice(),
                template: b"x".to_vec(),
                content_type: "text/html".to_string(),
            },
            MailEffect::DrawToken,
        ))
    );
    assert_eq!(
        Some(fail_mail(CustomError::R2Error)),
        failed
    );
}

#[test]
fn sending_stores_the_digest_never_the_token() {
    let drawing = || MailFlow::Drawing {
        to: alice(),
        template: b"x".to_vec(),
        content_type: "text/html".to_string(),
    };
    let drawn = || MailEvent::TokenDrawn(Ok(("raw".to_string(), "digest".to_string())));
    assert_eq!(
        resume_mail(drawing(), drawn(), &settings(), 1_000),
        Some((
            MailFlow::Storing {
                to: alice(),
                template: b"x".to_vec(),
                content_type: "text/html".to_string(),
                raw_token: "raw".to_string(),
            },
            MailEffect::CreateVerificationToken {
                record: NewEmailVerifToken {
                    user_id: ALICE.to_string(),
                    token_hash: "digest".to_string(),
                    expires_at: 3_601_000,
                    created_at: 1_000,
                },
            },
        ))
    );
    assert_eq!(
        resume_mail(drawing(), drawn(), &settings(), i64::MAX),
        Some((MailFlow::Finished, MailEffect::Done { result: Err(CustomError::TokenCreation) }))
    );
    assert_eq!(
        resume_mail(drawing(), MailEvent::TokenDrawn(Err(CustomError::TokenCreation)), &settings(), 1),
        Some((MailFlow::Finished, MailEffect::Done { result: Err(CustomError::TokenCreation) }))
    );
}

#[test]
fn sending_fills_the_template_and_hands_the_mail_over() {
    let storing = |content_type: &str| MailFlow::Storing {
        to: alice(),
        template: b"{{username}}: {{verification_url}}".to_vec(),
        content_type: content_type.to_string(),
        raw_token: "raw".to_string(),
    };
    let stored = || MailEvent::VerificationTokenCreated(Ok(ALICE.to_string()));
    assert_eq!(
        resume_mail(storing("text/html"), stored(), &settings(), 1),
        Some((
            MailFlow::Sending,
            MailEffect::SendEmail {
                email: Email {
                    sender: Person {
                        name: "The App Team".to_string(),
                        email: "noreply@app.example".to_string(),
                    },
                    to: vec![Person { name: "alice".to_string(), email: "a@b.com".to_string() }],
                    html_content: "alice: https://app.example/auth/verify_email?token=raw&user_id=0123456789abcdef01234567".to_string(),
                    subject: "Please verify your email-address".to_string(),
                },
            },
        ))
    );
    assert_eq!(VERIFY_EMAIL_SUBJECT, "Please verify your email-address");
    assert_eq!(
        resume_mail(storing("text/plain"), stored(), &settings(), 1),
        Some((MailFlow::Finished, MailEffect::Done { result: Err(CustomError::EmailTemplateError) }))
    );
    let duplicate = CustomError::DuplicateKey("digest".to_string());
    assert_eq!(
        resume_mail(
            storing("text/html"),
            MailEvent::VerificationTokenCreated(Err(duplicate.clone())),
            &settings(),
            1
        ),
        Some((MailFlow::Finished, MailEffect::Done { result: Err(duplicate) }))
    );
}

#[test]
fn sending_ends_with_what_the_provider_said() {
    for result in [Ok(()), Err(CustomError::SendEmailError), Err(CustomError::ReqwestError)] {
        assert_eq!(
            resume_mail(MailFlow::Sending, MailEvent::EmailSent(result.clone()), &settings(), 1),
            Some((MailFlow::Finished, MailEffect::Done { result }))
        );
    }
    assert_eq!(resume_mail(MailFlow::Finished, MailEvent::EmailSent(Ok(())), &settings(), 1), None);
    assert_eq!(
        resume_mail(MailFlow::Sending, MailEvent::TokenDrawn(Err(CustomError::TokenCreation)), &settings(), 1),
        None
    );
}
