//! The sending of the verification mail, as a conversation of its own.
//!
//! A registration starts it and does not wait for it. It fetches the
//! template, draws a token, stores the token's record, fills the template in
//! and hands the mail over. Where it fails it ends; nothing is tried again.

use vstd::prelude::*;
use vstd::string::*;
use crate::error::{CustomError, ErrorKind};
use crate::models::email_verif_token::{NewEmailVerifToken, NewEmailVerifTokenRecord};
use crate::services::auth_service::EMAIL_VERIFICATION_EXP_MINUTES;
use crate::services::email_service::{EmailService, EmailTemplateValues, prepare_template_spec};
use crate::types::email::{Email, EmailView, MailSettings, MailSettingsView};
use crate::types::verify_email::{VerifyEmail, VerifyEmailView};

verus! {

/// Where the template of the verification mail is kept.
pub const VERIFY_EMAIL_TEMPLATE: &'static str = "halalho/email-templates/verify-email.html";

/// The subject of the verification mail.
pub const VERIFY_EMAIL_SUBJECT: &'static str = "Please verify your email-address";

/// The next thing that the outside world has to do for the mail. Each effect
/// but `Done` is answered by the event of the same name.
#[derive(Debug, PartialEq, Eq)]
pub enum MailEffect {
    /// Fetch the object under `key` from the object store.
    FetchTemplate { key: String },
    /// Draw a verification token and its digest.
    DrawToken,
    /// Store the verification record.
    CreateVerificationToken { record: NewEmailVerifToken },
    /// Hand the mail to the mail provider.
    SendEmail { email: Email },
    /// The conversation is over.
    Done { result: Result<(), CustomError> },
}

/// What a `MailEffect` says.
pub enum MailEffectView {
    FetchTemplate { key: Seq<char> },
    DrawToken,
    CreateVerificationToken { record: NewEmailVerifTokenRecord },
    SendEmail { email: EmailView },
    Done { result: Result<(), ErrorKind> },
}

impl View for MailEffect {
    type V = MailEffectView;

    open spec fn view(&self) -> MailEffectView {
        match self {
            MailEffect::FetchTemplate { key } => MailEffectView::FetchTemplate { key: key@ },
            MailEffect::DrawToken => MailEffectView::DrawToken,
            MailEffect::CreateVerificationToken { record } => MailEffectView::CreateVerificationToken {
                record: record@,
            },
            MailEffect::SendEmail { email } => MailEffectView::SendEmail { email: email@ },
            MailEffect::Done { result } => MailEffectView::Done {
                result: match result {
                    Ok(()) => Ok(()),
                    Err(e) => Err(e@),
                },
            },
        }
    }
}

/// What the outside world answers to a `MailEffect`. A fetched object comes
/// as its bytes and its content type, if it has one; a drawn token comes
/// with its digest.
#[derive(Debug, PartialEq, Eq)]
pub enum MailEvent {
    TemplateFetched(Result<(Vec<u8>, Option<String>), CustomError>),
    TokenDrawn(Result<(String, String), CustomError>),
    VerificationTokenCreated(Result<String, CustomError>),
    EmailSent(Result<(), CustomError>),
}

/// What a `MailEvent` says.
pub enum MailEventView {
    TemplateFetched(Result<(Seq<u8>, Option<Seq<char>>), ErrorKind>),
    TokenDrawn(Result<(Seq<char>, Seq<char>), ErrorKind>),
    VerificationTokenCreated(Result<Seq<char>, ErrorKind>),
    EmailSent(Result<(), ErrorKind>),
}

impl View for MailEvent {
    type V = MailEventView;

    open spec fn view(&self) -> MailEventView {
        match self {
            MailEvent::TemplateFetched(r) => MailEventView::TemplateFetched(
                match r {
                    Ok(object) => Ok(
                        (
                            object.0@,
                            match object.1 {
                                Some(content_type) => Some(content_type@),
                                None => None,
                            },
                        ),
                    ),
                    Err(e) => Err(e@),
                },
            ),
            MailEvent::TokenDrawn(r) => MailEventView::TokenDrawn(
                match r {
                    Ok(drawn) => Ok((drawn.0@, drawn.1@)),
                    Err(e) => Err(e@),
                },
            ),
            MailEvent::VerificationTokenCreated(r) => MailEventView::VerificationTokenCreated(
                match r {
                    Ok(id) => Ok(id@),
                    Err(e) => Err(e@),
                },
            ),
            MailEvent::EmailSent(r) => MailEventView::EmailSent(
                match r {
                    Ok(()) => Ok(()),
                    Err(e) => Err(e@),
                },
            ),
        }
    }
}

/// Whom the mail is for.
#[derive(Debug, PartialEq, Eq)]
pub struct Addressee {
    pub user_id: String,
    pub username: String,
    pub email: String,
}

/// What an `Addressee` says.
pub struct AddresseeView {
    pub user_id: Seq<char>,
    pub username: Seq<char>,
    pub email: Seq<char>,
}

impl View for Addressee {
    type V = AddresseeView;

    open spec fn view(&self) -> AddresseeView {
        AddresseeView { user_id: self.user_id@, username: self.username@, email: self.email@ }
    }
}

/// Where the sending stands.
#[derive(Debug, PartialEq, Eq)]
pub enum MailFlow {
    /// Waiting for the template.
    Fetching { to: Addressee },
    /// Waiting for the token.
    Drawing { to: Addressee, template: Vec<u8>, content_type: String },
    /// Waiting for the token's record to be stored.
    Storing { to: Addressee, template: Vec<u8>, content_type: String, raw_token: String },
    /// Waiting for the mail to be handed over.
    Sending,
    /// Over.
    Finished,
}

/// What a `MailFlow` says.
pub enum MailFlowView {
    Fetching { to: AddresseeView },
    Drawing { to: AddresseeView, template: Seq<u8>, content_type: Seq<char> },
    Storing { to: AddresseeView, template: Seq<u8>, content_type: Seq<char>, raw_token: Seq<char> },
    Sending,
    Finished,
}

impl View for MailFlow {
    type V = MailFlowView;

    open spec fn view(&self) -> MailFlowView {
        match self {
            MailFlow::Fetching { to } => MailFlowView::Fetching { to: to@ },
            MailFlow::Drawing { to, template, content_type } => MailFlowView::Drawing {
                to: to@,
                template: template@,
                content_type: content_type@,
            },
            MailFlow::Storing { to, template, content_type, raw_token } => MailFlowView::Storing {
                to: to@,
                template: template@,
                content_type: content_type@,
                raw_token: raw_token@,
            },
            MailFlow::Sending => MailFlowView::Sending,
            MailFlow::Finished => MailFlowView::Finished,
        }
    }
}

/// The step that ends the sending with `error`.
pub open spec fn mail_failed(error: ErrorKind) -> (MailFlowView, MailEffectView) {
    (MailFlowView::Finished, MailEffectView::Done { result: Err(error) })
}

/// The instant, in milliseconds, at which a verification token drawn at
/// `now` expires, if it can be written in 64 bits.
pub open spec fn verification_expiry(now: i64) -> Option<i64> {
    if now + EMAIL_VERIFICATION_EXP_MINUTES * 1000 <= i64::MAX {
        Some((now + EMAIL_VERIFICATION_EXP_MINUTES * 1000) as i64)
    } else {
        None
    }
}

/// The verification mail to the addressee with the given body.
pub open spec fn verification_mail(to: AddresseeView, settings: MailSettingsView, html: Seq<char>) -> EmailView {
    EmailView::compose(
        settings.sender_name,
        settings.sender_email,
        seq![(to.username, to.email)],
        html,
        VERIFY_EMAIL_SUBJECT@,
    )
}

/// The body of the verification mail: the template filled in with the
/// values for the addressee and the token.
pub open spec fn verification_body(
    to: AddresseeView,
    settings: MailSettingsView,
    template: Seq<u8>,
    content_type: Seq<char>,
    raw_token: Seq<char>,
) -> Result<Seq<char>, ErrorKind> {
    prepare_template_spec(
        template,
        content_type,
        VerifyEmailView::compose(
            settings.app_name,
            settings.domain,
            settings.support_email,
            settings.company_address,
            to.username,
            to.user_id,
            raw_token,
        ).pairs(),
    )
}

/// How the sending begins.
pub open spec fn send_verification_spec(to: AddresseeView) -> (MailFlowView, MailEffectView) {
    (MailFlowView::Fetching { to }, MailEffectView::FetchTemplate { key: VERIFY_EMAIL_TEMPLATE@ })
}

/// The next step of a sending that stands at `flow` when `event` arrives at
/// `now`; none when `event` does not answer what `flow` asked for.
pub open spec fn resume_mail_spec(
    flow: MailFlowView,
    event: MailEventView,
    settings: MailSettingsView,
    now: i64,
) -> Option<(MailFlowView, MailEffectView)> {
    match (flow, event) {
        (MailFlowView::Fetching { to }, MailEventView::TemplateFetched(fetched)) => Some(
            match fetched {
                Err(_) => mail_failed(ErrorKind::R2Error),
                Ok(object) => match object.1 {
                    None => mail_failed(ErrorKind::R2Error),
                    Some(content_type) => (
                        MailFlowView::Drawing { to, template: object.0, content_type },
                        MailEffectView::DrawToken,
                    ),
                },
            },
        ),
        (MailFlowView::Drawing { to, template, content_type }, MailEventView::TokenDrawn(drawn)) => Some(
            match drawn {
                Err(e) => mail_failed(e),
                Ok(token) => match verification_expiry(now) {
                    None => mail_failed(ErrorKind::TokenCreation),
                    Some(expires_at) => (
                        MailFlowView::Storing { to, template, content_type, raw_token: token.0 },
                        MailEffectView::CreateVerificationToken {
                            record: NewEmailVerifTokenRecord::unused(
                                to.user_id,
                                token.1,
                                now,
                                expires_at,
                            ),
                        },
                    ),
                },
            },
        ),
        (
            MailFlowView::Storing { to, template, content_type, raw_token },
            MailEventView::VerificationTokenCreated(created),
        ) => Some(
            match created {
                Err(e) => mail_failed(e),
                Ok(_) => match verification_body(to, settings, template, content_type, raw_token) {
                    Err(e) => mail_failed(e),
                    Ok(html) => (
                        MailFlowView::Sending,
                        MailEffectView::SendEmail { email: verification_mail(to, settings, html) },
                    ),
                },
            },
        ),
        (MailFlowView::Sending, MailEventView::EmailSent(sent)) => Some(
            (MailFlowView::Finished, MailEffectView::Done { result: sent }),
        ),
        _ => None,
    }
}

/// What a step of the sending says, if there is one.
pub open spec fn mail_step_view(step: Option<(MailFlow, MailEffect)>) -> Option<
    (MailFlowView, MailEffectView),
> {
    match step {
        Some(s) => Some((s.0@, s.1@)),
        None => None,
    }
}

/// The step that ends the sending with `error`.
pub fn fail_mail(error: CustomError) -> (step: (MailFlow, MailEffect))
    ensures
        (step.0@, step.1@) == mail_failed(error@),
{
    (MailFlow::Finished, MailEffect::Done { result: Err(error) })
}

/// The instant, in milliseconds, at which a verification token drawn at
/// `now` expires.
pub fn verification_expires_at(now: i64) -> (r: Option<i64>)
    ensures
        r == verification_expiry(now),
{
    now.checked_add(EMAIL_VERIFICATION_EXP_MINUTES as i64 * 1000)
}

/// Begins the sending of the verification mail: asks for the template.
pub fn send_verification(to: Addressee) -> (step: (MailFlow, MailEffect))
    ensures
        (step.0@, step.1@) == send_verification_spec(to@),
{
    (MailFlow::Fetching { to }, MailEffect::FetchTemplate { key: VERIFY_EMAIL_TEMPLATE.to_owned() })
}

/// Takes the sending one step further: given where it stands and the answer
/// that arrived at `now`, says where it stands next and what it asks for.
/// An answer to a question that was not asked is no step at all.
pub fn resume_mail(flow: MailFlow, event: MailEvent, settings: &MailSettings, now: i64) -> (next:
    Option<(MailFlow, MailEffect)>)
    ensures
        mail_step_view(next) == resume_mail_spec(flow@, event@, settings@, now),
{
    match (flow, event) {
        (MailFlow::Fetching { to }, MailEvent::TemplateFetched(fetched)) => Some(
            match fetched {
                Err(_) => fail_mail(CustomError::R2Error),
                Ok(object) => match object.1 {
                    None => fail_mail(CustomError::R2Error),
                    Some(content_type) => (
                        MailFlow::Drawing { to, template: object.0, content_type },
                        MailEffect::DrawToken,
                    ),
                },
            },
        ),
        (MailFlow::Drawing { to, template, content_type }, MailEvent::TokenDrawn(drawn)) => Some(
            match drawn {
                Err(e) => fail_mail(e),
                Ok(token) => match verification_expires_at(now) {
                    None => fail_mail(CustomError::TokenCreation),
                    Some(expires_at) => {
                        let record = NewEmailVerifToken::unused(
                            to.user_id.clone(),
                            token.1,
                            now,
                            expires_at,
                        );
                        (
                            MailFlow::Storing { to, template, content_type, raw_token: token.0 },
                            MailEffect::CreateVerificationToken { record },
                        )
                    },
                },
            },
        ),
        (
            MailFlow::Storing { to, template, content_type, raw_token },
            MailEvent::VerificationTokenCreated(created),
        ) => Some(
            match created {
                Err(e) => fail_mail(e),
                Ok(_) => {
                    let values = EmailTemplateValues::VerifyEmailValues(
                        VerifyEmail::new(
                            settings,
                            to.username.as_str(),
                            to.user_id.as_str(),
                            raw_token.as_str(),
                        ),
                    );
                    let service = EmailService::new();
                    match service.prepare_template(
                        template.as_slice(),
                        content_type.as_str(),
                        values,
                    ) {
                        Err(e) => fail_mail(e),
                        Ok(html) => {
                            let mut recipients: Vec<(&str, &str)> = Vec::new();
                            recipients.push((to.username.as_str(), to.email.as_str()));
                            let email = Email::new(
                                settings.sender_name.as_str(),
                                settings.sender_email.as_str(),
                                recipients,
                                html,
                                VERIFY_EMAIL_SUBJECT,
                            );
                            assert(email@ == verification_mail(to@, settings@, html@)) by {
                                assert(Seq::new(
                                    recipients@.len(),
                                    |i: int| (recipients@[i].0@, recipients@[i].1@),
                                ) =~= seq![(to@.username, to@.email)]);
                            }
                            (MailFlow::Sending, MailEffect::SendEmail { email })
                        },
                    }
                },
            },
        ),
        (MailFlow::Sending, MailEvent::EmailSent(sent)) => Some(
            (MailFlow::Finished, MailEffect::Done { result: sent }),
        ),
        _ => None,
    }
}

} // verus!
