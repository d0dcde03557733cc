//! The values that fill the template of the verification mail.

use vstd::prelude::*;
use vstd::string::*;
use crate::services::auth_service::EMAIL_VERIFICATION_EXP_MINUTES;
use crate::text::{decimal, decimal_of};
use crate::types::email::MailSettings;

verus! {

/// The seven values of the verification mail.
#[derive(Debug, PartialEq, Eq)]
pub struct VerifyEmail {
    app_name: String,
    username: String,
    verification_url: String,
    expiry_minutes: String,
    support_email: String,
    company_address: String,
    unsubscribe_url: String,
}

/// What a `VerifyEmail` says.
pub struct VerifyEmailView {
    pub app_name: Seq<char>,
    pub username: Seq<char>,
    pub verification_url: Seq<char>,
    pub expiry_minutes: Seq<char>,
    pub support_email: Seq<char>,
    pub company_address: Seq<char>,
    pub unsubscribe_url: Seq<char>,
}

impl View for VerifyEmail {
    type V = VerifyEmailView;

    closed spec fn view(&self) -> VerifyEmailView {
        VerifyEmailView {
            app_name: self.app_name@,
            username: self.username@,
            verification_url: self.verification_url@,
            expiry_minutes: self.expiry_minutes@,
            support_email: self.support_email@,
            company_address: self.company_address@,
            unsubscribe_url: self.unsubscribe_url@,
        }
    }
}

/// The link that verifies the email address of `user_id` with `token`.
pub open spec fn verification_url(domain: Seq<char>, token: Seq<char>, user_id: Seq<char>) -> Seq<
    char,
> {
    domain + "/auth/verify_email?token="@ + token + "&user_id="@ + user_id
}

impl VerifyEmailView {
    /// The values for the mail to `username`, whose id is `user_id`, with
    /// the verification token `token`.
    pub open spec fn compose(
        app_name: Seq<char>,
        domain: Seq<char>,
        support_email: Seq<char>,
        company_address: Seq<char>,
        username: Seq<char>,
        user_id: Seq<char>,
        token: Seq<char>,
    ) -> VerifyEmailView {
        VerifyEmailView {
            app_name,
            username,
            verification_url: verification_url(domain, token, user_id),
            expiry_minutes: decimal_of((EMAIL_VERIFICATION_EXP_MINUTES / 60) as nat),
            support_email,
            company_address,
            unsubscribe_url: domain + "/unsubscribe"@,
        }
    }

    /// The values by the names under which the template asks for them, in
    /// the order in which they are filled in.
    pub open spec fn pairs(self) -> Seq<(Seq<char>, Seq<char>)> {
        seq![
            ("app_name"@, self.app_name),
            ("username"@, self.username),
            ("verification_url"@, self.verification_url),
            ("expiry_minutes"@, self.expiry_minutes),
            ("support_email"@, self.support_email),
            ("company_address"@, self.company_address),
            ("unsubscribe_url"@, self.unsubscribe_url),
        ]
    }
}

impl VerifyEmail {
    /// The values for the mail to `username`, whose id is `user_id`, with
    /// the verification token `token`.
    pub fn new(settings: &MailSettings, username: &str, user_id: &str, token: &str) -> (values:
        VerifyEmail)
        ensures
            values@ == VerifyEmailView::compose(
                settings.app_name@,
                settings.domain@,
                settings.support_email@,
                settings.company_address@,
                username@,
                user_id@,
                token@,
            ),
    {
        VerifyEmail {
            app_name: settings.app_name.clone(),
            username: username.to_owned(),
            verification_url: settings.domain.clone().concat("/auth/verify_email?token=").concat(
                token,
            ).concat("&user_id=").concat(user_id),
            expiry_minutes: decimal((EMAIL_VERIFICATION_EXP_MINUTES / 60) as u64),
            support_email: settings.support_email.clone(),
            company_address: settings.company_address.clone(),
            unsubscribe_url: settings.domain.clone().concat("/unsubscribe"),
        }
    }

    /// The values by the names under which the template asks for them.
    pub fn as_array(&self) -> (pairs: [(&str, &str); 7])
        ensures
            pairs@.len() == 7,
            forall|i: int|
                0 <= i < 7 ==> (#[trigger] pairs@[i]).0@ == self@.pairs()[i].0 && pairs@[i].1@
                    == self@.pairs()[i].1,
    {
        [
            ("app_name", self.app_name.as_str()),
            ("username", self.username.as_str()),
            ("verification_url", self.verification_url.as_str()),
            ("expiry_minutes", self.expiry_minutes.as_str()),
            ("support_email", self.support_email.as_str()),
            ("company_address", self.company_address.as_str()),
            ("unsubscribe_url", self.unsubscribe_url.as_str()),
        ]
    }
}

} // verus!
