//! An email as the mail provider takes it.

use vstd::prelude::*;

verus! {

/// What the mails of the application are sent with and speak of.
#[derive(Debug, Clone, PartialEq, Eq)]
pub struct MailSettings {
    pub app_name: String,
    pub domain: String,
    pub support_email: String,
    pub company_address: String,
    pub sender_name: String,
    pub sender_email: String,
}

/// What a `MailSettings` says.
pub struct MailSettingsView {
    pub app_name: Seq<char>,
    pub domain: Seq<char>,
    pub support_email: Seq<char>,
    pub company_address: Seq<char>,
    pub sender_name: Seq<char>,
    pub sender_email: Seq<char>,
}

impl View for MailSettings {
    type V = MailSettingsView;

    open spec fn view(&self) -> MailSettingsView {
        MailSettingsView {
            app_name: self.app_name@,
            domain: self.domain@,
            support_email: self.support_email@,
            company_address: self.company_address@,
            sender_name: self.sender_name@,
            sender_email: self.sender_email@,
        }
    }
}

/// A name and an email address.
#[derive(Debug, PartialEq, Eq)]
pub struct Person {
    pub name: String,
    pub email: String,
}

/// A mail in HTML from one sender to some recipients.
#[derive(Debug, PartialEq, Eq)]
pub struct Email {
    pub sender: Person,
    pub to: Vec<Person>,
    pub html_content: String,
    pub subject: String,
}

/// What a `Person` says.
pub struct PersonView {
    pub name: Seq<char>,
    pub email: Seq<char>,
}

/// What an `Email` says.
pub struct EmailView {
    pub sender: PersonView,
    pub to: Seq<PersonView>,
    pub html_content: Seq<char>,
    pub subject: Seq<char>,
}

impl View for Person {
    type V = PersonView;

    open spec fn view(&self) -> PersonView {
        PersonView { name: self.name@, email: self.email@ }
    }
}

impl View for Email {
    type V = EmailView;

    open spec fn view(&self) -> EmailView {
        EmailView {
            sender: self.sender@,
            to: Seq::new(self.to@.len(), |i: int| self.to@[i]@),
            html_content: self.html_content@,
            subject: self.subject@,
        }
    }
}

impl EmailView {
    /// The mail from the sender to the recipients, each given as name and
    /// address.
    pub open spec fn compose(
        sender_name: Seq<char>,
        sender_email: Seq<char>,
        recipients: Seq<(Seq<char>, Seq<char>)>,
        html: Seq<char>,
        subject: Seq<char>,
    ) -> EmailView {
        EmailView {
            sender: PersonView { name: sender_name, email: sender_email },
            to: Seq::new(
                recipients.len(),
                |i: int| PersonView { name: recipients[i].0, email: recipients[i].1 },
            ),
            html_content: html,
            subject,
        }
    }
}

impl Email {
    /// The mail from the sender to the recipients, each given as name and
    /// address.
    pub fn new(
        sender_name: &str,
        sender_email: &str,
        recipients: Vec<(&str, &str)>,
        html: String,
        subject: &str,
    ) -> (mail: Email)
        ensures
            mail@ == EmailView::compose(
                sender_name@,
                sender_email@,
                Seq::new(recipients@.len(), |i: int| (recipients@[i].0@, recipients@[i].1@)),
                html@,
                subject@,
            ),
    {
        let mut to: Vec<Person> = Vec::new();
        let mut i: usize = 0;
        while i < recipients.len()
            invariant
                i <= recipients.len(),
                to@.len() == i,
                forall|k: int|
                    0 <= k < i ==> (#[trigger] to@[k])@ == (PersonView {
                        name: recipients@[k].0@,
                        email: recipients@[k].1@,
                    }),
            decreases recipients.len() - i,
        {
            let recipient = recipients[i];
            to.push(Person { name: recipient.0.to_owned(), email: recipient.1.to_owned() });
            i += 1;
        }
        let mail = Email {
            sender: Person { name: sender_name.to_owned(), email: sender_email.to_owned() },
            to,
            html_content: html,
            subject: subject.to_owned(),
        };
        assert(mail@.to =~= EmailView::compose(
            sender_name@,
            sender_email@,
            Seq::new(recipients@.len(), |i: int| (recipients@[i].0@, recipients@[i].1@)),
            html@,
            subject@,
        ).to);
        mail
    }
}

} // verus!
