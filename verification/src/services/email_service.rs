//! The templates of the mails and how they are filled in.

use vstd::prelude::*;
use vstd::string::*;
use vstd::utf8::{decode_utf8, valid_utf8};
use crate::error::{CustomError, ErrorKind};
use crate::text::{contains_text, has_infix, replace_all, replaced, utf8_text};
use crate::types::verify_email::VerifyEmail;

verus! {

/// The values of a template, by the kind of mail.
#[derive(Debug, PartialEq, Eq)]
pub enum EmailTemplateValues {
    VerifyEmailValues(VerifyEmail),
}

impl EmailTemplateValues {
    /// The values by the names under which the template asks for them, in
    /// the order in which they are filled in.
    pub open spec fn pairs(self) -> Seq<(Seq<char>, Seq<char>)> {
        match self {
            EmailTemplateValues::VerifyEmailValues(fields) => fields@.pairs(),
        }
    }
}

/// Prepares the mails.
#[derive(Debug, PartialEq, Eq)]
pub struct EmailService {}

/// How a template asks for the value called `name`: the name in double
/// braces.
pub open spec fn placeholder(name: Seq<char>) -> Seq<char> {
    "{{"@ + name + "}}"@
}

/// The text with the placeholders of the pairs replaced by their values, one
/// pair after the other.
pub open spec fn filled(text: Seq<char>, pairs: Seq<(Seq<char>, Seq<char>)>) -> Seq<char>
    decreases pairs.len(),
{
    if pairs.len() == 0 {
        text
    } else {
        filled(replaced(text, placeholder(pairs[0].0), pairs[0].1), pairs.skip(1))
    }
}

/// What preparing a template comes to: the template must be HTML by its
/// content type and UTF-8 by its bytes, and is then filled in.
pub open spec fn prepare_template_spec(
    bytes: Seq<u8>,
    ext: Seq<char>,
    pairs: Seq<(Seq<char>, Seq<char>)>,
) -> Result<Seq<char>, ErrorKind> {
    if !has_infix(ext, "html"@) || !valid_utf8(bytes) {
        Err(ErrorKind::EmailTemplateError)
    } else {
        Ok(filled(decode_utf8(bytes), pairs))
    }
}

impl EmailService {
    /// The service.
    pub fn new() -> (service: EmailService)
        ensures
            service == (EmailService {  }),
    {
        EmailService {  }
    }

    /// Fills the values into the template. The template is given by its
    /// bytes and its content type `ext`; it is refused with
    /// `EmailTemplateError` unless the content type names HTML and the bytes
    /// are UTF-8.
    pub fn prepare_template(&self, bytes: &[u8], ext: &str, values: EmailTemplateValues) -> (r:
        Result<String, CustomError>)
        ensures
            match r {
                Ok(html) => prepare_template_spec(bytes@, ext@, values.pairs()) == Ok::<
                    _,
                    ErrorKind,
                >(html@),
                Err(e) => prepare_template_spec(bytes@, ext@, values.pairs()) == Err::<
                    Seq<char>,
                    _,
                >(e@),
            },
    {
        if !contains_text(ext, "html") {
            return Err(CustomError::EmailTemplateError);
        }
        let mut template = match utf8_text(vstd::slice::slice_to_vec(bytes)) {
            Some(text) => text,
            None => return Err(CustomError::EmailTemplateError),
        };
        match values {
            EmailTemplateValues::VerifyEmailValues(fields) => {
                let pairs = fields.as_array();
                let ghost all = fields@.pairs();
                let ghost start = template@;
                assert(all.skip(0) =~= all);
                let mut i: usize = 0;
                while i < 7
                    invariant
                        i <= 7,
                        all.len() == 7,
                        pairs@.len() == 7,
                        forall|k: int|
                            0 <= k < 7 ==> (#[trigger] pairs@[k]).0@ == all[k].0 && pairs@[k].1@
                                == all[k].1,
                        filled(start, all) == filled(template@, all.skip(i as int)),
                    decreases 7 - i,
                {
                    let pair = pairs[i];
                    let name = "{{".to_owned().concat(pair.0).concat("}}");
                    proof {
                        let rest = all.skip(i as int);
                        assert(rest[0] == all[i as int]);
                        assert(rest.skip(1) =~= all.skip(i + 1));
                    }
                    template = replace_all(template.as_str(), name.as_str(), pair.1);
                    i += 1;
                }
                Ok(template)
            },
        }
    }
}

} // verus!
