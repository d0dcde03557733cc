//! The claims of an access token.

use vstd::prelude::*;
use vstd::string::*;
use crate::text::{decimal, decimal_of};
use crate::json::{JsonObject, json_number, json_numbers, json_object, json_put_number, json_put_text, json_text, json_texts, no_numbers, no_texts};

verus! {

/// Subject, expiry in seconds since the Unix epoch, audience and issuer.
#[derive(Debug, Clone, PartialEq, Eq)]
pub struct Claims {
    pub sub: String,
    pub exp: usize,
    pub aud: String,
    pub iss: String,
}

/// What a `Claims` says.
pub struct ClaimsView {
    pub sub: Seq<char>,
    pub exp: usize,
    pub aud: Seq<char>,
    pub iss: Seq<char>,
}

impl View for Claims {
    type V = ClaimsView;

    open spec fn view(&self) -> ClaimsView {
        ClaimsView { sub: self.sub@, exp: self.exp, aud: self.aud@, iss: self.iss@ }
    }
}

/// The names of the claims are five different texts.
pub proof fn lemma_claim_names()
    ensures
        "sub"@ != "exp"@,
        "sub"@ != "aud"@,
        "sub"@ != "iss"@,
        "sub"@ != "jti"@,
        "exp"@ != "aud"@,
        "exp"@ != "iss"@,
        "exp"@ != "jti"@,
        "aud"@ != "iss"@,
        "aud"@ != "jti"@,
        "iss"@ != "jti"@,
{
    reveal_strlit("sub");
    reveal_strlit("exp");
    reveal_strlit("aud");
    reveal_strlit("iss");
    reveal_strlit("jti");
    assert("sub"@[0] == 's' && "exp"@[0] == 'e' && "aud"@[0] == 'a' && "iss"@[0] == 'i' && "jti"@[0]
        == 'j');
}

impl ClaimsView {
    /// The text members of the claims written as a JSON object.
    pub open spec fn texts(self) -> Map<Seq<char>, Seq<char>> {
        no_texts().insert("sub"@, self.sub).insert("aud"@, self.aud).insert("iss"@, self.iss)
    }

    /// The number members of the claims written as a JSON object.
    pub open spec fn numbers(self) -> Map<Seq<char>, u64> {
        no_numbers().insert("exp"@, self.exp as u64)
    }

    /// The claims that a JSON object with these members holds: all four
    /// must be there, each of its kind, and the expiry must fit the machine.
    pub open spec fn read(texts: Map<Seq<char>, Seq<char>>, numbers: Map<Seq<char>, u64>) -> Option<
        ClaimsView,
    > {
        if texts.contains_key("sub"@) && numbers.contains_key("exp"@) && numbers["exp"@]
            <= usize::MAX && texts.contains_key("aud"@) && texts.contains_key("iss"@) {
            Some(
                ClaimsView {
                    sub: texts["sub"@],
                    exp: numbers["exp"@] as usize,
                    aud: texts["aud"@],
                    iss: texts["iss"@],
                },
            )
        } else {
            None
        }
    }

    /// Claims that are written and read again are the same claims.
    pub proof fn lemma_round_trip(self)
        ensures
            ClaimsView::read(self.texts(), self.numbers()) == Some(self),
    {
        lemma_claim_names();
    }
}

impl ClaimsView {
    /// The claims in two lines, subject and expiry.
    pub open spec fn describe(self) -> Seq<char> {
        "Sub: "@ + self.sub + "\nExpire: "@ + decimal_of(self.exp as nat)
    }
}

impl Claims {
    /// The claims in two lines, subject and expiry.
    pub fn describe(&self) -> (text: String)
        ensures
            text@ == self@.describe(),
    {
        let expiry = decimal(self.exp as u64);
        "Sub: ".to_owned().concat(self.sub.as_str()).concat("\nExpire: ").concat(expiry.as_str())
    }

    /// The claims as a JSON object.
    pub fn to_json(&self) -> (object: JsonObject)
        ensures
            json_texts(object) == self@.texts(),
            json_numbers(object) == self@.numbers(),
    {
        let mut object = json_object();
        json_put_text(&mut object, "sub", self.sub.as_str());
        json_put_number(&mut object, "exp", self.exp as u64);
        json_put_text(&mut object, "aud", self.aud.as_str());
        json_put_text(&mut object, "iss", self.iss.as_str());
        proof {
            lemma_claim_names();
            assert(json_texts(object) =~= self@.texts());
            assert(json_numbers(object) =~= self@.numbers());
        }
        object
    }

    /// The claims that a JSON object holds, if it holds all of them.
    pub fn from_json(object: &JsonObject) -> (claims: Option<Claims>)
        ensures
            match claims {
                Some(c) => ClaimsView::read(json_texts(*object), json_numbers(*object)) == Some(c@),
                None => ClaimsView::read(json_texts(*object), json_numbers(*object)) is None,
            },
    {
        let sub = json_text(object, "sub");
        let exp = json_number(object, "exp");
        let aud = json_text(object, "aud");
        let iss = json_text(object, "iss");
        match (sub, exp, aud, iss) {
            (Some(sub), Some(exp), Some(aud), Some(iss)) => {
                if exp <= usize::MAX as u64 {
                    Some(Claims { sub, exp: exp as usize, aud, iss })
                } else {
                    None
                }
            },
            _ => None,
        }
    }
}

} // verus!
