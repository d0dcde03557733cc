//! The claims of a refresh token.

use vstd::prelude::*;
use crate::json::{JsonObject, json_number, json_numbers, json_object, json_put_number, json_put_text, json_text, json_texts, no_numbers, no_texts};
use crate::types::claims::lemma_claim_names;

verus! {

/// The claims of an access token and the token's identifier, `jti`, under
/// which the token's record is kept.
#[derive(Debug, PartialEq, Eq)]
pub struct RefreshClaims {
    pub sub: String,
    pub exp: usize,
    pub jti: String,
    pub aud: String,
    pub iss: String,
}

/// What a `RefreshClaims` says.
pub struct RefreshClaimsView {
    pub sub: Seq<char>,
    pub exp: usize,
    pub jti: Seq<char>,
    pub aud: Seq<char>,
    pub iss: Seq<char>,
}

impl View for RefreshClaims {
    type V = RefreshClaimsView;

    open spec fn view(&self) -> RefreshClaimsView {
        RefreshClaimsView {
            sub: self.sub@,
            exp: self.exp,
            jti: self.jti@,
            aud: self.aud@,
            iss: self.iss@,
        }
    }
}

impl RefreshClaimsView {
    /// The text members of the claims written as a JSON object.
    pub open spec fn texts(self) -> Map<Seq<char>, Seq<char>> {
        no_texts().insert("sub"@, self.sub).insert("jti"@, self.jti).insert("aud"@, self.aud).insert(
            "iss"@,
            self.iss,
        )
    }

    /// The number members of the claims written as a JSON object.
    pub open spec fn numbers(self) -> Map<Seq<char>, u64> {
        no_numbers().insert("exp"@, self.exp as u64)
    }

    /// The claims that a JSON object with these members holds: all five
    /// must be there, each of its kind, and the expiry must fit the machine.
    pub open spec fn read(texts: Map<Seq<char>, Seq<char>>, numbers: Map<Seq<char>, u64>) -> Option<
        RefreshClaimsView,
    > {
        if texts.contains_key("sub"@) && numbers.contains_key("exp"@) && numbers["exp"@]
            <= usize::MAX && texts.contains_key("jti"@) && texts.contains_key("aud"@)
            && texts.contains_key("iss"@) {
            Some(
                RefreshClaimsView {
                    sub: texts["sub"@],
                    exp: numbers["exp"@] as usize,
                    jti: texts["jti"@],
                    aud: texts["aud"@],
                    iss: texts["iss"@],
                },
            )
        } else {
            None
        }
    }

    /// Claims that are written and read again are the same claims.
    pub proof fn lemma_round_trip(self)
        ensures
            RefreshClaimsView::read(self.texts(), self.numbers()) == Some(self),
    {
        lemma_claim_names();
    }
}

impl RefreshClaims {
    /// The claims as a JSON object.
    pub fn to_json(&self) -> (object: JsonObject)
        ensures
            json_texts(object) == self@.texts(),
            json_numbers(object) == self@.numbers(),
    {
        let mut object = json_object();
        json_put_text(&mut object, "sub", self.sub.as_str());
        json_put_number(&mut object, "exp", self.exp as u64);
        json_put_text(&mut object, "jti", self.jti.as_str());
        json_put_text(&mut object, "aud", self.aud.as_str());
        json_put_text(&mut object, "iss", self.iss.as_str());
        proof {
            lemma_claim_names();
            assert(json_texts(object) =~= self@.texts());
            assert(json_numbers(object) =~= self@.numbers());
        }
        object
    }

    /// The claims that a JSON object holds, if it holds all of them.
    pub fn from_json(object: &JsonObject) -> (claims: Option<RefreshClaims>)
        ensures
            match claims {
                Some(c) => RefreshClaimsView::read(json_texts(*object), json_numbers(*object))
                    == Some(c@),
                None => RefreshClaimsView::read(json_texts(*object), json_numbers(*object)) is None,
            },
    {
        let sub = json_text(object, "sub");
        let exp = json_number(object, "exp");
        let jti = json_text(object, "jti");
        let aud = json_text(object, "aud");
        let iss = json_text(object, "iss");
        match (sub, exp, jti, aud, iss) {
            (Some(sub), Some(exp), Some(jti), Some(aud), Some(iss)) => {
                if exp <= usize::MAX as u64 {
                    Some(RefreshClaims { sub, exp: exp as usize, jti, aud, iss })
                } else {
                    None
                }
            },
            _ => None,
        }
    }
}

} // verus!
