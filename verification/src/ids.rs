//! Object identifiers in their 24-digit hexadecimal form.

use vstd::prelude::*;

verus! {

/// A digit of lower-case hexadecimal.
pub open spec fn is_lower_hex(c: char) -> bool {
    ('0' <= c && c <= '9') || ('a' <= c && c <= 'f')
}

/// A digit of hexadecimal, in either case.
pub open spec fn is_hex(c: char) -> bool {
    is_lower_hex(c) || ('A' <= c && c <= 'F')
}

/// The lower-case form of a hexadecimal digit.
pub open spec fn lower_hex(c: char) -> char {
    if 'A' <= c && c <= 'F' {
        ((c as u8) + 32) as char
    } else {
        c
    }
}

/// The canonical form of an object id: 24 lower-case hexadecimal digits.
pub open spec fn is_object_id(text: Seq<char>) -> bool {
    text.len() == 24 && forall|i: int| 0 <= i < 24 ==> is_lower_hex(#[trigger] text[i])
}

/// The object id that a text denotes: a text of 24 hexadecimal digits denotes
/// the id written with its digits in lower case, any other text denotes none.
pub open spec fn object_id_of(text: Seq<char>) -> Option<Seq<char>> {
    if text.len() == 24 && forall|i: int| 0 <= i < 24 ==> is_hex(#[trigger] text[i]) {
        Some(Seq::new(24, |i: int| lower_hex(text[i])))
    } else {
        None
    }
}

/// `bson::oid::ObjectId::parse_str` followed by `to_hex`: parsing accepts
/// exactly the texts of 24 hexadecimal digits, and the hexadecimal form of
/// what was parsed is the same digits in lower case.
#[verifier::external_body]
pub(crate) fn parse_object_id(text: &str) -> (r: Option<String>)
    ensures
        match r {
            Some(id) => object_id_of(text@) == Some(id@),
            None => object_id_of(text@) is None,
        },
{
    bson::oid::ObjectId::parse_str(text).ok().map(|id| id.to_hex())
}

/// An object id is its own canonical form, and what a text denotes is an
/// object id.
pub proof fn lemma_object_id_canonical(text: Seq<char>)
    ensures
        is_object_id(text) ==> object_id_of(text) == Some(text),
        object_id_of(text) matches Some(id) ==> is_object_id(id) && object_id_of(id) == Some(id),
{
    if is_object_id(text) {
        assert forall|i: int| 0 <= i < 24 implies is_hex(#[trigger] text[i]) by {
            assert(is_lower_hex(text[i]));
        }
        let id = Seq::new(24, |i: int| lower_hex(text[i]));
        assert forall|i: int| 0 <= i < 24 implies id[i] == text[i] by {
            assert(is_lower_hex(text[i]));
        }
        assert(id =~= text);
    }
    if let Some(id) = object_id_of(text) {
        assert forall|i: int| 0 <= i < 24 implies is_lower_hex(#[trigger] id[i]) by {
            assert(is_hex(text[i]));
            lemma_lower_hex(text[i]);
        }
        assert(is_object_id(id));
        assert forall|i: int| 0 <= i < 24 implies is_hex(#[trigger] id[i]) by {
            assert(is_lower_hex(id[i]));
        }
        let again = Seq::new(24, |i: int| lower_hex(id[i]));
        assert forall|i: int| 0 <= i < 24 implies again[i] == id[i] by {
            assert(is_lower_hex(id[i]));
        }
        assert(again =~= id);
    }
}

/// Lower-casing a hexadecimal digit gives a lower-case hexadecimal digit.
proof fn lemma_lower_hex(c: char)
    requires
        is_hex(c),
    ensures
        is_lower_hex(lower_hex(c)),
{
    if 'A' <= c && c <= 'F' {
        let b = c as u8;
        assert(65 <= b <= 70);
        assert((((b + 32) as u8) as char) as u8 == b + 32);
    }
}

} // verus!
