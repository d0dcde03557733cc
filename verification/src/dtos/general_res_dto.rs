//! The body of a response that carries no data.

use vstd::prelude::*;

verus! {

/// A status code and a message.
#[derive(Debug, PartialEq, Eq)]
pub struct GeneralResDto {
    pub status_code: u16,
    pub message: String,
}

/// What a `GeneralResDto` says.
pub struct GeneralRes {
    pub status_code: u16,
    pub message: Seq<char>,
}

impl View for GeneralResDto {
    type V = GeneralRes;

    open spec fn view(&self) -> GeneralRes {
        GeneralRes { status_code: self.status_code, message: self.message@ }
    }
}

impl GeneralRes {
    /// The answer to a request that was carried out.
    pub open spec fn ok() -> GeneralRes {
        GeneralRes { status_code: 200, message: "Ok"@ }
    }
}

impl GeneralResDto {
    /// The answer to a request that was carried out.
    pub fn ok() -> (res: GeneralResDto)
        ensures
            res@ == GeneralRes::ok(),
    {
        GeneralResDto { status_code: 200, message: "Ok".to_owned() }
    }
}

} // verus!
