//! The claims that the tokens carry, the keys that sign them, and the mails
//! that are sent.

pub mod claims;
pub mod email;
pub mod keys;
pub mod refresh_claims;
pub mod verify_email;
