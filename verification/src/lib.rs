//! Session credentials for a web application: token issuing, rotation and
//! revocation, password checks and email-ownership proof.

pub mod digest;
pub mod dtos;
pub mod error;
pub mod handlers;
pub mod ids;
pub mod interleaving;
pub mod json;
pub mod laws;
pub mod models;
pub mod services;
pub mod text;
pub mod types;
pub mod utils;
