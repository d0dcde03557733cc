//! The bodies of requests and responses.

pub mod auth_dto;
pub mod general_res_dto;
