//! A small quiz service core: response envelopes, password hashing,
//! signed identity claims, and the decision logic of each endpoint.

pub mod claim;
pub mod evaluate;
pub mod initial;
pub mod meta;
pub mod password;
pub mod question;
pub mod user;
pub mod utils;
