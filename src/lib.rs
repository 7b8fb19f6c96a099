//! Account management: credentials, single-use tokens, role-based
//! authorization, account lifecycle and notification composition.

pub mod error;
pub mod policy;
pub mod credential;
pub mod token;
pub mod account;
pub mod user_management;
pub mod email;
pub mod handlers;
