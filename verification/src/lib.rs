//! Request authorization for the laboratory inventory service: bearer-token
//! verification with a rotating key cache, resolution of the caller's
//! identity, and enforcement of the access policy through relational
//! predicates.

pub mod appstate;
pub mod authorization;
pub mod chain;
pub mod errors;
pub mod identity;
pub mod keycache;
pub mod matcher;
pub mod policy;
pub mod predicates;
pub mod text;
pub mod token;
pub mod utils;
