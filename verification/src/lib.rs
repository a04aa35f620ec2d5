//! Quota of Grok OAuth accounts: the billing requests that ask for it, what is
//! kept of the answers, when an account is exhausted, and the refresh of the
//! accounts of a provider as a machine that is told what came of each request.
pub mod adapter;
pub mod billing;
pub mod headers;
pub mod json;
pub mod laws;
pub mod limits;
pub mod link;
pub mod refresh;
pub mod request;
pub mod text;
