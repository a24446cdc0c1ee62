//! What the service answers to each request, given the request's
//! `Authorization` header and body as plain values. Every request that acts
//! for a user is authorized first, and acts for the user of the session that
//! its token resolves to.

pub mod index;
pub mod v1;
