//! The core of a personal journaling service: sessions, the authorization of
//! requests, the category and tag taxonomy, dated mood entries with a
//! filtered and paginated query, and the cascades that keep the data free of
//! orphans.
//!
//! All state lives in a [`store::Store`], a relational model held as plain
//! values. Every operation is a verified function on it, and its contract is
//! written over the store's view: what the store is afterwards and what is
//! answered, as a function of the store before and of the inputs.
//!
//! - [`util`]: errors, colors, dates, text, and the calls into the clock, the
//!   random source and the password hash.
//! - [`store`]: the tables, queries on them, ordering, and what holds of
//!   every store that the service has written.
//! - [`services`]: the operations, one module for each component.
//! - [`api`]: what is answered to each request, given its header and body.

pub mod api;
pub mod services;
pub mod store;
pub mod util;
