//! The data layer of a civic record service, as far as it decides anything:
//! the loader that batches and caches the lookups of one request, the cursor
//! pagination of ordered lists, and the naming rules for offices, elections
//! and accounts.

pub mod text;
pub mod decimal;
pub mod cursor;
pub mod pagination;
pub mod key;
pub mod cache;
pub mod batch;
pub mod loader;
pub mod ident;
pub mod politician;
pub mod geography;
pub mod slug;
pub mod office;
pub mod calendar;
pub mod election;
pub mod accounts;
pub mod session;
