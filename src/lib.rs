//! Persistence core of a medication-reminder application: entities, the
//! write-once connection manager, the row codec of the SQL schema, the
//! verified in-process store with its soft-delete rules, and the facade
//! that ties them together.

pub mod model;
pub mod error;
pub mod validate;
pub mod clock;
pub mod assemble;
pub mod store;
pub mod connection;
pub mod codec;
pub mod api;
pub mod laws;
