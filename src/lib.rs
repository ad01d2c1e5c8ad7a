//! Reading-progress status of articles: the closed status enumeration and its
//! text form, a status store with read-creates-default and upsert semantics,
//! the decisions of the two HTTP status operations, the service's storage
//! configuration, and its API description.

pub mod api;
pub mod clock;
pub mod config;
pub mod laws;
pub mod openapi;
pub mod status;
pub mod store;
