//! Bridge between a single-threaded embedding host and an asynchronous HTTP
//! worker: request validation, outcome selection, host-side action planning,
//! and the pending-request accounting that drives the host's polling trigger.

pub mod dispatcher;
pub mod http;
pub mod outcome;
pub mod pending;
pub mod plan;
pub mod protocol;
pub mod tls;
