//! The request-handling core of a small HTTP service that keeps a table of
//! users: decoding a request, choosing its handler, and turning what the store
//! answered into a response.

pub mod handler;
pub mod lifecycle;
pub mod request;
pub mod response;
pub mod store;
pub mod text;
pub mod user;
