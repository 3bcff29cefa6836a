//! Release-feed ingestion core: converts pushed release messages into validated
//! events, decides which of them are complete, attaches the interested recipients
//! and hands them to a bounded outbound queue, while a supervisor keeps the
//! upstream connection alive with a capped exponential backoff.

pub mod ident;
pub mod igdb;
pub mod model;
pub mod pump;
pub mod queue;
pub mod resolver;
pub mod supervisor;
pub mod tenor;
pub mod wire;
