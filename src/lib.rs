//! Message hub between a chat platform's webhooks, a broker, a relational store,
//! a key-value cache and outbound HTTP endpoints: the decisions of each step,
//! stated and proved; the transports are driven by the caller.
pub mod jid;
pub mod json;
pub mod cache;
pub mod text;
pub mod dispatch;
pub mod records;
pub mod store;
pub mod normalizer;
pub mod http;
pub mod supervisor;
pub mod config;
