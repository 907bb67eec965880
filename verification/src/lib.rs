//! A forwarding relay for browser clients: the decisions of one request,
//! from the inbound request line to the response that goes back.
//!
//! The crate holds no socket and runs no task. A caller reads a request,
//! asks [`relay::plan`] what to do with it, performs the upstream exchange
//! if one is asked for, and hands its outcome to [`relay::relay`].

pub mod headers;
pub mod query;
pub mod redirect;
pub mod relay;
