//! A gateway that accepts container-management requests over HTTP and
//! relays them to a broker over QUIC: the decisions it makes, verified.

pub mod options;
pub mod security;
pub mod routes;
pub mod exchange;
pub mod handler;
pub mod dispatch;
