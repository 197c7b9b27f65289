//! A sink that forwards each record's payload to the callback endpoint named in
//! its headers, and acknowledges every record it consumes exactly once.

pub mod headers;
pub mod config;
pub mod request;
pub mod ack;
pub mod sink;
pub mod laws;
