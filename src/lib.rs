//! Frame-rewriting core of a two-endpoint XDP load balancer.
//!
//! Each inbound Ethernet frame is classified by its headers and, when it comes
//! from the configured client or backend, rewritten in place so that it is
//! addressed to the other endpoint and appears to come from the balancer.

pub mod balancer;
pub mod checksum;
pub mod frame;
pub mod headers;
pub mod laws;
