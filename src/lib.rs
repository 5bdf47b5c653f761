//! An EtherIP (RFC 3378) tunnel: Ethernet frames carried inside raw IP
//! datagrams of protocol 97, between one virtual interface and one peer.

pub mod codec;
pub mod buffer;
pub mod relay;
pub mod readiness;
pub mod lifecycle;
pub mod config;
