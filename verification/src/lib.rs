//! Federation discovery for a social-networking server: the WebFinger
//! resolver, the host metadata document and the NodeInfo documents that
//! remote servers fetch before they federate with this one.
//!
//! Every function here is a pure computation on plain values. Reading the
//! account store and sending the response are left to the caller, who gets
//! each document as a value of its own type and, from that, as JSON.

pub mod address;
pub mod config;
pub mod error;
pub mod host_meta;
pub mod jrd;
pub mod json;
pub mod media;
pub mod nodeinfo;
pub mod text;
pub mod webfinger;
