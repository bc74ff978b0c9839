//! Link-layer message transport support: a byte-exact big-endian packet
//! codec and the session logic of a point-to-point raw-Ethernet link
//! (interface-name validation, link-type classification, network byte
//! order, and the receive filter that gives a shared medium
//! point-to-point semantics).

pub mod codec;
pub mod link;
pub mod protocol;
