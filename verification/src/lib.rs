//! A verified codec for the BACnet network layer.
//!
//! The crate turns in-memory protocol values into their exact wire bytes and
//! parses wire bytes back into values.  `codec` holds the shared
//! encode/length contract and the decode error taxonomy, `encoding` the
//! tag-level (TLV) descriptor types and their total byte mappings, and
//! `network` the NPDU envelope itself: the control-byte state machine, the
//! optional routing blocks, and the trailing hop count.

pub mod codec;
pub mod encoding;
pub mod network;
