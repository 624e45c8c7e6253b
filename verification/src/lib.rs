//! M3UA (MTP3 User Adaptation Layer, RFC 4666) codec and SG-side ASP state machine.
//!
//! M3UA carries SS7 MTP3-User signalling (SCCP, ISUP, ...) over IP networks,
//! using SCTP as the transport. This crate holds the wire format (common header,
//! TLV parameters, the Protocol Data payload) and the pure ASP state machine;
//! it performs no I/O.
pub mod asp;
pub mod error;
pub mod header;
pub mod message;
pub mod parameter;
pub mod protocol_data;
pub mod text;
pub mod wire;

pub use asp::{Asp, AspAction, AspState};
pub use error::M3uaError;
pub use header::{CommonHeader, MessageClass, MessageType, SCTP_PPID, VERSION};
pub use message::M3uaMessage;
pub use parameter::{tags, Parameter};
pub use protocol_data::ProtocolData;
