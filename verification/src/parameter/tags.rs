//! Well-known M3UA parameter tags (RFC 4666 section 3.2).
use vstd::prelude::*;

verus! {

/// Info String (common): a human-readable diagnostic string.
pub const INFO_STRING: u16 = 0x0004;
/// Routing Context: identifies the Application Server / routing key.
pub const ROUTING_CONTEXT: u16 = 0x0006;
/// Diagnostic Information (common): carried in ERR / NTFY.
pub const DIAGNOSTIC_INFO: u16 = 0x0007;
/// Heartbeat Data: opaque data echoed in BEAT / BEAT-ACK.
pub const HEARTBEAT_DATA: u16 = 0x0009;
/// Traffic Mode Type: Override / Loadshare / Broadcast.
pub const TRAFFIC_MODE_TYPE: u16 = 0x000B;
/// Error Code: carried in ERR.
pub const ERROR_CODE: u16 = 0x000C;
/// Status: status type + status information, carried in NTFY.
pub const STATUS: u16 = 0x000D;
/// ASP Identifier: a unique value identifying the ASP.
pub const ASP_IDENTIFIER: u16 = 0x0011;
/// Affected Point Code: one or more affected point codes (SSNM).
pub const AFFECTED_POINT_CODE: u16 = 0x0012;
/// Correlation Id: correlates DATA messages during a changeover.
pub const CORRELATION_ID: u16 = 0x0013;
/// Network Appearance: distinguishes SS7 network contexts at the SG.
pub const NETWORK_APPEARANCE: u16 = 0x0200;
/// User / Cause: the unavailable user part and cause (DUPU).
pub const USER_CAUSE: u16 = 0x0204;
/// Congestion Indications: congestion level (SCON).
pub const CONGESTION_INDICATIONS: u16 = 0x0205;
/// Concerned Destination: the point code concerned by a DUPU.
pub const CONCERNED_DESTINATION: u16 = 0x0206;
/// Routing Key: the routing key registered via RKM.
pub const ROUTING_KEY: u16 = 0x0207;
/// Registration Result: the result of a REG-REQ.
pub const REGISTRATION_RESULT: u16 = 0x0208;
/// Deregistration Result: the result of a DEREG-REQ.
pub const DEREGISTRATION_RESULT: u16 = 0x0209;
/// Local Routing Key Identifier: an ASP-local routing-key handle.
pub const LOCAL_ROUTING_KEY_ID: u16 = 0x020A;
/// Destination Point Code: part of a routing key.
pub const DESTINATION_POINT_CODE: u16 = 0x020B;
/// Service Indicators: the SIs matched by a routing key.
pub const SERVICE_INDICATORS: u16 = 0x020C;
/// Originating Point Code List: OPCs matched by a routing key.
pub const ORIGINATING_POINT_CODE_LIST: u16 = 0x020E;
/// Protocol Data: the MTP3-User payload carried by DATA.
pub const PROTOCOL_DATA: u16 = 0x0210;
/// Registration Status: per-routing-key status in a REG-RSP.
pub const REGISTRATION_STATUS: u16 = 0x0212;
/// Deregistration Status: per-routing-context status in a DEREG-RSP.
pub const DEREGISTRATION_STATUS: u16 = 0x0213;

} // verus!
