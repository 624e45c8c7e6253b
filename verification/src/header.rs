//! The 8-octet M3UA common header and the message class / type tables
//! (RFC 4666 section 3.1).
use vstd::prelude::*;
use vstd::string::StringExecFns;

use crate::error::M3uaError;
use crate::text::{decimal, push_decimal};
use crate::wire::{
    be_u32, lemma_be_read_layout, lemma_be_u32_octets, lemma_u32_be_layout, lemma_u32_round_trip,
    read_u32_be, u32_be,
};

verus! {

/// M3UA protocol version.
pub const VERSION: u8 = 1;

/// SCTP Payload Protocol Identifier for M3UA.
pub const SCTP_PPID: u32 = 3;

/// M3UA message classes (RFC 4666 section 3.1.2).
///
/// The variants carry no explicit discriminants, so a cast such as
/// `MessageClass::Rkm as u8` does not give the wire octet (it gives 5, not 9).
/// Use [`MessageClass::as_u8`] for the class octet and [`MessageClass::from_u8`]
/// to read it back.
#[derive(Debug, Clone, Copy, PartialEq, Eq, Structural)]
pub enum MessageClass {
    /// Management (MGMT) messages, class 0.
    Management,
    /// Transfer messages (DATA), class 1.
    Transfer,
    /// SS7 Signaling Network Management (SSNM), class 2.
    Ssnm,
    /// ASP State Maintenance (ASPSM), class 3.
    Aspsm,
    /// ASP Traffic Maintenance (ASPTM), class 4.
    Asptm,
    /// Routing Key Management (RKM), class 9.
    Rkm,
}

/// The class named by a message-class octet, if any.
pub open spec fn message_class_of(value: u8) -> Option<MessageClass> {
    if value == 0 {
        Some(MessageClass::Management)
    } else if value == 1 {
        Some(MessageClass::Transfer)
    } else if value == 2 {
        Some(MessageClass::Ssnm)
    } else if value == 3 {
        Some(MessageClass::Aspsm)
    } else if value == 4 {
        Some(MessageClass::Asptm)
    } else if value == 9 {
        Some(MessageClass::Rkm)
    } else {
        None
    }
}

impl MessageClass {
    /// The class's octet on the wire.
    pub open spec fn code(self) -> u8 {
        match self {
            MessageClass::Management => 0,
            MessageClass::Transfer => 1,
            MessageClass::Ssnm => 2,
            MessageClass::Aspsm => 3,
            MessageClass::Asptm => 4,
            MessageClass::Rkm => 9,
        }
    }

    /// The class's octet on the wire, such as 9 for RKM.
    pub fn as_u8(&self) -> (r: u8)
        ensures
            r == self.code(),
    {
        match self {
            MessageClass::Management => 0,
            MessageClass::Transfer => 1,
            MessageClass::Ssnm => 2,
            MessageClass::Aspsm => 3,
            MessageClass::Asptm => 4,
            MessageClass::Rkm => 9,
        }
    }

    /// The class's human-readable name with its code.
    pub open spec fn spec_name(self) -> Seq<char> {
        match self {
            MessageClass::Management => "MGMT(0)"@,
            MessageClass::Transfer => "Transfer(1)"@,
            MessageClass::Ssnm => "SSNM(2)"@,
            MessageClass::Aspsm => "ASPSM(3)"@,
            MessageClass::Asptm => "ASPTM(4)"@,
            MessageClass::Rkm => "RKM(9)"@,
        }
    }

    /// Map the raw message-class octet to a [`MessageClass`].
    ///
    /// Returns [`M3uaError::InvalidMessageClass`] for an unknown value.
    pub fn from_u8(value: u8) -> (r: Result<Self, M3uaError>)
        ensures
            r == (match message_class_of(value) {
                Some(c) => Ok(c),
                None => Err(M3uaError::InvalidMessageClass(value)),
            }),
    {
        match value {
            0 => Ok(MessageClass::Management),
            1 => Ok(MessageClass::Transfer),
            2 => Ok(MessageClass::Ssnm),
            3 => Ok(MessageClass::Aspsm),
            4 => Ok(MessageClass::Asptm),
            9 => Ok(MessageClass::Rkm),
            other => Err(M3uaError::InvalidMessageClass(other)),
        }
    }

    /// The human-readable name of the class, such as `ASPSM(3)`.
    pub fn to_string(&self) -> (s: String)
        ensures
            s@ == self.spec_name(),
    {
        match self {
            MessageClass::Management => String::from_str("MGMT(0)"),
            MessageClass::Transfer => String::from_str("Transfer(1)"),
            MessageClass::Ssnm => String::from_str("SSNM(2)"),
            MessageClass::Aspsm => String::from_str("ASPSM(3)"),
            MessageClass::Asptm => String::from_str("ASPTM(4)"),
            MessageClass::Rkm => String::from_str("RKM(9)"),
        }
    }
}

/// M3UA message types, grouped by class.
#[derive(Debug, Clone, Copy, PartialEq, Eq, Structural)]
pub enum MessageType {
    /// Error (ERR), MGMT.
    Error,
    /// Notify (NTFY), MGMT.
    Notify,
    /// Payload data (DATA), Transfer.
    Data,
    /// Destination Unavailable (DUNA), SSNM.
    Duna,
    /// Destination Available (DAVA), SSNM.
    Dava,
    /// Destination State Audit (DAUD), SSNM.
    Daud,
    /// Signalling Congestion (SCON), SSNM.
    Scon,
    /// Destination User Part Unavailable (DUPU), SSNM.
    Dupu,
    /// Destination Restricted (DRST), SSNM.
    Drst,
    /// ASP Up (ASP-UP), ASPSM.
    AspUp,
    /// ASP Down (ASP-DOWN), ASPSM.
    AspDown,
    /// Heartbeat (BEAT), ASPSM.
    Heartbeat,
    /// ASP Up Acknowledgement (ASP-UP-ACK), ASPSM.
    AspUpAck,
    /// ASP Down Acknowledgement (ASP-DOWN-ACK), ASPSM.
    AspDownAck,
    /// Heartbeat Acknowledgement (BEAT-ACK), ASPSM.
    HeartbeatAck,
    /// ASP Active (ASP-ACTIVE), ASPTM.
    AspActive,
    /// ASP Inactive (ASP-INACTIVE), ASPTM.
    AspInactive,
    /// ASP Active Acknowledgement (ASP-ACTIVE-ACK), ASPTM.
    AspActiveAck,
    /// ASP Inactive Acknowledgement (ASP-INACTIVE-ACK), ASPTM.
    AspInactiveAck,
    /// Registration Request (REG-REQ), RKM.
    RegReq,
    /// Registration Response (REG-RSP), RKM.
    RegRsp,
    /// Deregistration Request (DEREG-REQ), RKM.
    DeregReq,
    /// Deregistration Response (DEREG-RSP), RKM.
    DeregRsp,
}

/// The message type named by a header `(class, type)` octet pair, if any.
pub open spec fn message_type_of(class: u8, msg_type: u8) -> Option<MessageType> {
    if class == 0 && msg_type == 0 { Some(MessageType::Error) }
    else if class == 0 && msg_type == 1 { Some(MessageType::Notify) }
    else if class == 1 && msg_type == 1 { Some(MessageType::Data) }
    else if class == 2 && msg_type == 1 { Some(MessageType::Duna) }
    else if class == 2 && msg_type == 2 { Some(MessageType::Dava) }
    else if class == 2 && msg_type == 3 { Some(MessageType::Daud) }
    else if class == 2 && msg_type == 4 { Some(MessageType::Scon) }
    else if class == 2 && msg_type == 5 { Some(MessageType::Dupu) }
    else if class == 2 && msg_type == 6 { Some(MessageType::Drst) }
    else if class == 3 && msg_type == 1 { Some(MessageType::AspUp) }
    else if class == 3 && msg_type == 2 { Some(MessageType::AspDown) }
    else if class == 3 && msg_type == 3 { Some(MessageType::Heartbeat) }
    else if class == 3 && msg_type == 4 { Some(MessageType::AspUpAck) }
    else if class == 3 && msg_type == 5 { Some(MessageType::AspDownAck) }
    else if class == 3 && msg_type == 6 { Some(MessageType::HeartbeatAck) }
    else if class == 4 && msg_type == 1 { Some(MessageType::AspActive) }
    else if class == 4 && msg_type == 2 { Some(MessageType::AspInactive) }
    else if class == 4 && msg_type == 3 { Some(MessageType::AspActiveAck) }
    else if class == 4 && msg_type == 4 { Some(MessageType::AspInactiveAck) }
    else if class == 9 && msg_type == 1 { Some(MessageType::RegReq) }
    else if class == 9 && msg_type == 2 { Some(MessageType::RegRsp) }
    else if class == 9 && msg_type == 3 { Some(MessageType::DeregReq) }
    else if class == 9 && msg_type == 4 { Some(MessageType::DeregRsp) }
    else { None }
}

impl MessageType {
    /// The `(class, type)` octet pair of this message type.
    pub open spec fn spec_class_and_type(self) -> (u8, u8) {
        match self {
            MessageType::Error => (0, 0),
            MessageType::Notify => (0, 1),
            MessageType::Data => (1, 1),
            MessageType::Duna => (2, 1),
            MessageType::Dava => (2, 2),
            MessageType::Daud => (2, 3),
            MessageType::Scon => (2, 4),
            MessageType::Dupu => (2, 5),
            MessageType::Drst => (2, 6),
            MessageType::AspUp => (3, 1),
            MessageType::AspDown => (3, 2),
            MessageType::Heartbeat => (3, 3),
            MessageType::AspUpAck => (3, 4),
            MessageType::AspDownAck => (3, 5),
            MessageType::HeartbeatAck => (3, 6),
            MessageType::AspActive => (4, 1),
            MessageType::AspInactive => (4, 2),
            MessageType::AspActiveAck => (4, 3),
            MessageType::AspInactiveAck => (4, 4),
            MessageType::RegReq => (9, 1),
            MessageType::RegRsp => (9, 2),
            MessageType::DeregReq => (9, 3),
            MessageType::DeregRsp => (9, 4),
        }
    }

    /// The short name of this message type, as written in traces.
    pub open spec fn spec_name(self) -> Seq<char> {
        match self {
            MessageType::Error => "ERR"@,
            MessageType::Notify => "NTFY"@,
            MessageType::Data => "DATA"@,
            MessageType::Duna => "DUNA"@,
            MessageType::Dava => "DAVA"@,
            MessageType::Daud => "DAUD"@,
            MessageType::Scon => "SCON"@,
            MessageType::Dupu => "DUPU"@,
            MessageType::Drst => "DRST"@,
            MessageType::AspUp => "ASPUP"@,
            MessageType::AspDown => "ASPDN"@,
            MessageType::Heartbeat => "BEAT"@,
            MessageType::AspUpAck => "ASPUP_ACK"@,
            MessageType::AspDownAck => "ASPDN_ACK"@,
            MessageType::HeartbeatAck => "BEAT_ACK"@,
            MessageType::AspActive => "ASPAC"@,
            MessageType::AspInactive => "ASPIA"@,
            MessageType::AspActiveAck => "ASPAC_ACK"@,
            MessageType::AspInactiveAck => "ASPIA_ACK"@,
            MessageType::RegReq => "REG_REQ"@,
            MessageType::RegRsp => "REG_RSP"@,
            MessageType::DeregReq => "DEREG_REQ"@,
            MessageType::DeregRsp => "DEREG_RSP"@,
        }
    }

    /// Get the `(class, type)` pair for this message type.
    pub fn class_and_type(&self) -> (r: (u8, u8))
        ensures
            r == self.spec_class_and_type(),
    {
        match self {
            MessageType::Error => (0, 0),
            MessageType::Notify => (0, 1),
            MessageType::Data => (1, 1),
            MessageType::Duna => (2, 1),
            MessageType::Dava => (2, 2),
            MessageType::Daud => (2, 3),
            MessageType::Scon => (2, 4),
            MessageType::Dupu => (2, 5),
            MessageType::Drst => (2, 6),
            MessageType::AspUp => (3, 1),
            MessageType::AspDown => (3, 2),
            MessageType::Heartbeat => (3, 3),
            MessageType::AspUpAck => (3, 4),
            MessageType::AspDownAck => (3, 5),
            MessageType::HeartbeatAck => (3, 6),
            MessageType::AspActive => (4, 1),
            MessageType::AspInactive => (4, 2),
            MessageType::AspActiveAck => (4, 3),
            MessageType::AspInactiveAck => (4, 4),
            MessageType::RegReq => (9, 1),
            MessageType::RegRsp => (9, 2),
            MessageType::DeregReq => (9, 3),
            MessageType::DeregRsp => (9, 4),
        }
    }

    /// Map a raw `(class, type)` header pair to a [`MessageType`].
    ///
    /// Returns [`M3uaError::InvalidMessageType`] for an unknown pair.
    pub fn from_class_type(class: u8, msg_type: u8) -> (r: Result<Self, M3uaError>)
        ensures
            r == (match message_type_of(class, msg_type) {
                Some(mt) => Ok(mt),
                None => Err(M3uaError::InvalidMessageType { class, msg_type }),
            }),
    {
        match (class, msg_type) {
            (0, 0) => Ok(MessageType::Error),
            (0, 1) => Ok(MessageType::Notify),
            (1, 1) => Ok(MessageType::Data),
            (2, 1) => Ok(MessageType::Duna),
            (2, 2) => Ok(MessageType::Dava),
            (2, 3) => Ok(MessageType::Daud),
            (2, 4) => Ok(MessageType::Scon),
            (2, 5) => Ok(MessageType::Dupu),
            (2, 6) => Ok(MessageType::Drst),
            (3, 1) => Ok(MessageType::AspUp),
            (3, 2) => Ok(MessageType::AspDown),
            (3, 3) => Ok(MessageType::Heartbeat),
            (3, 4) => Ok(MessageType::AspUpAck),
            (3, 5) => Ok(MessageType::AspDownAck),
            (3, 6) => Ok(MessageType::HeartbeatAck),
            (4, 1) => Ok(MessageType::AspActive),
            (4, 2) => Ok(MessageType::AspInactive),
            (4, 3) => Ok(MessageType::AspActiveAck),
            (4, 4) => Ok(MessageType::AspInactiveAck),
            (9, 1) => Ok(MessageType::RegReq),
            (9, 2) => Ok(MessageType::RegRsp),
            (9, 3) => Ok(MessageType::DeregReq),
            (9, 4) => Ok(MessageType::DeregRsp),
            _ => Err(M3uaError::InvalidMessageType { class, msg_type }),
        }
    }

    /// The short trace name of this message type, such as `ASPUP`.
    pub fn to_string(&self) -> (s: String)
        ensures
            s@ == self.spec_name(),
    {
        match self {
            MessageType::Error => String::from_str("ERR"),
            MessageType::Notify => String::from_str("NTFY"),
            MessageType::Data => String::from_str("DATA"),
            MessageType::Duna => String::from_str("DUNA"),
            MessageType::Dava => String::from_str("DAVA"),
            MessageType::Daud => String::from_str("DAUD"),
            MessageType::Scon => String::from_str("SCON"),
            MessageType::Dupu => String::from_str("DUPU"),
            MessageType::Drst => String::from_str("DRST"),
            MessageType::AspUp => String::from_str("ASPUP"),
            MessageType::AspDown => String::from_str("ASPDN"),
            MessageType::Heartbeat => String::from_str("BEAT"),
            MessageType::AspUpAck => String::from_str("ASPUP_ACK"),
            MessageType::AspDownAck => String::from_str("ASPDN_ACK"),
            MessageType::HeartbeatAck => String::from_str("BEAT_ACK"),
            MessageType::AspActive => String::from_str("ASPAC"),
            MessageType::AspInactive => String::from_str("ASPIA"),
            MessageType::AspActiveAck => String::from_str("ASPAC_ACK"),
            MessageType::AspInactiveAck => String::from_str("ASPIA_ACK"),
            MessageType::RegReq => String::from_str("REG_REQ"),
            MessageType::RegRsp => String::from_str("REG_RSP"),
            MessageType::DeregReq => String::from_str("DEREG_REQ"),
            MessageType::DeregRsp => String::from_str("DEREG_RSP"),
        }
    }
}

/// The header table and the type table agree: every message type is named by
/// its own `(class, type)` pair.
pub proof fn lemma_message_type_of_class_and_type(mt: MessageType)
    ensures
        message_type_of(mt.spec_class_and_type().0, mt.spec_class_and_type().1) == Some(mt),
{
}

/// Every `(class, type)` pair that names a message type is that type's own pair,
/// so decoding a header pair and encoding the result gives the pair back.
pub proof fn lemma_class_and_type_of_message_type(class: u8, msg_type: u8)
    ensures
        message_type_of(class, msg_type) matches Some(mt) ==> mt.spec_class_and_type() == (
        class,
        msg_type,
        ),
{
}

/// No two message types share a `(class, type)` pair.
pub proof fn lemma_class_and_type_injective(a: MessageType, b: MessageType)
    ensures
        a.spec_class_and_type() == b.spec_class_and_type() ==> a == b,
{
    lemma_message_type_of_class_and_type(a);
    lemma_message_type_of_class_and_type(b);
}

/// The class octet of every message type names a known message class.
pub proof fn lemma_message_type_class_is_known(mt: MessageType)
    ensures
        message_class_of(mt.spec_class_and_type().0) is Some,
{
}

/// The RFC 4666 class and type codes: each message type is sent with these
/// `(class, type)` octets, and each class octet names the listed class.
pub proof fn lemma_rfc4666_codes()
    ensures
        MessageType::Error.spec_class_and_type() == (0u8, 0u8),
        MessageType::Notify.spec_class_and_type() == (0u8, 1u8),
        MessageType::Data.spec_class_and_type() == (1u8, 1u8),
        MessageType::Duna.spec_class_and_type() == (2u8, 1u8),
        MessageType::Dava.spec_class_and_type() == (2u8, 2u8),
        MessageType::Daud.spec_class_and_type() == (2u8, 3u8),
        MessageType::Scon.spec_class_and_type() == (2u8, 4u8),
        MessageType::Dupu.spec_class_and_type() == (2u8, 5u8),
        MessageType::Drst.spec_class_and_type() == (2u8, 6u8),
        MessageType::AspUp.spec_class_and_type() == (3u8, 1u8),
        MessageType::AspDown.spec_class_and_type() == (3u8, 2u8),
        MessageType::Heartbeat.spec_class_and_type() == (3u8, 3u8),
        MessageType::AspUpAck.spec_class_and_type() == (3u8, 4u8),
        MessageType::AspDownAck.spec_class_and_type() == (3u8, 5u8),
        MessageType::HeartbeatAck.spec_class_and_type() == (3u8, 6u8),
        MessageType::AspActive.spec_class_and_type() == (4u8, 1u8),
        MessageType::AspInactive.spec_class_and_type() == (4u8, 2u8),
        MessageType::AspActiveAck.spec_class_and_type() == (4u8, 3u8),
        MessageType::AspInactiveAck.spec_class_and_type() == (4u8, 4u8),
        MessageType::RegReq.spec_class_and_type() == (9u8, 1u8),
        MessageType::RegRsp.spec_class_and_type() == (9u8, 2u8),
        MessageType::DeregReq.spec_class_and_type() == (9u8, 3u8),
        MessageType::DeregRsp.spec_class_and_type() == (9u8, 4u8),
        message_class_of(0) == Some(MessageClass::Management),
        message_class_of(1) == Some(MessageClass::Transfer),
        message_class_of(2) == Some(MessageClass::Ssnm),
        message_class_of(3) == Some(MessageClass::Aspsm),
        message_class_of(4) == Some(MessageClass::Asptm),
        message_class_of(9) == Some(MessageClass::Rkm),
        forall|v: u8| v > 4 && v != 9 ==> message_class_of(v) is None,
        VERSION == 1u8,
{
}

/// The trace names of the message types and classes.
pub proof fn lemma_names()
    ensures
        MessageType::Error.spec_name() == "ERR"@,
        MessageType::Notify.spec_name() == "NTFY"@,
        MessageType::Data.spec_name() == "DATA"@,
        MessageType::Duna.spec_name() == "DUNA"@,
        MessageType::Dava.spec_name() == "DAVA"@,
        MessageType::Daud.spec_name() == "DAUD"@,
        MessageType::Scon.spec_name() == "SCON"@,
        MessageType::Dupu.spec_name() == "DUPU"@,
        MessageType::Drst.spec_name() == "DRST"@,
        MessageType::AspUp.spec_name() == "ASPUP"@,
        MessageType::AspDown.spec_name() == "ASPDN"@,
        MessageType::Heartbeat.spec_name() == "BEAT"@,
        MessageType::AspUpAck.spec_name() == "ASPUP_ACK"@,
        MessageType::AspDownAck.spec_name() == "ASPDN_ACK"@,
        MessageType::HeartbeatAck.spec_name() == "BEAT_ACK"@,
        MessageType::AspActive.spec_name() == "ASPAC"@,
        MessageType::AspInactive.spec_name() == "ASPIA"@,
        MessageType::AspActiveAck.spec_name() == "ASPAC_ACK"@,
        MessageType::AspInactiveAck.spec_name() == "ASPIA_ACK"@,
        MessageType::RegReq.spec_name() == "REG_REQ"@,
        MessageType::RegRsp.spec_name() == "REG_RSP"@,
        MessageType::DeregReq.spec_name() == "DEREG_REQ"@,
        MessageType::DeregRsp.spec_name() == "DEREG_RSP"@,
        MessageClass::Management.spec_name() == "MGMT(0)"@,
        MessageClass::Transfer.spec_name() == "Transfer(1)"@,
        MessageClass::Ssnm.spec_name() == "SSNM(2)"@,
        MessageClass::Aspsm.spec_name() == "ASPSM(3)"@,
        MessageClass::Asptm.spec_name() == "ASPTM(4)"@,
        MessageClass::Rkm.spec_name() == "RKM(9)"@,
{
}

/// The error for each header that does not decode: too few octets, then a
/// version other than 1, then an unknown `(class, type)` pair, tested in that
/// order.
pub proof fn lemma_header_decode_errors(b: Seq<u8>)
    ensures
        b.len() < 8 ==> header_decode(b) == Err::<CommonHeader, M3uaError>(
            M3uaError::TooShort { expected: 8, actual: b.len() as usize },
        ),
        b.len() >= 8 && b[0] != 1 ==> header_decode(b) == Err::<CommonHeader, M3uaError>(
            M3uaError::InvalidVersion(b[0]),
        ),
        b.len() >= 8 && b[0] == 1 && message_type_of(b[2], b[3]) is None ==> header_decode(b)
            == Err::<CommonHeader, M3uaError>(
            M3uaError::InvalidMessageType { class: b[2], msg_type: b[3] },
        ),
{
}

/// Every message class is named by its own code octet.
pub proof fn lemma_message_class_code(c: MessageClass)
    ensures
        message_class_of(c.code()) == Some(c),
{
}

/// Common Message Header (8 octets): version, reserved, class, type and the
/// 32-bit total message length.
#[derive(Debug, Clone, Copy, PartialEq, Eq, Structural)]
pub struct CommonHeader {
    /// Protocol version (always [`VERSION`] = 1 when built by this crate).
    pub version: u8,
    /// The message type (which implies the message class).
    pub message_type: MessageType,
    /// Total message length in octets, including this 8-octet header.
    pub message_length: u32,
}

/// The 8-octet wire form of a header; the reserved octet is zero.
pub open spec fn header_bytes(h: CommonHeader) -> Seq<u8> {
    seq![h.version, 0u8, h.message_type.spec_class_and_type().0, h.message_type.spec_class_and_type().1]
        + u32_be(h.message_length)
}

/// What decoding a common header from the front of `b` yields.
pub open spec fn header_decode(b: Seq<u8>) -> Result<CommonHeader, M3uaError> {
    if b.len() < 8 {
        Err(M3uaError::TooShort { expected: 8, actual: b.len() as usize })
    } else if b[0] != VERSION {
        Err(M3uaError::InvalidVersion(b[0]))
    } else {
        match message_type_of(b[2], b[3]) {
            Some(mt) => Ok(
                CommonHeader {
                    version: b[0],
                    message_type: mt,
                    message_length: be_u32(b.subrange(4, 8)),
                },
            ),
            None => Err(M3uaError::InvalidMessageType { class: b[2], msg_type: b[3] }),
        }
    }
}

/// The text describing a header, such as `M3UA Header [version=1, type=DATA, length=100]`.
pub open spec fn header_text(h: CommonHeader) -> Seq<char> {
    "M3UA Header [version="@ + decimal(h.version as nat) + ", type="@ + h.message_type.spec_name()
        + ", length="@ + decimal(h.message_length as nat) + "]"@
}

impl CommonHeader {
    /// Size of the common header in octets.
    pub const SIZE: usize = 8;

    /// Build a header for the given message type and total message length.
    pub fn new(message_type: MessageType, message_length: u32) -> (h: Self)
        ensures
            h == (CommonHeader { version: VERSION, message_type, message_length }),
    {
        CommonHeader { version: VERSION, message_type, message_length }
    }

    /// Decode a common header from the first [`SIZE`](Self::SIZE) bytes.
    ///
    /// Validates the version and the `(class, type)` pair; returns an
    /// [`M3uaError`] on a short buffer, unknown version, or unknown type.
    pub fn decode(bytes: &[u8]) -> (r: Result<Self, M3uaError>)
        ensures
            r == header_decode(bytes@),
    {
        if bytes.len() < Self::SIZE {
            return Err(M3uaError::TooShort { expected: Self::SIZE, actual: bytes.len() });
        }
        let version = bytes[0];
        if version != VERSION {
            return Err(M3uaError::InvalidVersion(version));
        }
        let class = bytes[2];
        let msg_type = bytes[3];
        let message_type = match MessageType::from_class_type(class, msg_type) {
            Ok(mt) => mt,
            Err(e) => {
                return Err(e);
            },
        };
        let message_length = read_u32_be(bytes, 4);
        Ok(CommonHeader { version, message_type, message_length })
    }

    /// Encode the header to its 8-byte wire representation.
    pub fn encode(&self) -> (r: [u8; 8])
        ensures
            r@ == header_bytes(*self),
    {
        let (class, msg_type) = self.message_type.class_and_type();
        let len = self.message_length;
        let r = [
            self.version,
            0u8,
            class,
            msg_type,
            (len / 0x100_0000) as u8,
            ((len / 0x1_0000) % 256) as u8,
            ((len / 256) % 256) as u8,
            (len % 256) as u8,
        ];
        assert(r@ =~= header_bytes(*self));
        r
    }

    /// The human-readable description of the header.
    pub fn to_string(&self) -> (s: String)
        ensures
            s@ == header_text(*self),
    {
        let mut s = String::from_str("M3UA Header [version=");
        push_decimal(&mut s, self.version as u64);
        s.append(", type=");
        let name = self.message_type.to_string();
        s.append(name.as_str());
        s.append(", length=");
        push_decimal(&mut s, self.message_length as u64);
        s.append("]");
        s
    }
}

/// The wire layout of a header: version, a zero reserved octet, the class and
/// type octets, then the message length most significant octet first.
pub proof fn lemma_header_layout(h: CommonHeader)
    ensures
        header_bytes(h).len() == 8,
        header_bytes(h)[0] == h.version,
        header_bytes(h)[1] == 0,
        (header_bytes(h)[2], header_bytes(h)[3]) == h.message_type.spec_class_and_type(),
        header_bytes(h)[4] * 0x100_0000 + header_bytes(h)[5] * 0x1_0000 + header_bytes(h)[6] * 256
            + header_bytes(h)[7] == h.message_length,
{
    lemma_u32_be_layout(h.message_length);
    let b = header_bytes(h);
    let l = u32_be(h.message_length);
    assert(b[4] == l[0] && b[5] == l[1] && b[6] == l[2] && b[7] == l[3]);
}

/// What decoding accepts: at least 8 octets, version 1 and a known
/// `(class, type)` pair; the result holds the octets' message type and the
/// big-endian length from octets 4 to 7.
pub proof fn lemma_header_decode_accepts(b: Seq<u8>)
    ensures
        header_decode(b) is Ok <==> (b.len() >= 8 && b[0] == 1 && message_type_of(b[2], b[3]) is Some),
        header_decode(b) matches Ok(h) ==> h.version == 1 && h.message_type.spec_class_and_type()
            == (b[2], b[3]) && h.message_length == b[4] * 0x100_0000 + b[5] * 0x1_0000 + b[6]
            * 256 + b[7],
{
    if header_decode(b) is Ok {
        lemma_class_and_type_of_message_type(b[2], b[3]);
        lemma_be_read_layout(0, 0, b.subrange(4, 8));
    }
}

/// Decoding the encoding of a version-1 header gives the header back.
pub proof fn lemma_header_round_trip(h: CommonHeader)
    requires
        h.version == VERSION,
    ensures
        header_decode(header_bytes(h)) == Ok::<CommonHeader, M3uaError>(h),
{
    let b = header_bytes(h);
    lemma_message_type_of_class_and_type(h.message_type);
    assert(b.subrange(4, 8) =~= u32_be(h.message_length));
    lemma_u32_round_trip(h.message_length);
}

/// A header that decodes re-encodes to the octets it was read from, except
/// the reserved octet, which is written as zero.
pub proof fn lemma_header_decode_encode(b: Seq<u8>)
    requires
        header_decode(b) is Ok,
    ensures
        header_bytes(header_decode(b)->Ok_0) == b.subrange(0, 8).update(1, 0u8),
{
    let h = header_decode(b)->Ok_0;
    lemma_class_and_type_of_message_type(b[2], b[3]);
    lemma_be_u32_octets(b.subrange(4, 8));
    assert(header_bytes(h) =~= b.subrange(0, 8).update(1, 0u8));
}

} // verus!
