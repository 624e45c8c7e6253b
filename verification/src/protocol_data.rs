//! The Protocol Data parameter value (tag 0x0210), which carries the
//! MTP3-User payload of a DATA message (RFC 4666 section 3.3.1).
use vstd::prelude::*;
use vstd::string::StringExecFns;

use crate::error::M3uaError;
use crate::text::{decimal, push_decimal};
use crate::wire::{
    append_bytes, be_u32, copy_range, lemma_be_u32_octets, lemma_u32_be_layout, lemma_u32_round_trip,
    push_u32_be,
    read_u32_be, u32_be,
};

verus! {

/// The abstract value of a Protocol Data payload.
pub struct SpecProtocolData {
    pub opc: u32,
    pub dpc: u32,
    pub si: u8,
    pub ni: u8,
    pub mp: u8,
    pub sls: u8,
    pub user_data: Seq<u8>,
}

/// Protocol Data: the MTP3 routing label (OPC, DPC, SI, NI, MP, SLS) and the
/// upper-layer user data.
#[derive(Debug, Clone, PartialEq, Eq)]
pub struct ProtocolData {
    /// Originating Point Code (32-bit, network-dependent).
    pub opc: u32,
    /// Destination Point Code (32-bit, network-dependent).
    pub dpc: u32,
    /// Service Indicator (SI).
    pub si: u8,
    /// Network Indicator (NI).
    pub ni: u8,
    /// Message Priority (MP).
    pub mp: u8,
    /// Signaling Link Selection (SLS).
    pub sls: u8,
    /// Upper-layer user data (SCCP, ISUP, etc.).
    pub user_data: Vec<u8>,
}

impl View for ProtocolData {
    type V = SpecProtocolData;

    open spec fn view(&self) -> SpecProtocolData {
        SpecProtocolData {
            opc: self.opc,
            dpc: self.dpc,
            si: self.si,
            ni: self.ni,
            mp: self.mp,
            sls: self.sls,
            user_data: self.user_data@,
        }
    }
}

/// The wire form of a Protocol Data payload: OPC, DPC, the four one-octet
/// fields, then the user data.
pub open spec fn protocol_data_bytes(pd: SpecProtocolData) -> Seq<u8> {
    u32_be(pd.opc) + u32_be(pd.dpc) + seq![pd.si, pd.ni, pd.mp, pd.sls] + pd.user_data
}

/// What decoding a Protocol Data payload from `b` yields.
pub open spec fn protocol_data_decode(b: Seq<u8>) -> Result<SpecProtocolData, M3uaError> {
    if b.len() < 12 {
        Err(M3uaError::TooShort { expected: 12, actual: b.len() as usize })
    } else {
        Ok(
            SpecProtocolData {
                opc: be_u32(b.subrange(0, 4)),
                dpc: be_u32(b.subrange(4, 8)),
                si: b[8],
                ni: b[9],
                mp: b[10],
                sls: b[11],
                user_data: b.subrange(12, b.len() as int),
            },
        )
    }
}

/// The text describing a payload, such as
/// `ProtocolData [opc=100, dpc=200, si=3, ni=2, mp=0, sls=5, data_len=20]`.
pub open spec fn protocol_data_text(pd: SpecProtocolData) -> Seq<char> {
    "ProtocolData [opc="@ + decimal(pd.opc as nat) + ", dpc="@ + decimal(pd.dpc as nat)
        + ", si="@ + decimal(pd.si as nat) + ", ni="@ + decimal(pd.ni as nat) + ", mp="@
        + decimal(pd.mp as nat) + ", sls="@ + decimal(pd.sls as nat) + ", data_len="@ + decimal(
        pd.user_data.len(),
    ) + "]"@
}

impl ProtocolData {
    /// Fixed-header size in octets: OPC(4) + DPC(4) + SI+NI+MP+SLS(4).
    pub const HEADER_SIZE: usize = 12;

    /// Build a Protocol Data payload from its routing label and user data.
    pub fn new(opc: u32, dpc: u32, si: u8, ni: u8, mp: u8, sls: u8, user_data: Vec<u8>) -> (pd:
        Self)
        ensures
            pd == (ProtocolData { opc, dpc, si, ni, mp, sls, user_data }),
    {
        ProtocolData { opc, dpc, si, ni, mp, sls, user_data }
    }

    /// Decode from the Protocol Data parameter value (after tag+length).
    pub fn decode(bytes: &[u8]) -> (r: Result<Self, M3uaError>)
        ensures
            match r {
                Ok(pd) => protocol_data_decode(bytes@) == Ok::<SpecProtocolData, M3uaError>(pd@),
                Err(e) => protocol_data_decode(bytes@) == Err::<SpecProtocolData, M3uaError>(e),
            },
    {
        if bytes.len() < Self::HEADER_SIZE {
            return Err(M3uaError::TooShort { expected: Self::HEADER_SIZE, actual: bytes.len() });
        }
        let opc = read_u32_be(bytes, 0);
        let dpc = read_u32_be(bytes, 4);
        let si = bytes[8];
        let ni = bytes[9];
        let mp = bytes[10];
        let sls = bytes[11];
        let user_data = copy_range(bytes, Self::HEADER_SIZE, bytes.len());
        Ok(ProtocolData { opc, dpc, si, ni, mp, sls, user_data })
    }

    /// Encode to bytes (for use as Parameter value).
    pub fn encode(&self) -> (r: Vec<u8>)
        ensures
            r@ == protocol_data_bytes(self@),
    {
        let mut buf: Vec<u8> = Vec::new();
        push_u32_be(&mut buf, self.opc);
        push_u32_be(&mut buf, self.dpc);
        buf.push(self.si);
        buf.push(self.ni);
        buf.push(self.mp);
        buf.push(self.sls);
        append_bytes(&mut buf, self.user_data.as_slice());
        assert(buf@ =~= protocol_data_bytes(self@));
        buf
    }

    /// The human-readable description of the payload.
    pub fn to_string(&self) -> (s: String)
        ensures
            s@ == protocol_data_text(self@),
    {
        let mut s = String::from_str("ProtocolData [opc=");
        push_decimal(&mut s, self.opc as u64);
        s.append(", dpc=");
        push_decimal(&mut s, self.dpc as u64);
        s.append(", si=");
        push_decimal(&mut s, self.si as u64);
        s.append(", ni=");
        push_decimal(&mut s, self.ni as u64);
        s.append(", mp=");
        push_decimal(&mut s, self.mp as u64);
        s.append(", sls=");
        push_decimal(&mut s, self.sls as u64);
        s.append(", data_len=");
        push_decimal(&mut s, self.user_data.len() as u64);
        s.append("]");
        s
    }
}

/// The wire layout of a payload: OPC and DPC most significant octet first in
/// octets 0-3 and 4-7, then SI, NI, MP and SLS in octets 8, 9, 10 and 11, then
/// the user data.
pub proof fn lemma_protocol_data_layout(pd: SpecProtocolData)
    ensures
        ({
            let b = protocol_data_bytes(pd);
            &&& b.len() == 12 + pd.user_data.len()
            &&& b[0] * 0x100_0000 + b[1] * 0x1_0000 + b[2] * 256 + b[3] == pd.opc
            &&& b[4] * 0x100_0000 + b[5] * 0x1_0000 + b[6] * 256 + b[7] == pd.dpc
            &&& b[8] == pd.si
            &&& b[9] == pd.ni
            &&& b[10] == pd.mp
            &&& b[11] == pd.sls
            &&& b.subrange(12, b.len() as int) == pd.user_data
        }),
{
    let b = protocol_data_bytes(pd);
    lemma_u32_be_layout(pd.opc);
    lemma_u32_be_layout(pd.dpc);
    let o = u32_be(pd.opc);
    let d = u32_be(pd.dpc);
    assert(b[0] == o[0] && b[1] == o[1] && b[2] == o[2] && b[3] == o[3]);
    assert(b[4] == d[0] && b[5] == d[1] && b[6] == d[2] && b[7] == d[3]);
    assert(b.subrange(12, b.len() as int) =~= pd.user_data);
}

/// Decoding accepts exactly the payloads of at least 12 octets and reads each
/// field from its place: OPC and DPC big-endian from octets 0-3 and 4-7, SI,
/// NI, MP and SLS from octets 8 to 11, and the user data from octet 12 on.
pub proof fn lemma_protocol_data_decode_fields(b: Seq<u8>)
    ensures
        b.len() < 12 ==> protocol_data_decode(b) == Err::<SpecProtocolData, M3uaError>(
            M3uaError::TooShort { expected: 12, actual: b.len() as usize },
        ),
        b.len() >= 12 ==> protocol_data_decode(b) is Ok,
        protocol_data_decode(b) matches Ok(pd) ==> {
            &&& pd.opc == b[0] * 0x100_0000 + b[1] * 0x1_0000 + b[2] * 256 + b[3]
            &&& pd.dpc == b[4] * 0x100_0000 + b[5] * 0x1_0000 + b[6] * 256 + b[7]
            &&& pd.si == b[8]
            &&& pd.ni == b[9]
            &&& pd.mp == b[10]
            &&& pd.sls == b[11]
            &&& pd.user_data == b.subrange(12, b.len() as int)
        },
{
    if b.len() >= 12 {
        lemma_protocol_data_decode_encode(b);
        lemma_protocol_data_layout(protocol_data_decode(b)->Ok_0);
    }
}

/// Decoding the wire form of a payload gives the payload back.
pub proof fn lemma_protocol_data_round_trip(pd: SpecProtocolData)
    ensures
        protocol_data_decode(protocol_data_bytes(pd)) == Ok::<SpecProtocolData, M3uaError>(pd),
{
    let b = protocol_data_bytes(pd);
    assert(b.subrange(0, 4) =~= u32_be(pd.opc));
    assert(b.subrange(4, 8) =~= u32_be(pd.dpc));
    assert(b.subrange(12, b.len() as int) =~= pd.user_data);
    lemma_u32_round_trip(pd.opc);
    lemma_u32_round_trip(pd.dpc);
}

/// A payload that decodes re-encodes to exactly the octets it was read from.
pub proof fn lemma_protocol_data_decode_encode(b: Seq<u8>)
    requires
        protocol_data_decode(b) is Ok,
    ensures
        protocol_data_bytes(protocol_data_decode(b)->Ok_0) == b,
{
    lemma_be_u32_octets(b.subrange(0, 4));
    lemma_be_u32_octets(b.subrange(4, 8));
    assert(protocol_data_bytes(protocol_data_decode(b)->Ok_0) =~= b);
}

} // verus!
