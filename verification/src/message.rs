//! Whole M3UA messages: the common header followed by TLV parameters, with
//! typed builders for the common messages and accessors for their parameters.
use vstd::prelude::*;
use vstd::string::StringExecFns;
use vstd::string::StringSliceAdditionalSpecFns;

use crate::error::{error_text, M3uaError};
use crate::header::{
    header_bytes, header_decode, header_text, lemma_header_layout, lemma_header_round_trip, CommonHeader,
    MessageType, VERSION,
};
use crate::parameter::{
    find_parameter, find_tag, lemma_parameters_round_trip, parameter_text, tag_name, parameters_bytes, parameters_decode,
    tags, value_as_u32, decode_parameters, encode_parameters, Parameter, SpecParameter,
};
use crate::protocol_data::{
    lemma_protocol_data_round_trip, protocol_data_bytes, protocol_data_decode, protocol_data_text,
    ProtocolData,
    SpecProtocolData,
};
use crate::text::{decimal, hex4, push_decimal};
use crate::wire::{
    append_bytes, be_u32, copy_range, lemma_be_read_layout, lemma_u32_round_trip, push_u32_be,
    read_u32_be, u32_be,
};

verus! {

/// The abstract value of a message: its type and its parameters in wire order.
pub struct SpecMessage {
    pub message_type: MessageType,
    pub parameters: Seq<SpecParameter>,
}

/// A decoded M3UA message.
#[derive(Debug, Clone, PartialEq, Eq)]
pub struct M3uaMessage {
    /// The message type (which implies the message class).
    pub message_type: MessageType,
    /// The parameters, in wire order.
    pub parameters: Vec<Parameter>,
}

impl View for M3uaMessage {
    type V = SpecMessage;

    open spec fn view(&self) -> SpecMessage {
        SpecMessage { message_type: self.message_type, parameters: self.parameters.deep_view() }
    }
}

/// A parameter holding the 4 big-endian octets of `v`.
pub open spec fn u32_parameter(tag: u16, v: u32) -> SpecParameter {
    SpecParameter { tag, value: u32_be(v) }
}

/// A 32-bit parameter when `v` is present, nothing otherwise.
pub open spec fn opt_u32_parameter(tag: u16, v: Option<u32>) -> Seq<SpecParameter> {
    match v {
        Some(x) => seq![u32_parameter(tag, x)],
        None => Seq::empty(),
    }
}

/// A parameter holding the octets `v` when present, nothing otherwise.
pub open spec fn opt_bytes_parameter(tag: u16, v: Option<Seq<u8>>) -> Seq<SpecParameter> {
    match v {
        Some(x) => seq![SpecParameter { tag, value: x }],
        None => Seq::empty(),
    }
}

/// An Info String parameter holding the UTF-8 octets of `info` when present.
pub open spec fn opt_info_parameter(info: Option<&str>) -> Seq<SpecParameter> {
    match info {
        Some(s) => seq![SpecParameter { tag: tags::INFO_STRING, value: s.spec_bytes() }],
        None => Seq::empty(),
    }
}

/// The view of an optional octet vector.
pub open spec fn opt_vec_view(v: Option<Vec<u8>>) -> Option<Seq<u8>> {
    match v {
        Some(x) => Some(x@),
        None => None,
    }
}

/// The Affected Point Code value for `pcs`: 4 big-endian octets per point code.
pub open spec fn point_codes_bytes(pcs: Seq<u32>) -> Seq<u8>
    decreases pcs.len(),
{
    if pcs.len() == 0 {
        Seq::empty()
    } else {
        point_codes_bytes(pcs.drop_last()) + u32_be(pcs.last())
    }
}

/// The point codes read from an Affected Point Code value, 4 octets each; a
/// trailing group of fewer than 4 octets is ignored.
pub open spec fn point_codes_of(b: Seq<u8>) -> Seq<u32> {
    Seq::new(b.len() / 4, |i: int| be_u32(b.subrange(4 * i, 4 * i + 4)))
}

/// The parameters of a DATA message.
pub open spec fn data_parameters(
    network_appearance: Option<u32>,
    routing_context: Option<u32>,
    pd: SpecProtocolData,
    correlation_id: Option<u32>,
) -> Seq<SpecParameter> {
    opt_u32_parameter(tags::NETWORK_APPEARANCE, network_appearance) + opt_u32_parameter(
        tags::ROUTING_CONTEXT,
        routing_context,
    ) + seq![SpecParameter { tag: tags::PROTOCOL_DATA, value: protocol_data_bytes(pd) }]
        + opt_u32_parameter(tags::CORRELATION_ID, correlation_id)
}

/// The parameters of an SSNM message (DUNA, DAVA, DAUD) about `pcs`.
pub open spec fn point_code_parameters(routing_context: Option<u32>, pcs: Seq<u32>) -> Seq<
    SpecParameter,
> {
    opt_u32_parameter(tags::ROUTING_CONTEXT, routing_context) + seq![
        SpecParameter { tag: tags::AFFECTED_POINT_CODE, value: point_codes_bytes(pcs) },
    ]
}

/// What the Protocol Data accessor yields for a message.
pub open spec fn message_protocol_data(m: SpecMessage) -> Result<SpecProtocolData, M3uaError> {
    match find_tag(m.parameters, tags::PROTOCOL_DATA) {
        Some(p) => protocol_data_decode(p.value),
        None => Err(M3uaError::MissingParameter(tags::PROTOCOL_DATA)),
    }
}

/// What the Routing Context accessor yields for a message.
pub open spec fn message_routing_context(m: SpecMessage) -> Option<u32> {
    match find_tag(m.parameters, tags::ROUTING_CONTEXT) {
        Some(p) => value_as_u32(p),
        None => None,
    }
}

/// What the affected-point-codes accessor yields for a message.
pub open spec fn message_point_codes(m: SpecMessage) -> Seq<u32> {
    match find_tag(m.parameters, tags::AFFECTED_POINT_CODE) {
        Some(p) => point_codes_of(p.value),
        None => Seq::empty(),
    }
}

/// The wire form of a message: a version-1 header whose length field is the
/// total length (kept to its low 32 bits), then the encoded parameters.
pub open spec fn message_bytes(m: SpecMessage) -> Seq<u8> {
    let body = parameters_bytes(m.parameters);
    header_bytes(
        CommonHeader {
            version: VERSION,
            message_type: m.message_type,
            message_length: ((8 + body.len()) % 0x1_0000_0000) as u32,
        },
    ) + body
}

/// What decoding a whole message from `b` yields.
pub open spec fn message_decode(b: Seq<u8>) -> Result<SpecMessage, M3uaError> {
    match header_decode(b) {
        Ok(h) => match parameters_decode(b.subrange(8, b.len() as int)) {
            Ok(ps) => Ok(SpecMessage { message_type: h.message_type, parameters: ps }),
            Err(e) => Err(e),
        },
        Err(e) => Err(e),
    }
}

/// The text describing a message, such as `M3UA ASPUP [1 parameters]`.
pub open spec fn message_text(m: SpecMessage) -> Seq<char> {
    "M3UA "@ + m.message_type.spec_name() + " ["@ + decimal(m.parameters.len()) + " parameters]"@
}

/// The length field for a message whose parameters take `body_len` octets:
/// the total length with the header, kept to its low 32 bits.
fn total_length_field(body_len: usize) -> (r: u32)
    ensures
        r == (8 + body_len) % 0x1_0000_0000,
{
    let low = ((body_len as u64) % 0x1_0000_0000) as u32;
    low.wrapping_add(8)
}

/// Appends a parameter.
fn push_parameter(ps: &mut Vec<Parameter>, p: Parameter)
    ensures
        final(ps).deep_view() == old(ps).deep_view().push(p@),
{
    ps.push(p);
    assert(final(ps).deep_view() =~= old(ps).deep_view().push(p@));
}

/// Appends a 32-bit parameter when `v` is present.
fn push_opt_u32(ps: &mut Vec<Parameter>, tag: u16, v: Option<u32>)
    ensures
        final(ps).deep_view() == old(ps).deep_view() + opt_u32_parameter(tag, v),
{
    match v {
        Some(x) => {
            push_parameter(ps, Parameter::from_u32(tag, x));
            assert(final(ps).deep_view() =~= old(ps).deep_view() + opt_u32_parameter(tag, v));
        },
        None => {
            assert(final(ps).deep_view() =~= old(ps).deep_view() + opt_u32_parameter(tag, v));
        },
    }
}

/// Appends a parameter holding the octets `v` when present.
fn push_opt_bytes(ps: &mut Vec<Parameter>, tag: u16, v: Option<Vec<u8>>)
    ensures
        final(ps).deep_view() == old(ps).deep_view() + opt_bytes_parameter(tag, opt_vec_view(v)),
{
    match v {
        Some(x) => {
            push_parameter(ps, Parameter::new(tag, x));
        },
        None => {},
    }
    assert(final(ps).deep_view() =~= old(ps).deep_view() + opt_bytes_parameter(
        tag,
        opt_vec_view(v),
    ));
}

/// Appends an Info String parameter when `info` is present.
fn push_opt_info(ps: &mut Vec<Parameter>, info: Option<&str>)
    ensures
        final(ps).deep_view() == old(ps).deep_view() + opt_info_parameter(info),
{
    match info {
        Some(s) => {
            let b = s.as_bytes();
            let v = copy_range(b, 0, b.len());
            assert(b@.subrange(0, b@.len() as int) =~= b@);
            push_parameter(ps, Parameter::new(tags::INFO_STRING, v));
        },
        None => {},
    }
    assert(final(ps).deep_view() =~= old(ps).deep_view() + opt_info_parameter(info));
}

/// Pack point codes into an Affected Point Code value (4 octets each, big-endian).
pub fn pack_affected_point_codes(pcs: &[u32]) -> (r: Vec<u8>)
    ensures
        r@ == point_codes_bytes(pcs@),
{
    let mut buf: Vec<u8> = Vec::new();
    let mut i: usize = 0;
    while i < pcs.len()
        invariant
            i <= pcs@.len(),
            buf@ == point_codes_bytes(pcs@.subrange(0, i as int)),
        decreases pcs@.len() - i,
    {
        push_u32_be(&mut buf, pcs[i]);
        assert(pcs@.subrange(0, i + 1).drop_last() =~= pcs@.subrange(0, i as int));
        i = i + 1;
    }
    assert(pcs@.subrange(0, pcs@.len() as int) =~= pcs@);
    buf
}

/// Unpack an Affected Point Code value (4 octets each) back into point codes;
/// a trailing group of fewer than 4 octets is ignored.
pub fn unpack_affected_point_codes(data: &[u8]) -> (r: Vec<u32>)
    ensures
        r@ == point_codes_of(data@),
{
    let mut out: Vec<u32> = Vec::new();
    let mut pos: usize = 0;
    let n = data.len() / 4;
    while pos < n
        invariant
            n == data@.len() / 4,
            pos <= n,
            out@ == point_codes_of(data@).subrange(0, pos as int),
        decreases n - pos,
    {
        let ghost len = data.len();
        assert(4 * pos + 4 <= len) by (nonlinear_arith)
            requires
                pos < n,
                n == len / 4,
        ;
        let x = read_u32_be(data, 4 * pos);
        out.push(x);
        pos = pos + 1;
        assert(out@ =~= point_codes_of(data@).subrange(0, pos as int));
    }
    assert(point_codes_of(data@).subrange(0, n as int) =~= point_codes_of(data@));
    out
}

/// The Affected Point Code value of `pcs` is 4 octets per point code, with the
/// octets of `pcs[i]` at offset `4 * i`.
pub proof fn lemma_point_codes_bytes_layout(pcs: Seq<u32>)
    ensures
        point_codes_bytes(pcs).len() == 4 * pcs.len(),
        forall|i: int|
            0 <= i < pcs.len() ==> #[trigger] point_codes_bytes(pcs).subrange(4 * i, 4 * i + 4)
                == u32_be(pcs[i]),
    decreases pcs.len(),
{
    if pcs.len() > 0 {
        let init = pcs.drop_last();
        lemma_point_codes_bytes_layout(init);
        let b = point_codes_bytes(pcs);
        assert forall|i: int| 0 <= i < pcs.len() implies #[trigger] b.subrange(4 * i, 4 * i + 4)
            == u32_be(pcs[i]) by {
            if i < pcs.len() - 1 {
                assert(b.subrange(4 * i, 4 * i + 4) =~= point_codes_bytes(init).subrange(
                    4 * i,
                    4 * i + 4,
                ));
            } else {
                assert(b.subrange(4 * i, 4 * i + 4) =~= u32_be(pcs.last()));
            }
        }
    }
}

/// Unpacking packed point codes gives the point codes back.
pub proof fn lemma_point_codes_round_trip(pcs: Seq<u32>)
    ensures
        point_codes_of(point_codes_bytes(pcs)) == pcs,
{
    lemma_point_codes_bytes_layout(pcs);
    let b = point_codes_bytes(pcs);
    assert forall|i: int| 0 <= i < pcs.len() implies #[trigger] point_codes_of(b)[i] == pcs[i] by {
        assert(b.subrange(4 * i, 4 * i + 4) == u32_be(pcs[i]));
        lemma_u32_round_trip(pcs[i]);
    }
    assert(point_codes_of(b) =~= pcs);
}

impl M3uaMessage {
    /// Build a message from its type and parameters.
    pub fn new(message_type: MessageType, parameters: Vec<Parameter>) -> (m: Self)
        ensures
            m.message_type == message_type,
            m.parameters == parameters,
    {
        M3uaMessage { message_type, parameters }
    }

    /// Create an ASPUP message (optionally with ASP Identifier and Info String).
    pub fn asp_up(asp_id: Option<u32>, info: Option<&str>) -> (m: Self)
        ensures
            m@ == (SpecMessage {
                message_type: MessageType::AspUp,
                parameters: opt_u32_parameter(tags::ASP_IDENTIFIER, asp_id) + opt_info_parameter(
                    info,
                ),
            }),
    {
        let mut params: Vec<Parameter> = Vec::new();
        push_opt_u32(&mut params, tags::ASP_IDENTIFIER, asp_id);
        push_opt_info(&mut params, info);
        assert(params.deep_view() =~= opt_u32_parameter(tags::ASP_IDENTIFIER, asp_id)
            + opt_info_parameter(info));
        M3uaMessage::new(MessageType::AspUp, params)
    }

    /// Create an ASPUP ACK message.
    pub fn asp_up_ack(info: Option<&str>) -> (m: Self)
        ensures
            m@ == (SpecMessage {
                message_type: MessageType::AspUpAck,
                parameters: opt_info_parameter(info),
            }),
    {
        let mut params: Vec<Parameter> = Vec::new();
        push_opt_info(&mut params, info);
        assert(params.deep_view() =~= opt_info_parameter(info));
        M3uaMessage::new(MessageType::AspUpAck, params)
    }

    /// Create an ASPDN message.
    pub fn asp_down(info: Option<&str>) -> (m: Self)
        ensures
            m@ == (SpecMessage {
                message_type: MessageType::AspDown,
                parameters: opt_info_parameter(info),
            }),
    {
        let mut params: Vec<Parameter> = Vec::new();
        push_opt_info(&mut params, info);
        assert(params.deep_view() =~= opt_info_parameter(info));
        M3uaMessage::new(MessageType::AspDown, params)
    }

    /// Create an ASPDN ACK message.
    pub fn asp_down_ack(info: Option<&str>) -> (m: Self)
        ensures
            m@ == (SpecMessage {
                message_type: MessageType::AspDownAck,
                parameters: opt_info_parameter(info),
            }),
    {
        let mut params: Vec<Parameter> = Vec::new();
        push_opt_info(&mut params, info);
        assert(params.deep_view() =~= opt_info_parameter(info));
        M3uaMessage::new(MessageType::AspDownAck, params)
    }

    /// Create an ASPAC message (optionally with traffic mode and routing context).
    pub fn asp_active(traffic_mode: Option<u32>, routing_context: Option<u32>) -> (m: Self)
        ensures
            m@ == (SpecMessage {
                message_type: MessageType::AspActive,
                parameters: opt_u32_parameter(tags::TRAFFIC_MODE_TYPE, traffic_mode)
                    + opt_u32_parameter(tags::ROUTING_CONTEXT, routing_context),
            }),
    {
        let mut params: Vec<Parameter> = Vec::new();
        push_opt_u32(&mut params, tags::TRAFFIC_MODE_TYPE, traffic_mode);
        push_opt_u32(&mut params, tags::ROUTING_CONTEXT, routing_context);
        assert(params.deep_view() =~= opt_u32_parameter(tags::TRAFFIC_MODE_TYPE, traffic_mode)
            + opt_u32_parameter(tags::ROUTING_CONTEXT, routing_context));
        M3uaMessage::new(MessageType::AspActive, params)
    }

    /// Create an ASPAC ACK message.
    pub fn asp_active_ack(traffic_mode: Option<u32>, routing_context: Option<u32>) -> (m: Self)
        ensures
            m@ == (SpecMessage {
                message_type: MessageType::AspActiveAck,
                parameters: opt_u32_parameter(tags::TRAFFIC_MODE_TYPE, traffic_mode)
                    + opt_u32_parameter(tags::ROUTING_CONTEXT, routing_context),
            }),
    {
        let mut params: Vec<Parameter> = Vec::new();
        push_opt_u32(&mut params, tags::TRAFFIC_MODE_TYPE, traffic_mode);
        push_opt_u32(&mut params, tags::ROUTING_CONTEXT, routing_context);
        assert(params.deep_view() =~= opt_u32_parameter(tags::TRAFFIC_MODE_TYPE, traffic_mode)
            + opt_u32_parameter(tags::ROUTING_CONTEXT, routing_context));
        M3uaMessage::new(MessageType::AspActiveAck, params)
    }

    /// Create an ASPIA message.
    pub fn asp_inactive(routing_context: Option<u32>) -> (m: Self)
        ensures
            m@ == (SpecMessage {
                message_type: MessageType::AspInactive,
                parameters: opt_u32_parameter(tags::ROUTING_CONTEXT, routing_context),
            }),
    {
        let mut params: Vec<Parameter> = Vec::new();
        push_opt_u32(&mut params, tags::ROUTING_CONTEXT, routing_context);
        assert(params.deep_view() =~= opt_u32_parameter(tags::ROUTING_CONTEXT, routing_context));
        M3uaMessage::new(MessageType::AspInactive, params)
    }

    /// Create an ASPIA ACK message.
    pub fn asp_inactive_ack(routing_context: Option<u32>) -> (m: Self)
        ensures
            m@ == (SpecMessage {
                message_type: MessageType::AspInactiveAck,
                parameters: opt_u32_parameter(tags::ROUTING_CONTEXT, routing_context),
            }),
    {
        let mut params: Vec<Parameter> = Vec::new();
        push_opt_u32(&mut params, tags::ROUTING_CONTEXT, routing_context);
        assert(params.deep_view() =~= opt_u32_parameter(tags::ROUTING_CONTEXT, routing_context));
        M3uaMessage::new(MessageType::AspInactiveAck, params)
    }

    /// Create a BEAT (heartbeat) message.
    pub fn heartbeat(data: Option<Vec<u8>>) -> (m: Self)
        ensures
            m@ == (SpecMessage {
                message_type: MessageType::Heartbeat,
                parameters: opt_bytes_parameter(tags::HEARTBEAT_DATA, opt_vec_view(data)),
            }),
    {
        let ghost d = opt_vec_view(data);
        let mut params: Vec<Parameter> = Vec::new();
        push_opt_bytes(&mut params, tags::HEARTBEAT_DATA, data);
        assert(params.deep_view() =~= opt_bytes_parameter(tags::HEARTBEAT_DATA, d));
        M3uaMessage::new(MessageType::Heartbeat, params)
    }

    /// Create a BEAT ACK (heartbeat ack) message.
    pub fn heartbeat_ack(data: Option<Vec<u8>>) -> (m: Self)
        ensures
            m@ == (SpecMessage {
                message_type: MessageType::HeartbeatAck,
                parameters: opt_bytes_parameter(tags::HEARTBEAT_DATA, opt_vec_view(data)),
            }),
    {
        let ghost d = opt_vec_view(data);
        let mut params: Vec<Parameter> = Vec::new();
        push_opt_bytes(&mut params, tags::HEARTBEAT_DATA, data);
        assert(params.deep_view() =~= opt_bytes_parameter(tags::HEARTBEAT_DATA, d));
        M3uaMessage::new(MessageType::HeartbeatAck, params)
    }

    /// Create a DATA message carrying MTP3-User data.
    pub fn data(
        network_appearance: Option<u32>,
        routing_context: Option<u32>,
        protocol_data: ProtocolData,
        correlation_id: Option<u32>,
    ) -> (m: Self)
        ensures
            m@ == (SpecMessage {
                message_type: MessageType::Data,
                parameters: data_parameters(
                    network_appearance,
                    routing_context,
                    protocol_data@,
                    correlation_id,
                ),
            }),
    {
        let mut params: Vec<Parameter> = Vec::new();
        push_opt_u32(&mut params, tags::NETWORK_APPEARANCE, network_appearance);
        push_opt_u32(&mut params, tags::ROUTING_CONTEXT, routing_context);
        push_parameter(&mut params, Parameter::new(tags::PROTOCOL_DATA, protocol_data.encode()));
        push_opt_u32(&mut params, tags::CORRELATION_ID, correlation_id);
        assert(params.deep_view() =~= data_parameters(
            network_appearance,
            routing_context,
            protocol_data@,
            correlation_id,
        ));
        M3uaMessage::new(MessageType::Data, params)
    }

    /// Create a DUNA (Destination Unavailable) message.
    pub fn duna(routing_context: Option<u32>, affected_pcs: Vec<u32>) -> (m: Self)
        ensures
            m@ == (SpecMessage {
                message_type: MessageType::Duna,
                parameters: point_code_parameters(routing_context, affected_pcs@),
            }),
    {
        Self::point_code_message(MessageType::Duna, routing_context, affected_pcs)
    }

    /// Create a DAVA (Destination Available) message.
    pub fn dava(routing_context: Option<u32>, affected_pcs: Vec<u32>) -> (m: Self)
        ensures
            m@ == (SpecMessage {
                message_type: MessageType::Dava,
                parameters: point_code_parameters(routing_context, affected_pcs@),
            }),
    {
        Self::point_code_message(MessageType::Dava, routing_context, affected_pcs)
    }

    /// Create a DAUD (Destination State Audit) message.
    pub fn daud(routing_context: Option<u32>, affected_pcs: Vec<u32>) -> (m: Self)
        ensures
            m@ == (SpecMessage {
                message_type: MessageType::Daud,
                parameters: point_code_parameters(routing_context, affected_pcs@),
            }),
    {
        Self::point_code_message(MessageType::Daud, routing_context, affected_pcs)
    }

    /// An SSNM message of type `message_type` about the point codes `pcs`.
    fn point_code_message(message_type: MessageType, routing_context: Option<u32>, pcs: Vec<u32>) -> (m:
        Self)
        ensures
            m@ == (SpecMessage {
                message_type,
                parameters: point_code_parameters(routing_context, pcs@),
            }),
    {
        let mut params: Vec<Parameter> = Vec::new();
        push_opt_u32(&mut params, tags::ROUTING_CONTEXT, routing_context);
        let apc_value = pack_affected_point_codes(pcs.as_slice());
        push_parameter(&mut params, Parameter::new(tags::AFFECTED_POINT_CODE, apc_value));
        assert(params.deep_view() =~= point_code_parameters(routing_context, pcs@));
        M3uaMessage::new(message_type, params)
    }

    /// Create an ERR message.
    pub fn error(error_code: u32, routing_context: Option<u32>, diagnostic_info: Option<Vec<u8>>) -> (m:
        Self)
        ensures
            m@ == (SpecMessage {
                message_type: MessageType::Error,
                parameters: seq![u32_parameter(tags::ERROR_CODE, error_code)] + opt_u32_parameter(
                    tags::ROUTING_CONTEXT,
                    routing_context,
                ) + opt_bytes_parameter(tags::DIAGNOSTIC_INFO, opt_vec_view(diagnostic_info)),
            }),
    {
        let ghost di = opt_vec_view(diagnostic_info);
        let mut params: Vec<Parameter> = Vec::new();
        push_parameter(&mut params, Parameter::from_u32(tags::ERROR_CODE, error_code));
        push_opt_u32(&mut params, tags::ROUTING_CONTEXT, routing_context);
        push_opt_bytes(&mut params, tags::DIAGNOSTIC_INFO, diagnostic_info);
        assert(params.deep_view() =~= seq![u32_parameter(tags::ERROR_CODE, error_code)]
            + opt_u32_parameter(tags::ROUTING_CONTEXT, routing_context) + opt_bytes_parameter(
            tags::DIAGNOSTIC_INFO,
            di,
        ));
        M3uaMessage::new(MessageType::Error, params)
    }

    /// Create a NTFY (Notify) message.
    pub fn notify(status: u32, asp_id: Option<u32>, routing_context: Option<u32>) -> (m: Self)
        ensures
            m@ == (SpecMessage {
                message_type: MessageType::Notify,
                parameters: seq![u32_parameter(tags::STATUS, status)] + opt_u32_parameter(
                    tags::ASP_IDENTIFIER,
                    asp_id,
                ) + opt_u32_parameter(tags::ROUTING_CONTEXT, routing_context),
            }),
    {
        let mut params: Vec<Parameter> = Vec::new();
        push_parameter(&mut params, Parameter::from_u32(tags::STATUS, status));
        push_opt_u32(&mut params, tags::ASP_IDENTIFIER, asp_id);
        push_opt_u32(&mut params, tags::ROUTING_CONTEXT, routing_context);
        assert(params.deep_view() =~= seq![u32_parameter(tags::STATUS, status)]
            + opt_u32_parameter(tags::ASP_IDENTIFIER, asp_id) + opt_u32_parameter(
            tags::ROUTING_CONTEXT,
            routing_context,
        ));
        M3uaMessage::new(MessageType::Notify, params)
    }

    /// Extract the Protocol Data from a DATA message.
    pub fn protocol_data(&self) -> (r: Result<ProtocolData, M3uaError>)
        ensures
            match r {
                Ok(pd) => message_protocol_data(self@) == Ok::<SpecProtocolData, M3uaError>(pd@),
                Err(e) => message_protocol_data(self@) == Err::<SpecProtocolData, M3uaError>(e),
            },
    {
        match find_parameter(self.parameters.as_slice(), tags::PROTOCOL_DATA) {
            Some(param) => ProtocolData::decode(param.value.as_slice()),
            None => Err(M3uaError::MissingParameter(tags::PROTOCOL_DATA)),
        }
    }

    /// Extract the Routing Context value, if present.
    pub fn routing_context(&self) -> (r: Option<u32>)
        ensures
            r == message_routing_context(self@),
    {
        match find_parameter(self.parameters.as_slice(), tags::ROUTING_CONTEXT) {
            Some(param) => param.as_u32(),
            None => None,
        }
    }

    /// The affected point codes carried in an SSNM message (DUNA/DAVA/DAUD/...);
    /// empty when the message has no Affected Point Code parameter.
    pub fn affected_point_codes(&self) -> (r: Vec<u32>)
        ensures
            r@ == message_point_codes(self@),
    {
        match find_parameter(self.parameters.as_slice(), tags::AFFECTED_POINT_CODE) {
            Some(param) => unpack_affected_point_codes(param.value.as_slice()),
            None => Vec::new(),
        }
    }

    /// Decode a complete M3UA message from bytes.
    pub fn decode(bytes: &[u8]) -> (r: Result<Self, M3uaError>)
        ensures
            match r {
                Ok(m) => message_decode(bytes@) == Ok::<SpecMessage, M3uaError>(m@),
                Err(e) => message_decode(bytes@) == Err::<SpecMessage, M3uaError>(e),
            },
    {
        let header = match CommonHeader::decode(bytes) {
            Ok(h) => h,
            Err(e) => {
                return Err(e);
            },
        };
        let param_bytes = vstd::slice::slice_subrange(bytes, CommonHeader::SIZE, bytes.len());
        let parameters = match decode_parameters(param_bytes) {
            Ok(ps) => ps,
            Err(e) => {
                return Err(e);
            },
        };
        Ok(M3uaMessage { message_type: header.message_type, parameters })
    }

    /// Encode to bytes (header + parameters).
    pub fn encode(&self) -> (r: Vec<u8>)
        ensures
            r@ == message_bytes(self@),
    {
        let param_bytes = encode_parameters(self.parameters.as_slice());
        let total_len = total_length_field(param_bytes.len());
        let header = CommonHeader::new(self.message_type, total_len);
        let hb = header.encode();
        let mut buf: Vec<u8> = Vec::new();
        append_bytes(&mut buf, hb.as_slice());
        append_bytes(&mut buf, param_bytes.as_slice());
        proof {
            let body = parameters_bytes(self@.parameters);
            assert(param_bytes@ == body);
            assert(header == CommonHeader {
                version: VERSION,
                message_type: self.message_type,
                message_length: ((8 + body.len()) % 0x1_0000_0000) as u32,
            });
            assert(buf@ =~= message_bytes(self@));
        }
        buf
    }

    /// The human-readable description of the message.
    pub fn to_string(&self) -> (s: String)
        ensures
            s@ == message_text(self@),
    {
        let mut s = String::from_str("M3UA ");
        let name = self.message_type.to_string();
        s.append(name.as_str());
        s.append(" [");
        push_decimal(&mut s, self.parameters.len() as u64);
        s.append(" parameters]");
        s
    }
}

/// Decoding the encoding of a message gives the message back, when every
/// parameter value fits the 16-bit length field.
#[verifier::spinoff_prover]
pub proof fn lemma_message_round_trip(m: SpecMessage)
    requires
        forall|i: int|
            0 <= i < m.parameters.len() ==> #[trigger] m.parameters[i].value.len() + 4 <= 0xFFFF,
    ensures
        message_decode(message_bytes(m)) == Ok::<SpecMessage, M3uaError>(m),
{
    let body = parameters_bytes(m.parameters);
    let h = CommonHeader {
        version: VERSION,
        message_type: m.message_type,
        message_length: ((8 + body.len()) % 0x1_0000_0000) as u32,
    };
    let hb = header_bytes(h);
    let b = hb + body;
    lemma_header_round_trip(h);
    assert(b.subrange(0, 8) =~= hb);
    assert(b.subrange(4, 8) =~= hb.subrange(4, 8));
    assert(header_decode(b) == header_decode(hb));
    assert(b.subrange(8, b.len() as int) =~= body + Seq::<u8>::empty());
    lemma_parameters_round_trip(m.parameters, Seq::empty());
}

/// The length field of an encoded message is its total length in octets,
/// header included, whenever that length fits 32 bits.
pub proof fn lemma_message_length_field(m: SpecMessage)
    requires
        message_bytes(m).len() <= u32::MAX,
    ensures
        header_decode(message_bytes(m)) matches Ok(h) && h.message_length == message_bytes(m).len()
            && h.message_type == m.message_type,
{
    let body = parameters_bytes(m.parameters);
    let h = CommonHeader {
        version: VERSION,
        message_type: m.message_type,
        message_length: ((8 + body.len()) % 0x1_0000_0000) as u32,
    };
    let hb = header_bytes(h);
    let b = hb + body;
    lemma_header_round_trip(h);
    assert(b.subrange(4, 8) =~= hb.subrange(4, 8));
    assert(header_decode(b) == header_decode(hb));
}

/// The first parameter of `a + b` with a tag that `a` lacks comes from `b`.
pub proof fn lemma_find_tag_append(a: Seq<SpecParameter>, b: Seq<SpecParameter>, tag: u16)
    requires
        forall|i: int| 0 <= i < a.len() ==> #[trigger] a[i].tag != tag,
    ensures
        find_tag(a + b, tag) == find_tag(b, tag),
    decreases a.len(),
{
    if a.len() > 0 {
        assert((a + b).drop_first() =~= a.drop_first() + b);
        assert forall|i: int| 0 <= i < a.drop_first().len() implies #[trigger] a.drop_first()[i].tag
            != tag by {
            assert(a.drop_first()[i] == a[i + 1]);
        }
        lemma_find_tag_append(a.drop_first(), b, tag);
    } else {
        assert(a + b =~= b);
    }
}

/// The Protocol Data and Routing Context accessors of a DATA message give
/// back the payload and the routing context it was built with.
pub proof fn lemma_data_accessors(
    network_appearance: Option<u32>,
    routing_context: Option<u32>,
    pd: SpecProtocolData,
    correlation_id: Option<u32>,
)
    ensures
        ({
            let m = SpecMessage {
                message_type: MessageType::Data,
                parameters: data_parameters(network_appearance, routing_context, pd, correlation_id),
            };
            &&& message_protocol_data(m) == Ok::<SpecProtocolData, M3uaError>(pd)
            &&& message_routing_context(m) == routing_context
        }),
{
    let na = opt_u32_parameter(tags::NETWORK_APPEARANCE, network_appearance);
    let rc = opt_u32_parameter(tags::ROUTING_CONTEXT, routing_context);
    let pdp = seq![SpecParameter { tag: tags::PROTOCOL_DATA, value: protocol_data_bytes(pd) }];
    let ci = opt_u32_parameter(tags::CORRELATION_ID, correlation_id);
    let ps = data_parameters(network_appearance, routing_context, pd, correlation_id);
    assert(ps =~= (na + rc) + (pdp + ci));
    lemma_find_tag_append(na + rc, pdp + ci, tags::PROTOCOL_DATA);
    lemma_protocol_data_round_trip(pd);
    assert(ps =~= na + (rc + (pdp + ci)));
    lemma_find_tag_append(na, rc + (pdp + ci), tags::ROUTING_CONTEXT);
    if let Some(x) = routing_context {
        lemma_u32_round_trip(x);
    } else {
        assert(rc + (pdp + ci) =~= pdp + ci);
        lemma_find_tag_append(pdp + ci, Seq::empty(), tags::ROUTING_CONTEXT);
        assert(pdp + ci + Seq::<SpecParameter>::empty() =~= pdp + ci);
    }
}

/// The heartbeat data a BEAT or BEAT-ACK is built with is the value of its
/// Heartbeat Data parameter; without data the message has no such parameter.
pub proof fn lemma_heartbeat_data(data: Option<Seq<u8>>)
    ensures
        find_tag(opt_bytes_parameter(tags::HEARTBEAT_DATA, data), tags::HEARTBEAT_DATA) == (match data {
            Some(d) => Some(SpecParameter { tag: tags::HEARTBEAT_DATA, value: d }),
            None => None,
        }),
{
}

/// The affected point codes of a DUNA, DAVA or DAUD message are the point
/// codes it was built with, and its routing context is the one it was built with.
pub proof fn lemma_point_code_accessors(
    message_type: MessageType,
    routing_context: Option<u32>,
    pcs: Seq<u32>,
)
    ensures
        ({
            let m = SpecMessage {
                message_type,
                parameters: point_code_parameters(routing_context, pcs),
            };
            &&& message_point_codes(m) == pcs
            &&& message_routing_context(m) == routing_context
        }),
{
    let rc = opt_u32_parameter(tags::ROUTING_CONTEXT, routing_context);
    let apc = seq![SpecParameter { tag: tags::AFFECTED_POINT_CODE, value: point_codes_bytes(pcs) }];
    lemma_find_tag_append(rc, apc, tags::AFFECTED_POINT_CODE);
    assert(find_tag(apc, tags::AFFECTED_POINT_CODE) == Some(apc[0]));
    lemma_point_codes_round_trip(pcs);
    if let Some(x) = routing_context {
        lemma_u32_round_trip(x);
        assert((rc + apc)[0] == u32_parameter(tags::ROUTING_CONTEXT, x));
    } else {
        assert(rc + apc =~= apc);
        assert(apc.drop_first() =~= Seq::<SpecParameter>::empty());
        assert(find_tag(apc, tags::ROUTING_CONTEXT) == find_tag(apc.drop_first(), tags::ROUTING_CONTEXT));
    }
}

/// The number value of the first parameter with `tag`, if there is one and it
/// holds at least 4 octets.
pub open spec fn u32_field(ps: Seq<SpecParameter>, tag: u16) -> Option<u32> {
    match find_tag(ps, tag) {
        Some(p) => value_as_u32(p),
        None => None,
    }
}

/// The value octets of the first parameter with `tag`, if there is one.
pub open spec fn bytes_field(ps: Seq<SpecParameter>, tag: u16) -> Option<Seq<u8>> {
    match find_tag(ps, tag) {
        Some(p) => Some(p.value),
        None => None,
    }
}

/// The UTF-8 octets of an optional info string.
pub open spec fn info_bytes(info: Option<&str>) -> Option<Seq<u8>> {
    match info {
        Some(s) => Some(s.spec_bytes()),
        None => None,
    }
}

/// 1 when `o` is present, 0 otherwise.
pub open spec fn count<T>(o: Option<T>) -> nat {
    if o is Some {
        1
    } else {
        0
    }
}

/// The first parameter of `a + b` with a tag is the first in `a`, or, when `a`
/// has none, the first in `b`.
pub proof fn lemma_find_tag_concat(a: Seq<SpecParameter>, b: Seq<SpecParameter>, tag: u16)
    ensures
        find_tag(a + b, tag) == (match find_tag(a, tag) {
            Some(p) => Some(p),
            None => find_tag(b, tag),
        }),
    decreases a.len(),
{
    if a.len() > 0 {
        assert((a + b).drop_first() =~= a.drop_first() + b);
        assert((a + b)[0] == a[0]);
        if a[0].tag != tag {
            lemma_find_tag_concat(a.drop_first(), b, tag);
        }
    } else {
        assert(a + b =~= b);
    }
}

proof fn lemma_find_tag_small(p: SpecParameter, tag: u16)
    ensures
        find_tag(seq![p], tag) == (if p.tag == tag {
            Some(p)
        } else {
            None::<SpecParameter>
        }),
        find_tag(Seq::<SpecParameter>::empty(), tag) is None,
{
    assert(seq![p].drop_first() =~= Seq::<SpecParameter>::empty());
}

proof fn lemma_opt_u32_find(t: u16, v: Option<u32>, tag: u16)
    ensures
        find_tag(opt_u32_parameter(t, v), tag) == (if tag == t && v is Some {
            Some(u32_parameter(t, v->Some_0))
        } else {
            None::<SpecParameter>
        }),
        tag == t ==> u32_field(opt_u32_parameter(t, v), tag) == v,
        opt_u32_parameter(t, v).len() == count(v),
{
    if let Some(x) = v {
        lemma_u32_round_trip(x);
        lemma_find_tag_small(u32_parameter(t, x), tag);
    } else {
        lemma_find_tag_small(u32_parameter(t, 0), tag);
    }
}

proof fn lemma_opt_bytes_find(t: u16, v: Option<Seq<u8>>, tag: u16)
    ensures
        opt_bytes_parameter(t, v).len() == count(v),
        find_tag(opt_bytes_parameter(t, v), tag) == (if tag == t && v is Some {
            Some(SpecParameter { tag: t, value: v->Some_0 })
        } else {
            None::<SpecParameter>
        }),
{
    if let Some(x) = v {
        lemma_find_tag_small(SpecParameter { tag: t, value: x }, tag);
    } else {
        lemma_find_tag_small(SpecParameter { tag: t, value: Seq::empty() }, tag);
    }
}

proof fn lemma_opt_info_find(info: Option<&str>, tag: u16)
    ensures
        opt_info_parameter(info).len() == count(info),
        find_tag(opt_info_parameter(info), tag) == (if tag == tags::INFO_STRING && info is Some {
            Some(SpecParameter { tag: tags::INFO_STRING, value: info->Some_0.spec_bytes() })
        } else {
            None::<SpecParameter>
        }),
{
    if let Some(x) = info {
        lemma_find_tag_small(SpecParameter { tag: tags::INFO_STRING, value: x.spec_bytes() }, tag);
    } else {
        lemma_find_tag_small(SpecParameter { tag: tags::INFO_STRING, value: Seq::empty() }, tag);
    }
}

proof fn lemma_find_tag_concat3(
    a: Seq<SpecParameter>,
    b: Seq<SpecParameter>,
    c: Seq<SpecParameter>,
    tag: u16,
)
    ensures
        find_tag(a + b + c, tag) == (match find_tag(a, tag) {
            Some(p) => Some(p),
            None => match find_tag(b, tag) {
                Some(p) => Some(p),
                None => find_tag(c, tag),
            },
        }),
{
    lemma_find_tag_concat(a + b, c, tag);
    lemma_find_tag_concat(a, b, tag);
}

/// An ASP-UP carries its ASP Identifier as the ASP Identifier parameter and
/// its info string as the Info String parameter, and nothing else.
pub proof fn lemma_asp_up_fields(asp_id: Option<u32>, info: Option<&str>)
    ensures
        ({
            let ps = opt_u32_parameter(tags::ASP_IDENTIFIER, asp_id) + opt_info_parameter(info);
            &&& u32_field(ps, tags::ASP_IDENTIFIER) == asp_id
            &&& bytes_field(ps, tags::INFO_STRING) == info_bytes(info)
            &&& ps.len() == count(asp_id) + count(info)
        }),
{
    let a = opt_u32_parameter(tags::ASP_IDENTIFIER, asp_id);
    let b = opt_info_parameter(info);
    lemma_find_tag_concat(a, b, tags::ASP_IDENTIFIER);
    lemma_opt_u32_find(tags::ASP_IDENTIFIER, asp_id, tags::ASP_IDENTIFIER);
    lemma_opt_info_find(info, tags::ASP_IDENTIFIER);
    lemma_find_tag_concat(a, b, tags::INFO_STRING);
    lemma_opt_u32_find(tags::ASP_IDENTIFIER, asp_id, tags::INFO_STRING);
    lemma_opt_info_find(info, tags::INFO_STRING);
}

/// ASP-UP-ACK, ASP-DOWN and ASP-DOWN-ACK carry their info string as the Info
/// String parameter, and nothing else.
pub proof fn lemma_info_fields(info: Option<&str>)
    ensures
        bytes_field(opt_info_parameter(info), tags::INFO_STRING) == info_bytes(info),
        opt_info_parameter(info).len() == count(info),
{
    lemma_opt_info_find(info, tags::INFO_STRING);
}

/// ASP-ACTIVE and its acknowledgement carry the traffic mode as the Traffic
/// Mode Type parameter and the routing context as the Routing Context
/// parameter, and nothing else; ASP-INACTIVE and its acknowledgement carry
/// only the routing context.
pub proof fn lemma_traffic_fields(traffic_mode: Option<u32>, routing_context: Option<u32>)
    ensures
        ({
            let ps = opt_u32_parameter(tags::TRAFFIC_MODE_TYPE, traffic_mode) + opt_u32_parameter(
                tags::ROUTING_CONTEXT,
                routing_context,
            );
            &&& u32_field(ps, tags::TRAFFIC_MODE_TYPE) == traffic_mode
            &&& u32_field(ps, tags::ROUTING_CONTEXT) == routing_context
            &&& ps.len() == count(traffic_mode) + count(routing_context)
        }),
        u32_field(opt_u32_parameter(tags::ROUTING_CONTEXT, routing_context), tags::ROUTING_CONTEXT)
            == routing_context,
        opt_u32_parameter(tags::ROUTING_CONTEXT, routing_context).len() == count(routing_context),
{
    let a = opt_u32_parameter(tags::TRAFFIC_MODE_TYPE, traffic_mode);
    let b = opt_u32_parameter(tags::ROUTING_CONTEXT, routing_context);
    lemma_find_tag_concat(a, b, tags::TRAFFIC_MODE_TYPE);
    lemma_opt_u32_find(tags::TRAFFIC_MODE_TYPE, traffic_mode, tags::TRAFFIC_MODE_TYPE);
    lemma_opt_u32_find(tags::ROUTING_CONTEXT, routing_context, tags::TRAFFIC_MODE_TYPE);
    lemma_find_tag_concat(a, b, tags::ROUTING_CONTEXT);
    lemma_opt_u32_find(tags::TRAFFIC_MODE_TYPE, traffic_mode, tags::ROUTING_CONTEXT);
    lemma_opt_u32_find(tags::ROUTING_CONTEXT, routing_context, tags::ROUTING_CONTEXT);
}

/// BEAT and BEAT-ACK carry their data as the Heartbeat Data parameter, and
/// nothing else.
pub proof fn lemma_heartbeat_fields(data: Option<Seq<u8>>)
    ensures
        bytes_field(opt_bytes_parameter(tags::HEARTBEAT_DATA, data), tags::HEARTBEAT_DATA) == data,
        opt_bytes_parameter(tags::HEARTBEAT_DATA, data).len() == count(data),
{
    lemma_opt_bytes_find(tags::HEARTBEAT_DATA, data, tags::HEARTBEAT_DATA);
}

/// A DATA message carries the network appearance, routing context and
/// correlation id in their own parameters and the encoded payload as the
/// Protocol Data parameter, and nothing else.
pub proof fn lemma_data_fields(
    network_appearance: Option<u32>,
    routing_context: Option<u32>,
    pd: SpecProtocolData,
    correlation_id: Option<u32>,
)
    ensures
        ({
            let ps = data_parameters(network_appearance, routing_context, pd, correlation_id);
            &&& u32_field(ps, tags::NETWORK_APPEARANCE) == network_appearance
            &&& u32_field(ps, tags::ROUTING_CONTEXT) == routing_context
            &&& u32_field(ps, tags::CORRELATION_ID) == correlation_id
            &&& bytes_field(ps, tags::PROTOCOL_DATA) == Some(protocol_data_bytes(pd))
            &&& ps.len() == count(network_appearance) + count(routing_context) + 1 + count(
                correlation_id,
            )
        }),
{
    let na = opt_u32_parameter(tags::NETWORK_APPEARANCE, network_appearance);
    let rc = opt_u32_parameter(tags::ROUTING_CONTEXT, routing_context);
    let pdp = seq![SpecParameter { tag: tags::PROTOCOL_DATA, value: protocol_data_bytes(pd) }];
    let ci = opt_u32_parameter(tags::CORRELATION_ID, correlation_id);
    let ps = data_parameters(network_appearance, routing_context, pd, correlation_id);
    assert(ps == na + rc + pdp + ci);
    lemma_find_tag_concat3(na, rc, pdp, tags::NETWORK_APPEARANCE);
    lemma_find_tag_concat(na + rc + pdp, ci, tags::NETWORK_APPEARANCE);
    lemma_find_tag_concat3(na, rc, pdp, tags::ROUTING_CONTEXT);
    lemma_find_tag_concat(na + rc + pdp, ci, tags::ROUTING_CONTEXT);
    lemma_find_tag_concat3(na, rc, pdp, tags::CORRELATION_ID);
    lemma_find_tag_concat(na + rc + pdp, ci, tags::CORRELATION_ID);
    lemma_find_tag_concat3(na, rc, pdp, tags::PROTOCOL_DATA);
    lemma_find_tag_concat(na + rc + pdp, ci, tags::PROTOCOL_DATA);
    lemma_find_tag_small(
        SpecParameter { tag: tags::PROTOCOL_DATA, value: protocol_data_bytes(pd) },
        tags::NETWORK_APPEARANCE,
    );
    lemma_find_tag_small(
        SpecParameter { tag: tags::PROTOCOL_DATA, value: protocol_data_bytes(pd) },
        tags::ROUTING_CONTEXT,
    );
    lemma_opt_u32_find(tags::NETWORK_APPEARANCE, network_appearance, tags::NETWORK_APPEARANCE);
    lemma_opt_u32_find(tags::NETWORK_APPEARANCE, network_appearance, tags::ROUTING_CONTEXT);
    lemma_opt_u32_find(tags::NETWORK_APPEARANCE, network_appearance, tags::CORRELATION_ID);
    lemma_opt_u32_find(tags::NETWORK_APPEARANCE, network_appearance, tags::PROTOCOL_DATA);
    lemma_opt_u32_find(tags::ROUTING_CONTEXT, routing_context, tags::ROUTING_CONTEXT);
    lemma_opt_u32_find(tags::ROUTING_CONTEXT, routing_context, tags::CORRELATION_ID);
    lemma_opt_u32_find(tags::ROUTING_CONTEXT, routing_context, tags::PROTOCOL_DATA);
    lemma_opt_u32_find(tags::CORRELATION_ID, correlation_id, tags::CORRELATION_ID);
    lemma_opt_u32_find(tags::CORRELATION_ID, correlation_id, tags::PROTOCOL_DATA);
    lemma_opt_u32_find(tags::CORRELATION_ID, correlation_id, tags::NETWORK_APPEARANCE);
    lemma_opt_u32_find(tags::CORRELATION_ID, correlation_id, tags::ROUTING_CONTEXT);
    lemma_opt_u32_find(tags::ROUTING_CONTEXT, routing_context, tags::NETWORK_APPEARANCE);
    let pp = SpecParameter { tag: tags::PROTOCOL_DATA, value: protocol_data_bytes(pd) };
    lemma_find_tag_small(pp, tags::PROTOCOL_DATA);
    lemma_find_tag_small(pp, tags::CORRELATION_ID);
}

/// An ERR message carries the error code, routing context and diagnostic
/// information in their own parameters, and nothing else; a NTFY carries the
/// status, ASP Identifier and routing context in theirs.
pub proof fn lemma_management_fields(
    code: u32,
    asp_id: Option<u32>,
    routing_context: Option<u32>,
    diagnostic_info: Option<Seq<u8>>,
)
    ensures
        ({
            let ps = seq![u32_parameter(tags::ERROR_CODE, code)] + opt_u32_parameter(
                tags::ROUTING_CONTEXT,
                routing_context,
            ) + opt_bytes_parameter(tags::DIAGNOSTIC_INFO, diagnostic_info);
            &&& u32_field(ps, tags::ERROR_CODE) == Some(code)
            &&& u32_field(ps, tags::ROUTING_CONTEXT) == routing_context
            &&& bytes_field(ps, tags::DIAGNOSTIC_INFO) == diagnostic_info
            &&& ps.len() == 1 + count(routing_context) + count(diagnostic_info)
        }),
        ({
            let ps = seq![u32_parameter(tags::STATUS, code)] + opt_u32_parameter(
                tags::ASP_IDENTIFIER,
                asp_id,
            ) + opt_u32_parameter(tags::ROUTING_CONTEXT, routing_context);
            &&& u32_field(ps, tags::STATUS) == Some(code)
            &&& u32_field(ps, tags::ASP_IDENTIFIER) == asp_id
            &&& u32_field(ps, tags::ROUTING_CONTEXT) == routing_context
            &&& ps.len() == 1 + count(asp_id) + count(routing_context)
        }),
{
    lemma_u32_round_trip(code);
    lemma_find_tag_small(u32_parameter(tags::ERROR_CODE, code), tags::ERROR_CODE);
    lemma_find_tag_small(u32_parameter(tags::ERROR_CODE, code), tags::ROUTING_CONTEXT);
    lemma_find_tag_small(u32_parameter(tags::ERROR_CODE, code), tags::DIAGNOSTIC_INFO);
    lemma_find_tag_small(u32_parameter(tags::STATUS, code), tags::STATUS);
    lemma_find_tag_small(u32_parameter(tags::STATUS, code), tags::ASP_IDENTIFIER);
    lemma_find_tag_small(u32_parameter(tags::STATUS, code), tags::ROUTING_CONTEXT);
    let ec = seq![u32_parameter(tags::ERROR_CODE, code)];
    let rc = opt_u32_parameter(tags::ROUTING_CONTEXT, routing_context);
    let di = opt_bytes_parameter(tags::DIAGNOSTIC_INFO, diagnostic_info);
    lemma_find_tag_concat3(ec, rc, di, tags::ERROR_CODE);
    lemma_find_tag_concat3(ec, rc, di, tags::ROUTING_CONTEXT);
    lemma_find_tag_concat3(ec, rc, di, tags::DIAGNOSTIC_INFO);
    lemma_opt_u32_find(tags::ROUTING_CONTEXT, routing_context, tags::ROUTING_CONTEXT);
    lemma_opt_u32_find(tags::ROUTING_CONTEXT, routing_context, tags::DIAGNOSTIC_INFO);
    lemma_opt_bytes_find(tags::DIAGNOSTIC_INFO, diagnostic_info, tags::DIAGNOSTIC_INFO);
    let st = seq![u32_parameter(tags::STATUS, code)];
    let ai = opt_u32_parameter(tags::ASP_IDENTIFIER, asp_id);
    lemma_find_tag_concat3(st, ai, rc, tags::STATUS);
    lemma_find_tag_concat3(st, ai, rc, tags::ASP_IDENTIFIER);
    lemma_find_tag_concat3(st, ai, rc, tags::ROUTING_CONTEXT);
    lemma_opt_u32_find(tags::ASP_IDENTIFIER, asp_id, tags::ASP_IDENTIFIER);
    lemma_opt_u32_find(tags::ASP_IDENTIFIER, asp_id, tags::ROUTING_CONTEXT);
    lemma_opt_u32_find(tags::ASP_IDENTIFIER, asp_id, tags::STATUS);
    lemma_opt_u32_find(tags::ROUTING_CONTEXT, routing_context, tags::STATUS);
    lemma_opt_u32_find(tags::ROUTING_CONTEXT, routing_context, tags::ASP_IDENTIFIER);
    lemma_opt_u32_find(tags::ROUTING_CONTEXT, routing_context, tags::ERROR_CODE);
    lemma_opt_bytes_find(tags::DIAGNOSTIC_INFO, diagnostic_info, tags::ERROR_CODE);
    lemma_opt_bytes_find(tags::DIAGNOSTIC_INFO, diagnostic_info, tags::ROUTING_CONTEXT);
}

/// The wire layout of a message: the 8-octet header, whose length field holds
/// the total length, followed by the encoded parameters.
pub proof fn lemma_message_layout(m: SpecMessage)
    ensures
        message_bytes(m).subrange(0, 8) == header_bytes(
            CommonHeader {
                version: VERSION,
                message_type: m.message_type,
                message_length: (message_bytes(m).len() % 0x1_0000_0000) as u32,
            },
        ),
        message_bytes(m).subrange(8, message_bytes(m).len() as int) == parameters_bytes(
            m.parameters,
        ),
{
    let body = parameters_bytes(m.parameters);
    let h = CommonHeader {
        version: VERSION,
        message_type: m.message_type,
        message_length: ((8 + body.len()) % 0x1_0000_0000) as u32,
    };
    lemma_header_layout(h);
    assert(message_bytes(m).subrange(0, 8) =~= header_bytes(h));
    assert(message_bytes(m).subrange(8, message_bytes(m).len() as int) =~= body);
}

/// Decoding a message succeeds exactly when its header and then its run of
/// parameters (from octet 8) decode; a header error, or an error in any
/// parameter, is the error of the whole message.
pub proof fn lemma_message_decode_parts(b: Seq<u8>)
    ensures
        header_decode(b) is Err ==> message_decode(b) == Err::<SpecMessage, M3uaError>(
            header_decode(b)->Err_0,
        ),
        header_decode(b) is Ok && parameters_decode(b.subrange(8, b.len() as int)) is Err
            ==> message_decode(b) == Err::<SpecMessage, M3uaError>(
            parameters_decode(b.subrange(8, b.len() as int))->Err_0,
        ),
        message_decode(b) matches Ok(m) ==> header_decode(b) matches Ok(h) && m.message_type
            == h.message_type && parameters_decode(b.subrange(8, b.len() as int)) == Ok::<
            Seq<SpecParameter>,
            M3uaError,
        >(m.parameters),
{
}

/// What the accessors read: the Protocol Data accessor decodes the value of
/// the first Protocol Data parameter (tag 0x0210) and reports that tag as
/// missing when there is none; the Routing Context accessor reads the number
/// in the first Routing Context parameter (tag 0x0006); the point-code
/// accessor unpacks the first Affected Point Code parameter (tag 0x0012).
pub proof fn lemma_accessors_read_fields(m: SpecMessage)
    ensures
        bytes_field(m.parameters, 0x0210) is None ==> message_protocol_data(m) == Err::<
            SpecProtocolData,
            M3uaError,
        >(M3uaError::MissingParameter(0x0210)),
        bytes_field(m.parameters, 0x0210) matches Some(v) ==> message_protocol_data(m)
            == protocol_data_decode(v),
        message_routing_context(m) == u32_field(m.parameters, 0x0006),
        message_point_codes(m) == (match bytes_field(m.parameters, 0x0012) {
            Some(v) => point_codes_of(v),
            None => Seq::<u32>::empty(),
        }),
{
}

/// Unpacking reads one point code per full group of 4 octets, the i-th from
/// octets `4i` to `4i + 3`, most significant first.
pub proof fn lemma_point_codes_of_layout(b: Seq<u8>)
    ensures
        point_codes_of(b).len() == b.len() / 4,
        forall|i: int|
            0 <= i < b.len() / 4 ==> #[trigger] point_codes_of(b)[i] == b[4 * i] * 0x100_0000 + b[4
                * i + 1] * 0x1_0000 + b[4 * i + 2] * 256 + b[4 * i + 3],
{
    assert forall|i: int| 0 <= i < b.len() / 4 implies #[trigger] point_codes_of(b)[i] == b[4 * i]
        * 0x100_0000 + b[4 * i + 1] * 0x1_0000 + b[4 * i + 2] * 256 + b[4 * i + 3] by {
        assert(4 * i + 4 <= b.len()) by (nonlinear_arith)
            requires
                0 <= i < b.len() / 4,
        ;
        let w = b.subrange(4 * i, 4 * i + 4);
        lemma_be_read_layout(0, 0, w);
    }
}

/// The parameters of the builders, in wire order: an optional parameter is
/// one parameter when present and none otherwise, a DATA message carries
/// Network Appearance, Routing Context, Protocol Data and Correlation Id in
/// that order, and an SSNM message Routing Context then Affected Point Code.
pub proof fn lemma_builder_parameter_order(
    t: u16,
    x: u32,
    d: Seq<u8>,
    na: u32,
    rc: u32,
    pd: SpecProtocolData,
    ci: u32,
    pcs: Seq<u32>,
)
    ensures
        opt_u32_parameter(t, Some(x)) == seq![SpecParameter { tag: t, value: u32_be(x) }],
        opt_u32_parameter(t, None) == Seq::<SpecParameter>::empty(),
        opt_bytes_parameter(t, Some(d)) == seq![SpecParameter { tag: t, value: d }],
        opt_bytes_parameter(t, None) == Seq::<SpecParameter>::empty(),
        opt_info_parameter(None) == Seq::<SpecParameter>::empty(),
        data_parameters(Some(na), Some(rc), pd, Some(ci)) == seq![
            SpecParameter { tag: 0x0200, value: u32_be(na) },
            SpecParameter { tag: 0x0006, value: u32_be(rc) },
            SpecParameter { tag: 0x0210, value: protocol_data_bytes(pd) },
            SpecParameter { tag: 0x0013, value: u32_be(ci) },
        ],
        point_code_parameters(Some(rc), pcs) == seq![
            SpecParameter { tag: 0x0006, value: u32_be(rc) },
            SpecParameter { tag: 0x0012, value: point_codes_bytes(pcs) },
        ],
{
    assert(data_parameters(Some(na), Some(rc), pd, Some(ci)) =~= seq![
        SpecParameter { tag: 0x0200, value: u32_be(na) },
        SpecParameter { tag: 0x0006, value: u32_be(rc) },
        SpecParameter { tag: 0x0210, value: protocol_data_bytes(pd) },
        SpecParameter { tag: 0x0013, value: u32_be(ci) },
    ]);
    assert(point_code_parameters(Some(rc), pcs) =~= seq![
        SpecParameter { tag: 0x0006, value: u32_be(rc) },
        SpecParameter { tag: 0x0012, value: point_codes_bytes(pcs) },
    ]);
}

/// The formats of the descriptions: each names its fields and gives numbers
/// in decimal and tags as four lowercase hexadecimal digits after `0x`.
pub proof fn lemma_description_formats(
    h: CommonHeader,
    p: SpecParameter,
    pd: SpecProtocolData,
    m: SpecMessage,
    e: M3uaError,
)
    ensures
        header_text(h) == "M3UA Header [version="@ + decimal(h.version as nat) + ", type="@
            + h.message_type.spec_name() + ", length="@ + decimal(h.message_length as nat) + "]"@,
        parameter_text(p) == "Parameter [tag=0x"@ + hex4(p.tag) + " ("@ + tag_name(p.tag)
            + "), len="@ + decimal(p.value.len()) + "]"@,
        protocol_data_text(pd) == "ProtocolData [opc="@ + decimal(pd.opc as nat) + ", dpc="@
            + decimal(pd.dpc as nat) + ", si="@ + decimal(pd.si as nat) + ", ni="@ + decimal(
            pd.ni as nat,
        ) + ", mp="@ + decimal(pd.mp as nat) + ", sls="@ + decimal(pd.sls as nat)
            + ", data_len="@ + decimal(pd.user_data.len()) + "]"@,
        message_text(m) == "M3UA "@ + m.message_type.spec_name() + " ["@ + decimal(
            m.parameters.len(),
        ) + " parameters]"@,
        tag_name(0x0006) == "Routing Context"@,
        tag_name(0x0210) == "Protocol Data"@,
        tag_name(0x0004) == "Info String"@,
        tag_name(0x0009) == "Heartbeat Data"@,
        tag_name(0x1234) == "Unknown"@,
        e matches M3uaError::TooShort { expected, actual } ==> error_text(e)
            == "message too short: expected at least "@ + decimal(expected as nat)
            + " bytes, got "@ + decimal(actual as nat),
        e matches M3uaError::InvalidParameter { tag, length } ==> error_text(e)
            == "invalid parameter: tag=0x"@ + hex4(tag) + ", length="@ + decimal(length as nat),
        e matches M3uaError::MissingParameter(tag) ==> error_text(e)
            == "missing required parameter: tag=0x"@ + hex4(tag),
{
}

} // verus!
