//! TLV (tag-length-value) parameters (RFC 4666 section 3.2).
//!
//! On the wire a parameter is a 16-bit tag, a 16-bit length that counts the
//! 4-octet tag+length header, and the value, padded with zero octets to a
//! 4-octet boundary.
use vstd::prelude::*;
use vstd::string::StringExecFns;

use crate::error::M3uaError;
use crate::text::{decimal, hex4, push_decimal, push_hex4};
use crate::wire::{
    append_bytes, be_u16, be_u32, copy_range, lemma_be_read_layout, lemma_be_u16_octets,
    lemma_u16_be_layout, lemma_u16_round_trip,
    lemma_u32_round_trip, push_u16_be, push_u32_be, push_zeros, read_u16_be, read_u32_be, u16_be,
    u32_be, zeros,
};

pub mod tags;

verus! {

/// The abstract value of a parameter: its tag and its unpadded value octets.
pub struct SpecParameter {
    pub tag: u16,
    pub value: Seq<u8>,
}

/// A TLV (Tag-Length-Value) parameter.
#[derive(Debug, Clone, PartialEq, Eq)]
pub struct Parameter {
    /// The parameter tag (see the [`tags`] module for well-known values).
    pub tag: u16,
    /// The parameter value, unpadded (padding is applied only on the wire).
    pub value: Vec<u8>,
}

impl View for Parameter {
    type V = SpecParameter;

    open spec fn view(&self) -> SpecParameter {
        SpecParameter { tag: self.tag, value: self.value@ }
    }
}

impl DeepView for Parameter {
    type V = SpecParameter;

    open spec fn deep_view(&self) -> SpecParameter {
        self@
    }
}

/// `n` rounded up to a multiple of 4.
pub open spec fn padded_len(n: int) -> int {
    (n + 3) / 4 * 4
}

/// The number of zero octets that pad a value of `n` octets to a 4-octet boundary.
pub open spec fn pad_len(n: nat) -> nat {
    ((4 - n % 4) % 4) as nat
}

/// The length field written for a value of `n` octets: the value plus the
/// 4-octet header, reduced to the 16 bits that the field holds.
pub open spec fn length_field(n: nat) -> u16 {
    ((4 + n) % 0x1_0000) as u16
}

/// The wire form of a parameter: tag, length, value and zero padding.
pub open spec fn parameter_bytes(p: SpecParameter) -> Seq<u8> {
    u16_be(p.tag) + u16_be(length_field(p.value.len())) + p.value + zeros(pad_len(p.value.len()))
}

/// What decoding one parameter from the front of `b` yields: the parameter and
/// the number of octets it takes up, padding included as far as `b` holds it.
pub open spec fn parameter_decode(b: Seq<u8>) -> Result<(SpecParameter, nat), M3uaError> {
    if b.len() < 4 {
        Err(M3uaError::TooShort { expected: 4, actual: b.len() as usize })
    } else {
        let tag = be_u16(b[0], b[1]);
        let length = be_u16(b[2], b[3]);
        if length < 4 {
            Err(M3uaError::InvalidParameter { tag, length })
        } else if b.len() < length {
            Err(
                M3uaError::ParameterTooShort {
                    tag,
                    expected: length as usize,
                    actual: b.len() as usize,
                },
            )
        } else {
            let consumed = if padded_len(length as int) < b.len() {
                padded_len(length as int)
            } else {
                b.len() as int
            };
            Ok((SpecParameter { tag, value: b.subrange(4, length as int) }, consumed as nat))
        }
    }
}

/// A parameter that decodes takes up at least its 4-octet header and no more
/// than the buffer.
pub proof fn lemma_parameter_decode_consumes(b: Seq<u8>)
    ensures
        parameter_decode(b) matches Ok((p, n)) ==> 4 <= n <= b.len(),
{
}

/// What decoding one parameter accepts and yields: at least 4 octets whose
/// length field `L` (octets 2-3, big-endian) is at least 4 and at most the
/// buffer length; the tag is octets 0-1, the value octets 4 to `L`, and the
/// octets consumed are `L` rounded up to a multiple of 4, or the whole buffer
/// when it ends before that.
pub proof fn lemma_parameter_decode_accepts(b: Seq<u8>)
    ensures
        b.len() < 4 ==> parameter_decode(b) == Err::<(SpecParameter, nat), M3uaError>(
            M3uaError::TooShort { expected: 4, actual: b.len() as usize },
        ),
        b.len() >= 4 ==> (parameter_decode(b) is Ok <==> 4 <= b[2] * 256 + b[3] <= b.len()),
        b.len() >= 4 && b[2] * 256 + b[3] < 4 ==> parameter_decode(b) == Err::<
            (SpecParameter, nat),
            M3uaError,
        >(
            M3uaError::InvalidParameter {
                tag: (b[0] * 256 + b[1]) as u16,
                length: (b[2] * 256 + b[3]) as u16,
            },
        ),
        b.len() >= 4 && 4 <= b[2] * 256 + b[3] && b.len() < b[2] * 256 + b[3] ==> parameter_decode(
            b,
        ) == Err::<(SpecParameter, nat), M3uaError>(
            M3uaError::ParameterTooShort {
                tag: (b[0] * 256 + b[1]) as u16,
                expected: (b[2] * 256 + b[3]) as usize,
                actual: b.len() as usize,
            },
        ),
        parameter_decode(b) matches Ok((p, n)) ==> {
            &&& p.tag == b[0] * 256 + b[1]
            &&& p.value == b.subrange(4, b[2] * 256 + b[3])
            &&& 4 + p.value.len() <= n <= b.len()
            &&& n < 4 + p.value.len() + 4
            &&& (n % 4 == 0 || n == b.len())
        },
{
    if b.len() >= 4 {
        lemma_be_read_layout(b[0], b[1], b.subrange(0, 4));
        lemma_be_read_layout(b[2], b[3], b.subrange(0, 4));
    }
}

/// What decoding a run of parameters yields. Fewer than 4 octets left over at
/// the end are ignored.
pub open spec fn parameters_decode(b: Seq<u8>) -> Result<Seq<SpecParameter>, M3uaError>
    decreases b.len(),
{
    if b.len() < 4 {
        Ok(Seq::empty())
    } else {
        match parameter_decode(b) {
            Ok((p, n)) => {
                proof {
                    lemma_parameter_decode_consumes(b);
                }
                match parameters_decode(b.subrange(n as int, b.len() as int)) {
                    Ok(rest) => Ok(seq![p] + rest),
                    Err(e) => Err(e),
                }
            },
            Err(e) => Err(e),
        }
    }
}

/// The wire form of a run of parameters, one after another.
pub open spec fn parameters_bytes(ps: Seq<SpecParameter>) -> Seq<u8>
    decreases ps.len(),
{
    if ps.len() == 0 {
        Seq::empty()
    } else {
        parameter_bytes(ps[0]) + parameters_bytes(ps.drop_first())
    }
}

/// The first parameter in `ps` that carries `tag`, if any.
pub open spec fn find_tag(ps: Seq<SpecParameter>, tag: u16) -> Option<SpecParameter>
    decreases ps.len(),
{
    if ps.len() == 0 {
        None
    } else if ps[0].tag == tag {
        Some(ps[0])
    } else {
        find_tag(ps.drop_first(), tag)
    }
}

/// The value of a parameter read as a 32-bit number, when it holds at least 4 octets.
pub open spec fn value_as_u32(p: SpecParameter) -> Option<u32> {
    if p.value.len() >= 4 {
        Some(be_u32(p.value))
    } else {
        None
    }
}

/// The name of a well-known tag, or `Unknown`.
pub open spec fn tag_name(tag: u16) -> Seq<char> {
    if tag == tags::INFO_STRING { "Info String"@ }
    else if tag == tags::ROUTING_CONTEXT { "Routing Context"@ }
    else if tag == tags::DIAGNOSTIC_INFO { "Diagnostic Info"@ }
    else if tag == tags::HEARTBEAT_DATA { "Heartbeat Data"@ }
    else if tag == tags::TRAFFIC_MODE_TYPE { "Traffic Mode Type"@ }
    else if tag == tags::ERROR_CODE { "Error Code"@ }
    else if tag == tags::STATUS { "Status"@ }
    else if tag == tags::ASP_IDENTIFIER { "ASP Identifier"@ }
    else if tag == tags::AFFECTED_POINT_CODE { "Affected Point Code"@ }
    else if tag == tags::CORRELATION_ID { "Correlation ID"@ }
    else if tag == tags::NETWORK_APPEARANCE { "Network Appearance"@ }
    else if tag == tags::PROTOCOL_DATA { "Protocol Data"@ }
    else { "Unknown"@ }
}

/// The text describing a parameter, such as `Parameter [tag=0x0006 (Routing Context), len=4]`.
pub open spec fn parameter_text(p: SpecParameter) -> Seq<char> {
    "Parameter [tag=0x"@ + hex4(p.tag) + " ("@ + tag_name(p.tag) + "), len="@ + decimal(
        p.value.len(),
    ) + "]"@
}

impl Parameter {
    /// Build a parameter from a tag and its (unpadded) value bytes.
    pub fn new(tag: u16, value: Vec<u8>) -> (p: Self)
        ensures
            p.tag == tag,
            p.value == value,
    {
        Parameter { tag, value }
    }

    /// Create a parameter with a 4-byte u32 value.
    pub fn from_u32(tag: u16, value: u32) -> (p: Self)
        ensures
            p@ == (SpecParameter { tag, value: u32_be(value) }),
    {
        let mut v: Vec<u8> = Vec::new();
        push_u32_be(&mut v, value);
        assert(v@ =~= u32_be(value));
        Parameter { tag, value: v }
    }

    /// Read the value as a u32 (for 4-byte parameters).
    pub fn as_u32(&self) -> (r: Option<u32>)
        ensures
            r == value_as_u32(self@),
    {
        if self.value.len() >= 4 {
            let r = read_u32_be(self.value.as_slice(), 0);
            assert(self.value@.subrange(0, 4)[0] == self.value@[0]);
            assert(self.value@.subrange(0, 4)[1] == self.value@[1]);
            assert(self.value@.subrange(0, 4)[2] == self.value@[2]);
            assert(self.value@.subrange(0, 4)[3] == self.value@[3]);
            Some(r)
        } else {
            None
        }
    }

    /// Decode a single parameter from bytes, returning the parameter and bytes consumed.
    pub fn decode(bytes: &[u8]) -> (r: Result<(Self, usize), M3uaError>)
        ensures
            match r {
                Ok((p, n)) => parameter_decode(bytes@) == Ok::<(SpecParameter, nat), M3uaError>(
                    (p@, n as nat),
                ),
                Err(e) => parameter_decode(bytes@) == Err::<(SpecParameter, nat), M3uaError>(e),
            },
    {
        if bytes.len() < 4 {
            return Err(M3uaError::TooShort { expected: 4, actual: bytes.len() });
        }
        let tag = read_u16_be(bytes, 0);
        let length = read_u16_be(bytes, 2);
        if (length as usize) < 4 {
            return Err(M3uaError::InvalidParameter { tag, length });
        }
        let value_len = (length as usize) - 4;
        if bytes.len() < 4 + value_len {
            return Err(
                M3uaError::ParameterTooShort { tag, expected: 4 + value_len, actual: bytes.len() },
            );
        }
        let value = copy_range(bytes, 4, 4 + value_len);
        let padded = (4 + value_len + 3) / 4 * 4;
        let consumed = if padded < bytes.len() {
            padded
        } else {
            bytes.len()
        };
        Ok((Parameter { tag, value }, consumed))
    }

    /// Encode to bytes with padding.
    pub fn encode(&self) -> (r: Vec<u8>)
        ensures
            r@ == parameter_bytes(self@),
    {
        let n = self.value.len();
        let length = ((n % 0x1_0000) as u16).wrapping_add(4);
        assert(length == length_field(n as nat));
        let mut buf: Vec<u8> = Vec::new();
        push_u16_be(&mut buf, self.tag);
        push_u16_be(&mut buf, length);
        append_bytes(&mut buf, self.value.as_slice());
        let pad = (4 - n % 4) % 4;
        push_zeros(&mut buf, pad);
        assert(buf@ =~= parameter_bytes(self@));
        buf
    }

    /// The wire length of this parameter (including padding).
    pub fn wire_length(&self) -> (r: usize)
        requires
            self.value@.len() + 7 <= usize::MAX,
        ensures
            r == padded_len(4 + self.value@.len() as int),
            r == parameter_bytes(self@).len(),
    {
        proof {
            lemma_parameter_bytes_len(self@);
        }
        (4 + self.value.len() + 3) / 4 * 4
    }

    /// The human-readable description of the parameter.
    pub fn to_string(&self) -> (s: String)
        ensures
            s@ == parameter_text(self@),
    {
        let mut s = String::from_str("Parameter [tag=0x");
        push_hex4(&mut s, self.tag);
        s.append(" (");
        let t = self.tag;
        if t == tags::INFO_STRING {
            s.append("Info String");
        } else if t == tags::ROUTING_CONTEXT {
            s.append("Routing Context");
        } else if t == tags::DIAGNOSTIC_INFO {
            s.append("Diagnostic Info");
        } else if t == tags::HEARTBEAT_DATA {
            s.append("Heartbeat Data");
        } else if t == tags::TRAFFIC_MODE_TYPE {
            s.append("Traffic Mode Type");
        } else if t == tags::ERROR_CODE {
            s.append("Error Code");
        } else if t == tags::STATUS {
            s.append("Status");
        } else if t == tags::ASP_IDENTIFIER {
            s.append("ASP Identifier");
        } else if t == tags::AFFECTED_POINT_CODE {
            s.append("Affected Point Code");
        } else if t == tags::CORRELATION_ID {
            s.append("Correlation ID");
        } else if t == tags::NETWORK_APPEARANCE {
            s.append("Network Appearance");
        } else if t == tags::PROTOCOL_DATA {
            s.append("Protocol Data");
        } else {
            s.append("Unknown");
        }
        s.append("), len=");
        push_decimal(&mut s, self.value.len() as u64);
        s.append("]");
        s
    }
}

/// The wire form of a parameter is its header, value and padding: a multiple
/// of 4 octets, the value length plus 4 rounded up.
pub proof fn lemma_parameter_bytes_len(p: SpecParameter)
    ensures
        parameter_bytes(p).len() == padded_len(4 + p.value.len() as int),
        parameter_bytes(p).len() % 4 == 0,
{
    let n = p.value.len() as int;
    let k = 4 + n + (4 - n % 4) % 4;
    assert(k == (4 + n + 3) / 4 * 4 && k % 4 == 0) by (nonlinear_arith)
        requires
            n >= 0,
            k == 4 + n + (4 - n % 4) % 4,
    ;
    assert(parameter_bytes(p).len() == 4 + n + pad_len(p.value.len()));
}

/// Decoding the wire form of a parameter whose value fits the 16-bit length
/// field gives the parameter back, with its whole wire length consumed.
pub proof fn lemma_parameter_round_trip(p: SpecParameter, rest: Seq<u8>)
    requires
        p.value.len() + 4 <= 0xFFFF,
    ensures
        parameter_decode(parameter_bytes(p) + rest) == Ok::<(SpecParameter, nat), M3uaError>(
            (p, parameter_bytes(p).len()),
        ),
{
    let b = parameter_bytes(p) + rest;
    let n = p.value.len();
    lemma_parameter_bytes_len(p);
    lemma_u16_round_trip(p.tag);
    lemma_u16_round_trip(length_field(n));
    assert(length_field(n) == 4 + n);
    assert(b.subrange(4, 4 + n as int) =~= p.value);
    assert(padded_len(4 + n as int) == parameter_bytes(p).len());
}

/// Decode all parameters from a byte slice.
#[verifier::spinoff_prover]
pub fn decode_parameters(bytes: &[u8]) -> (r: Result<Vec<Parameter>, M3uaError>)
    ensures
        match r {
            Ok(ps) => parameters_decode(bytes@) == Ok::<Seq<SpecParameter>, M3uaError>(
                ps.deep_view(),
            ),
            Err(e) => parameters_decode(bytes@) == Err::<Seq<SpecParameter>, M3uaError>(e),
        },
{
    let mut params: Vec<Parameter> = Vec::new();
    let mut offset: usize = 0;
    assert(bytes@.subrange(0, bytes@.len() as int) =~= bytes@);
    while offset < bytes.len()
        invariant
            offset <= bytes@.len(),
            parameters_decode(bytes@) == (match parameters_decode(
                bytes@.subrange(offset as int, bytes@.len() as int),
            ) {
                Ok(rest) => Ok(params.deep_view() + rest),
                Err(e) => Err(e),
            }),
        decreases bytes@.len() - offset,
    {
        let ghost tail = bytes@.subrange(offset as int, bytes@.len() as int);
        if bytes.len() - offset < 4 {
            assert(params.deep_view() + Seq::<SpecParameter>::empty() =~= params.deep_view());
            return Ok(params);
        }
        let rest_bytes = vstd::slice::slice_subrange(bytes, offset, bytes.len());
        let (param, consumed) = match Parameter::decode(rest_bytes) {
            Ok(pc) => pc,
            Err(e) => {
                return Err(e);
            },
        };
        proof {
            lemma_parameter_decode_consumes(tail);
        }
        let ghost before = params.deep_view();
        params.push(param);
        assert(params.deep_view() =~= before.push(param@));
        assert(tail.subrange(consumed as int, tail.len() as int) =~= bytes@.subrange(
            offset + consumed,
            bytes@.len() as int,
        ));
        offset = offset + consumed;
        proof {
            match parameters_decode(bytes@.subrange(offset as int, bytes@.len() as int)) {
                Ok(rest) => {
                    assert(before + (seq![param@] + rest) =~= params.deep_view() + rest);
                },
                Err(e) => {},
            }
        }
    }
    assert(params.deep_view() + Seq::<SpecParameter>::empty() =~= params.deep_view());
    Ok(params)
}

/// Find a parameter by tag in a list.
pub fn find_parameter(params: &[Parameter], tag: u16) -> (r: Option<&Parameter>)
    ensures
        match r {
            Some(p) => find_tag(params.deep_view(), tag) == Some(p@),
            None => find_tag(params.deep_view(), tag) is None,
        },
{
    let mut i: usize = 0;
    assert(params.deep_view().subrange(0, params@.len() as int) =~= params.deep_view());
    while i < params.len()
        invariant
            i <= params@.len(),
            find_tag(params.deep_view(), tag) == find_tag(
                params.deep_view().subrange(i as int, params@.len() as int),
                tag,
            ),
        decreases params@.len() - i,
    {
        let ghost rest = params.deep_view().subrange(i as int, params@.len() as int);
        assert(rest[0] == params[i as int]@);
        if params[i].tag == tag {
            return Some(&params[i]);
        }
        assert(rest.drop_first() =~= params.deep_view().subrange(i + 1, params@.len() as int));
        i = i + 1;
    }
    None
}

/// Encode a list of parameters to bytes.
pub fn encode_parameters(params: &[Parameter]) -> (r: Vec<u8>)
    ensures
        r@ == parameters_bytes(params.deep_view()),
{
    let mut buf: Vec<u8> = Vec::new();
    let mut i: usize = 0;
    while i < params.len()
        invariant
            i <= params@.len(),
            buf@ == parameters_bytes(params.deep_view().subrange(0, i as int)),
        decreases params@.len() - i,
    {
        let enc = params[i].encode();
        proof {
            lemma_parameters_bytes_push(params.deep_view().subrange(0, i as int), params[i as int]@);
            assert(params.deep_view().subrange(0, i as int).push(params[i as int]@)
                =~= params.deep_view().subrange(0, i + 1));
        }
        append_bytes(&mut buf, enc.as_slice());
        i = i + 1;
    }
    assert(params.deep_view().subrange(0, params@.len() as int) =~= params.deep_view());
    buf
}

/// Appending a parameter to a run appends its wire form.
pub proof fn lemma_parameters_bytes_push(ps: Seq<SpecParameter>, p: SpecParameter)
    ensures
        parameters_bytes(ps.push(p)) == parameters_bytes(ps) + parameter_bytes(p),
    decreases ps.len(),
{
    if ps.len() == 0 {
        let empty = Seq::<SpecParameter>::empty();
        assert(ps.push(p).drop_first() =~= empty);
        assert(parameters_bytes(empty) == Seq::<u8>::empty());
        assert(parameters_bytes(ps.push(p)) =~= parameter_bytes(p) + parameters_bytes(empty));
        assert(parameters_bytes(ps.push(p)) =~= parameter_bytes(p));
    } else {
        lemma_parameters_bytes_push(ps.drop_first(), p);
        assert(ps.push(p).drop_first() =~= ps.drop_first().push(p));
        assert(parameters_bytes(ps.push(p)) =~= parameters_bytes(ps) + parameter_bytes(p));
    }
}

/// One step of decoding a run: a parameter that decodes is followed by the rest
/// of the run.
pub proof fn lemma_parameters_decode_step(b: Seq<u8>, p: SpecParameter, n: nat)
    requires
        b.len() >= 4,
        parameter_decode(b) == Ok::<(SpecParameter, nat), M3uaError>((p, n)),
    ensures
        parameters_decode(b) == (match parameters_decode(b.subrange(n as int, b.len() as int)) {
            Ok(rest) => Ok(seq![p] + rest),
            Err(e) => Err(e),
        }),
{
}

/// Decoding a parameter's wire form followed by more octets gives the
/// parameter followed by what those octets decode to.
#[verifier::spinoff_prover]
proof fn lemma_parameters_decode_cons(p: SpecParameter, rest: Seq<u8>)
    requires
        p.value.len() + 4 <= 0xFFFF,
    ensures
        parameters_decode(parameter_bytes(p) + rest) == (match parameters_decode(rest) {
            Ok(ps) => Ok(seq![p] + ps),
            Err(e) => Err(e),
        }),
{
    let b = parameter_bytes(p) + rest;
    lemma_parameter_round_trip(p, rest);
    lemma_parameter_bytes_len(p);
    let n = parameter_bytes(p).len();
    lemma_parameters_decode_step(b, p, n);
    assert(b.subrange(n as int, b.len() as int) =~= rest);
}

/// Decoding a run of well-formed parameters followed by any octets gives those
/// parameters followed by what the octets decode to: each parameter is read in
/// order, and an error after them is the error of the whole run.
#[verifier::spinoff_prover]
pub proof fn lemma_parameters_decode_concat(ps: Seq<SpecParameter>, tail: Seq<u8>)
    requires
        forall|i: int| 0 <= i < ps.len() ==> #[trigger] ps[i].value.len() + 4 <= 0xFFFF,
    ensures
        parameters_decode(parameters_bytes(ps) + tail) == (match parameters_decode(tail) {
            Ok(rest) => Ok(ps + rest),
            Err(e) => Err(e),
        }),
    decreases ps.len(),
{
    if ps.len() == 0 {
        assert(parameters_bytes(ps) + tail =~= tail);
        if let Ok(rest) = parameters_decode(tail) {
            assert(ps + rest =~= rest);
        }
    } else {
        let rest = ps.drop_first();
        assert forall|i: int| 0 <= i < rest.len() implies #[trigger] rest[i].value.len() + 4
            <= 0xFFFF by {
            assert(rest[i] == ps[i + 1]);
        }
        lemma_parameters_decode_concat(rest, tail);
        assert(ps[0].value.len() + 4 <= 0xFFFF);
        lemma_parameters_decode_cons(ps[0], parameters_bytes(rest) + tail);
        assert(parameters_bytes(ps) + tail =~= parameter_bytes(ps[0]) + (parameters_bytes(rest)
            + tail));
        if let Ok(r) = parameters_decode(tail) {
            assert(seq![ps[0]] + (rest + r) =~= ps + r);
        }
    }
}

/// Decoding the wire form of a run of parameters gives the run back, when each
/// value fits the 16-bit length field; fewer than 4 stray octets after the run
/// are ignored.
pub proof fn lemma_parameters_round_trip(ps: Seq<SpecParameter>, tail: Seq<u8>)
    requires
        forall|i: int| 0 <= i < ps.len() ==> #[trigger] ps[i].value.len() + 4 <= 0xFFFF,
        tail.len() < 4,
    ensures
        parameters_decode(parameters_bytes(ps) + tail) == Ok::<Seq<SpecParameter>, M3uaError>(ps),
{
    lemma_parameters_decode_concat(ps, tail);
    assert(ps + Seq::<SpecParameter>::empty() =~= ps);
}

/// A run of parameters fails to decode whenever a parameter in it fails: when
/// at least 4 octets remain and the next parameter does not decode, its error
/// is the error of the whole run. Only fewer than 4 trailing octets are ever
/// skipped, and a run of well-formed parameters before the failing one does
/// not hide the error.
pub proof fn lemma_parameters_decode_errors(ps: Seq<SpecParameter>, b: Seq<u8>)
    requires
        forall|i: int| 0 <= i < ps.len() ==> #[trigger] ps[i].value.len() + 4 <= 0xFFFF,
    ensures
        b.len() < 4 ==> parameters_decode(b) == Ok::<Seq<SpecParameter>, M3uaError>(
            Seq::empty(),
        ),
        b.len() >= 4 && parameter_decode(b) is Err ==> parameters_decode(b)
            == Err::<Seq<SpecParameter>, M3uaError>(parameter_decode(b)->Err_0),
        b.len() >= 4 && parameter_decode(b) is Err ==> parameters_decode(parameters_bytes(ps) + b)
            == Err::<Seq<SpecParameter>, M3uaError>(parameter_decode(b)->Err_0),
{
    lemma_parameters_decode_concat(ps, b);
}

/// Encoding an empty run gives no octets, and appending a parameter to a run
/// appends its wire form: parameters go on the wire in order.
pub proof fn lemma_parameters_bytes_order(ps: Seq<SpecParameter>, p: SpecParameter)
    ensures
        parameters_bytes(Seq::empty()) == Seq::<u8>::empty(),
        parameters_bytes(ps.push(p)) == parameters_bytes(ps) + parameter_bytes(p),
{
    lemma_parameters_bytes_push(ps, p);
}

/// The wire layout of a parameter: the tag (big-endian), the length field
/// holding 4 plus the value length (in its 16 bits), the value, then zero
/// octets up to the next multiple of 4.
pub proof fn lemma_parameter_layout(p: SpecParameter)
    ensures
        ({
            let b = parameter_bytes(p);
            let n = p.value.len();
            &&& 4 + n <= b.len() < 4 + n + 4
            &&& b.len() % 4 == 0
            &&& b[0] * 256 + b[1] == p.tag
            &&& b[2] * 256 + b[3] == (4 + n) % 0x1_0000
            &&& b.subrange(4, 4 + n as int) == p.value
            &&& forall|i: int| 4 + n <= i < b.len() ==> b[i] == 0
        }),
{
    let b = parameter_bytes(p);
    let n = p.value.len();
    lemma_parameter_bytes_len(p);
    lemma_u16_be_layout(p.tag);
    lemma_u16_be_layout(length_field(n));
    assert(b.subrange(4, 4 + n as int) =~= p.value);
    assert forall|i: int| 4 + n <= i < b.len() implies b[i] == 0 by {
        assert(b[i] == zeros(pad_len(n))[i - 4 - n]);
    }
}

/// `find_tag` gives the first parameter with the tag, and nothing exactly when
/// no parameter has it.
pub proof fn lemma_find_tag_first(ps: Seq<SpecParameter>, tag: u16)
    ensures
        find_tag(ps, tag) is None <==> forall|i: int| 0 <= i < ps.len() ==> ps[i].tag != tag,
        find_tag(ps, tag) matches Some(p) ==> exists|i: int|
            0 <= i < ps.len() && ps[i] == p && p.tag == tag && forall|j: int|
                0 <= j < i ==> ps[j].tag != tag,
    decreases ps.len(),
{
    if ps.len() > 0 {
        let rest = ps.drop_first();
        lemma_find_tag_first(rest, tag);
        if ps[0].tag == tag {
            assert(ps[0] == ps[0]);
        } else {
            assert forall|i: int| 0 <= i < ps.len() implies ps[i].tag != tag <== (forall|k: int|
                0 <= k < rest.len() ==> rest[k].tag != tag) by {
                if i > 0 {
                    assert(ps[i] == rest[i - 1]);
                }
            }
            if forall|k: int| 0 <= k < rest.len() ==> rest[k].tag != tag {
            } else {
                let k = choose|k: int| 0 <= k < rest.len() && rest[k].tag == tag;
                assert(ps[k + 1] == rest[k]);
            }
            if let Some(p) = find_tag(rest, tag) {
                let k = choose|k: int|
                    0 <= k < rest.len() && rest[k] == p && p.tag == tag && forall|j: int|
                        0 <= j < k ==> rest[j].tag != tag;
                assert(ps[k + 1] == p);
                assert forall|j: int| 0 <= j < k + 1 implies ps[j].tag != tag by {
                    if j > 0 {
                        assert(ps[j] == rest[j - 1]);
                    }
                }
            }
        }
    }
}

/// The numeric value of a parameter: present exactly when the value holds at
/// least 4 octets, and then the big-endian number in its first four octets.
pub proof fn lemma_value_as_u32_layout(p: SpecParameter)
    ensures
        value_as_u32(p) is Some <==> p.value.len() >= 4,
        value_as_u32(p) matches Some(v) ==> v == p.value[0] * 0x100_0000 + p.value[1] * 0x1_0000
            + p.value[2] * 256 + p.value[3],
{
    if p.value.len() >= 4 {
        lemma_be_read_layout(0, 0, p.value);
    }
}

/// The well-known tag codes of RFC 4666.
pub proof fn lemma_tag_codes()
    ensures
        tags::INFO_STRING == 0x0004u16,
        tags::ROUTING_CONTEXT == 0x0006u16,
        tags::DIAGNOSTIC_INFO == 0x0007u16,
        tags::HEARTBEAT_DATA == 0x0009u16,
        tags::TRAFFIC_MODE_TYPE == 0x000Bu16,
        tags::ERROR_CODE == 0x000Cu16,
        tags::STATUS == 0x000Du16,
        tags::ASP_IDENTIFIER == 0x0011u16,
        tags::AFFECTED_POINT_CODE == 0x0012u16,
        tags::CORRELATION_ID == 0x0013u16,
        tags::NETWORK_APPEARANCE == 0x0200u16,
        tags::PROTOCOL_DATA == 0x0210u16,
{
}

/// A parameter that decodes re-encodes to the tag, length and value octets it
/// was read from.
pub proof fn lemma_parameter_decode_encode(b: Seq<u8>)
    ensures
        parameter_decode(b) matches Ok((p, n)) ==> parameter_bytes(p).subrange(
            0,
            4 + p.value.len() as int,
        ) == b.subrange(0, 4 + p.value.len() as int),
{
    if let Ok((p, n)) = parameter_decode(b) {
        let len = p.value.len();
        lemma_be_u16_octets(b[0], b[1]);
        lemma_be_u16_octets(b[2], b[3]);
        assert(length_field(len) == be_u16(b[2], b[3]));
        assert(parameter_bytes(p).subrange(0, 4 + len as int) =~= b.subrange(0, 4 + len as int));
    }
}

/// A 32-bit parameter reads back as the number it was built from.
pub proof fn lemma_u32_parameter_round_trip(tag: u16, v: u32)
    ensures
        value_as_u32(SpecParameter { tag, value: u32_be(v) }) == Some(v),
{
    lemma_u32_round_trip(v);
}

} // verus!
