use vstd::prelude::*;
use vstd::bytes::{spec_u16_from_le_bytes, spec_u32_from_le_bytes, spec_u64_from_le_bytes};
use vstd::utf8::{decode_utf8, valid_utf8};
use crate::error::{ErrorView, GgufError};
use crate::source::ByteReader;
use crate::text::string_from_utf8;

verus! {

broadcast use vstd::std_specs::vec::group_vec_axioms, vstd::seq::group_seq_axioms, crate::source::ByteReader::lemma_pos_nonneg, crate::source::ByteReader::lemma_wf_pos;

/// The thirteen tag codes of the typed-value codec. Every value in the
/// metadata section is introduced by one of these; no other code is valid.
#[derive(Clone, Copy, Debug, PartialEq, Eq, Structural)]
pub enum GgufValueType {
    Uint8,
    Int8,
    Uint16,
    Int16,
    Uint32,
    Int32,
    Float32,
    Bool,
    String,
    Array,
    Uint64,
    Int64,
    Float64,
}

impl GgufValueType {
    /// The numeric tag code of this value type in the binary format.
    pub open spec fn spec_code(self) -> u32 {
        match self {
            GgufValueType::Uint8 => 0,
            GgufValueType::Int8 => 1,
            GgufValueType::Uint16 => 2,
            GgufValueType::Int16 => 3,
            GgufValueType::Uint32 => 4,
            GgufValueType::Int32 => 5,
            GgufValueType::Float32 => 6,
            GgufValueType::Bool => 7,
            GgufValueType::String => 8,
            GgufValueType::Array => 9,
            GgufValueType::Uint64 => 10,
            GgufValueType::Int64 => 11,
            GgufValueType::Float64 => 12,
        }
    }

    /// The value type a numeric tag code stands for, if any: the codes form
    /// the closed range zero through twelve.
    pub open spec fn spec_from_code(code: u32) -> Option<GgufValueType> {
        if code == 0 {
            Some(GgufValueType::Uint8)
        } else if code == 1 {
            Some(GgufValueType::Int8)
        } else if code == 2 {
            Some(GgufValueType::Uint16)
        } else if code == 3 {
            Some(GgufValueType::Int16)
        } else if code == 4 {
            Some(GgufValueType::Uint32)
        } else if code == 5 {
            Some(GgufValueType::Int32)
        } else if code == 6 {
            Some(GgufValueType::Float32)
        } else if code == 7 {
            Some(GgufValueType::Bool)
        } else if code == 8 {
            Some(GgufValueType::String)
        } else if code == 9 {
            Some(GgufValueType::Array)
        } else if code == 10 {
            Some(GgufValueType::Uint64)
        } else if code == 11 {
            Some(GgufValueType::Int64)
        } else if code == 12 {
            Some(GgufValueType::Float64)
        } else {
            None
        }
    }

    /// The numeric tag code of this value type.
    pub fn code(self) -> (c: u32)
        ensures
            c == self.spec_code(),
    {
        match self {
            GgufValueType::Uint8 => 0,
            GgufValueType::Int8 => 1,
            GgufValueType::Uint16 => 2,
            GgufValueType::Int16 => 3,
            GgufValueType::Uint32 => 4,
            GgufValueType::Int32 => 5,
            GgufValueType::Float32 => 6,
            GgufValueType::Bool => 7,
            GgufValueType::String => 8,
            GgufValueType::Array => 9,
            GgufValueType::Uint64 => 10,
            GgufValueType::Int64 => 11,
            GgufValueType::Float64 => 12,
        }
    }

    /// Resolves a numeric tag code, rejecting any code outside the closed
    /// set with a format error carrying that code.
    pub fn from_code(code: u32) -> (r: Result<GgufValueType, GgufError>)
        ensures
            match GgufValueType::spec_from_code(code) {
                Some(t) => r == Ok::<GgufValueType, GgufError>(t),
                None => r == Err::<GgufValueType, GgufError>(GgufError::InvalidValueType(code)),
            },
    {
        match code {
            0 => Ok(GgufValueType::Uint8),
            1 => Ok(GgufValueType::Int8),
            2 => Ok(GgufValueType::Uint16),
            3 => Ok(GgufValueType::Int16),
            4 => Ok(GgufValueType::Uint32),
            5 => Ok(GgufValueType::Int32),
            6 => Ok(GgufValueType::Float32),
            7 => Ok(GgufValueType::Bool),
            8 => Ok(GgufValueType::String),
            9 => Ok(GgufValueType::Array),
            10 => Ok(GgufValueType::Uint64),
            11 => Ok(GgufValueType::Int64),
            12 => Ok(GgufValueType::Float64),
            _ => Err(GgufError::InvalidValueType(code)),
        }
    }
}

/// Mathematical image of a [`GgufValue`]: strings become character
/// sequences and arrays become sequences of images.
#[verifier::ext_equal]
pub enum ValueView {
    Uint8(u8),
    Int8(i8),
    Uint16(u16),
    Int16(i16),
    Uint32(u32),
    Int32(i32),
    /// Raw bits of a 32-bit IEEE 754 value.
    Float32(u32),
    Bool(bool),
    Str(Seq<char>),
    Array(Seq<ValueView>),
    Uint64(u64),
    Int64(i64),
    /// Raw bits of a 64-bit IEEE 754 value.
    Float64(u64),
}

/// One decoded tagged value. Floating-point fields keep the raw
/// little-endian bit patterns read from the source, so that the decoder
/// remains exact; a caller that wants the numeric value reinterprets the
/// bits itself.
#[derive(Debug, PartialEq)]
pub enum GgufValue {
    Uint8(u8),
    Int8(i8),
    Uint16(u16),
    Int16(i16),
    Uint32(u32),
    Int32(i32),
    /// Raw bits of a 32-bit IEEE 754 value.
    Float32(u32),
    Bool(bool),
    String(String),
    Array(Vec<GgufValue>),
    Uint64(u64),
    Int64(i64),
    /// Raw bits of a 64-bit IEEE 754 value.
    Float64(u64),
}

impl GgufValue {
    /// The mathematical image of this value; array elements are imaged in
    /// order.
    pub open spec fn value_view(self) -> ValueView
        decreases self,
    {
        match self {
            GgufValue::Uint8(x) => ValueView::Uint8(x),
            GgufValue::Int8(x) => ValueView::Int8(x),
            GgufValue::Uint16(x) => ValueView::Uint16(x),
            GgufValue::Int16(x) => ValueView::Int16(x),
            GgufValue::Uint32(x) => ValueView::Uint32(x),
            GgufValue::Int32(x) => ValueView::Int32(x),
            GgufValue::Float32(x) => ValueView::Float32(x),
            GgufValue::Bool(x) => ValueView::Bool(x),
            GgufValue::String(s) => ValueView::Str(s@),
            GgufValue::Array(vs) => ValueView::Array(views_of(vs@)),
            GgufValue::Uint64(x) => ValueView::Uint64(x),
            GgufValue::Int64(x) => ValueView::Int64(x),
            GgufValue::Float64(x) => ValueView::Float64(x),
        }
    }
}

/// The images of a sequence of values, element by element.
pub open spec fn views_of(s: Seq<GgufValue>) -> Seq<ValueView>
    decreases s,
{
    if s.len() == 0 {
        Seq::empty()
    } else {
        seq![s.first().value_view()] + views_of(s.drop_first())
    }
}

impl View for GgufValue {
    type V = ValueView;

    open spec fn view(&self) -> ValueView {
        self.value_view()
    }
}

/// The image of a value sequence has the same length and images each
/// element in place.
pub proof fn lemma_views_of_index(s: Seq<GgufValue>)
    ensures
        views_of(s).len() == s.len(),
        forall|i: int| 0 <= i < s.len() ==> views_of(s)[i] == (#[trigger] s[i])@,
    decreases s.len(),
{
    if s.len() > 0 {
        lemma_views_of_index(s.drop_first());
        assert forall|i: int| 0 <= i < s.len() implies views_of(s)[i] == (#[trigger] s[i])@ by {
            if i == 0 {
                assert(views_of(s)[0] == s.first()@);
            } else {
                assert(views_of(s)[i] == views_of(s.drop_first())[i - 1]);
                assert(s.drop_first()[i - 1] == s[i]);
            }
        }
    }
}

/// Appending one value to a sequence appends its image to the sequence's
/// image.
pub proof fn lemma_views_of_push(s: Seq<GgufValue>, v: GgufValue)
    ensures
        views_of(s.push(v)) == views_of(s).push(v@),
    decreases s.len(),
{
    if s.len() == 0 {
        assert(s.push(v).drop_first() =~= s);
        assert(views_of(s.push(v)) =~= views_of(s).push(v@));
    } else {
        assert(s.push(v).first() == s.first());
        assert(s.push(v).drop_first() =~= s.drop_first().push(v));
        lemma_views_of_push(s.drop_first(), v);
        assert(views_of(s.push(v)) =~= views_of(s).push(v@));
    }
}

/// The short name of a value's kind, as it appears in type-mismatch errors.
pub open spec fn spec_kind_name(v: ValueView) -> Seq<char> {
    match v {
        ValueView::Uint8(_) => "u8"@,
        ValueView::Int8(_) => "i8"@,
        ValueView::Uint16(_) => "u16"@,
        ValueView::Int16(_) => "i16"@,
        ValueView::Uint32(_) => "u32"@,
        ValueView::Int32(_) => "i32"@,
        ValueView::Float32(_) => "f32"@,
        ValueView::Bool(_) => "bool"@,
        ValueView::Str(_) => "string"@,
        ValueView::Array(_) => "array"@,
        ValueView::Uint64(_) => "u64"@,
        ValueView::Int64(_) => "i64"@,
        ValueView::Float64(_) => "f64"@,
    }
}

/// The signed reading of one byte, two's complement.
pub open spec fn spec_i8_from_byte(b: u8) -> i8 {
    if b < 0x80 {
        b as i8
    } else {
        (b - 0x100) as i8
    }
}

/// The signed reading of an unsigned 16-bit value, two's complement.
pub open spec fn spec_i16_from_u16(u: u16) -> i16 {
    if u < 0x8000 {
        u as i16
    } else {
        (u - 0x1_0000) as i16
    }
}

/// The signed reading of an unsigned 32-bit value, two's complement.
pub open spec fn spec_i32_from_u32(u: u32) -> i32 {
    if u < 0x8000_0000 {
        u as i32
    } else {
        (u - 0x1_0000_0000) as i32
    }
}

/// The signed reading of an unsigned 64-bit value, two's complement.
pub open spec fn spec_i64_from_u64(u: u64) -> i64 {
    if u < 0x8000_0000_0000_0000 {
        u as i64
    } else {
        (u - 0x1_0000_0000_0000_0000) as i64
    }
}

/// What decoding a length-prefixed string at byte offset `pos` yields: a
/// 64-bit little-endian byte length, then that many bytes, which must be
/// valid UTF-8.
pub open spec fn spec_parse_str(bytes: Seq<u8>, pos: int) -> Result<(Seq<char>, nat), ErrorView> {
    if pos + 8 > bytes.len() {
        Err(ErrorView::UnexpectedEof)
    } else {
        let n = spec_u64_from_le_bytes(bytes.subrange(pos, pos + 8));
        if pos + 8 + n > bytes.len() {
            Err(ErrorView::UnexpectedEof)
        } else {
            let sb = bytes.subrange(pos + 8, pos + 8 + n);
            if valid_utf8(sb) {
                Ok((decode_utf8(sb), (8 + n) as nat))
            } else {
                Err(ErrorView::InvalidUtf8)
            }
        }
    }
}

/// Decodes a length-prefixed UTF-8 string from the source, consuming
/// exactly the bytes [`spec_parse_str`] declares and yielding exactly the
/// characters it declares, or its error.
pub(crate) fn read_string(r: &mut ByteReader) -> (res: Result<String, GgufError>)
    requires
        old(r).wf(),
    ensures
        final(r).bytes() == old(r).bytes(),
        final(r).wf(),
        match spec_parse_str(old(r).bytes(), old(r).pos()) {
            Ok(sc) => res is Ok && res->Ok_0@ == sc.0 && final(r).pos() == old(r).pos() + sc.1,
            Err(e) => res is Err && res->Err_0@ == e,
        },
{
    let n = match r.read_u64_le() {
        Ok(x) => x,
        Err(e) => return Err(e),
    };
    let bytes = match r.read_bytes(n) {
        Ok(b) => b,
        Err(e) => return Err(e),
    };
    match string_from_utf8(bytes) {
        Some(s) => Ok(s),
        None => Err(GgufError::InvalidUtf8),
    }
}

/// What decoding one tagged value of type `t` at byte offset `pos` yields:
/// the value together with the number of bytes it occupies, or the first
/// fault encountered. Each non-array kind is a fixed-width little-endian
/// field; strings carry a 64-bit length prefix and must be valid UTF-8;
/// arrays carry an element-type tag and a 64-bit count, then that many
/// elements decoded with the element tag.
pub open spec fn spec_parse_value(bytes: Seq<u8>, pos: int, t: GgufValueType) -> Result<
    (ValueView, nat),
    ErrorView,
>
    decreases bytes.len() - pos, 0int, 0int,
{
    match t {
        GgufValueType::Uint8 => {
            if pos + 1 <= bytes.len() {
                Ok((ValueView::Uint8(bytes[pos as int]), 1))
            } else {
                Err(ErrorView::UnexpectedEof)
            }
        },
        GgufValueType::Int8 => {
            if pos + 1 <= bytes.len() {
                Ok((ValueView::Int8(spec_i8_from_byte(bytes[pos as int])), 1))
            } else {
                Err(ErrorView::UnexpectedEof)
            }
        },
        GgufValueType::Uint16 => {
            if pos + 2 <= bytes.len() {
                Ok(
                    (
                        ValueView::Uint16(
                            spec_u16_from_le_bytes(bytes.subrange(pos as int, pos as int + 2)),
                        ),
                        2,
                    ),
                )
            } else {
                Err(ErrorView::UnexpectedEof)
            }
        },
        GgufValueType::Int16 => {
            if pos + 2 <= bytes.len() {
                Ok(
                    (
                        ValueView::Int16(
                            spec_i16_from_u16(
                                spec_u16_from_le_bytes(bytes.subrange(pos as int, pos as int + 2)),
                            ),
                        ),
                        2,
                    ),
                )
            } else {
                Err(ErrorView::UnexpectedEof)
            }
        },
        GgufValueType::Uint32 => {
            if pos + 4 <= bytes.len() {
                Ok(
                    (
                        ValueView::Uint32(
                            spec_u32_from_le_bytes(bytes.subrange(pos as int, pos as int + 4)),
                        ),
                        4,
                    ),
                )
            } else {
                Err(ErrorView::UnexpectedEof)
            }
        },
        GgufValueType::Int32 => {
            if pos + 4 <= bytes.len() {
                Ok(
                    (
                        ValueView::Int32(
                            spec_i32_from_u32(
                                spec_u32_from_le_bytes(bytes.subrange(pos as int, pos as int + 4)),
                            ),
                        ),
                        4,
                    ),
                )
            } else {
                Err(ErrorView::UnexpectedEof)
            }
        },
        GgufValueType::Float32 => {
            if pos + 4 <= bytes.len() {
                Ok(
                    (
                        ValueView::Float32(
                            spec_u32_from_le_bytes(bytes.subrange(pos as int, pos as int + 4)),
                        ),
                        4,
                    ),
                )
            } else {
                Err(ErrorView::UnexpectedEof)
            }
        },
        GgufValueType::Bool => {
            if pos + 1 <= bytes.len() {
                Ok((ValueView::Bool(bytes[pos as int] != 0), 1))
            } else {
                Err(ErrorView::UnexpectedEof)
            }
        },
        GgufValueType::String => {
            match spec_parse_str(bytes, pos) {
                Ok(sc) => Ok((ValueView::Str(sc.0), sc.1)),
                Err(e) => Err(e),
            }
        },
        GgufValueType::Array => {
            if pos + 4 <= bytes.len() {
                let tag = spec_u32_from_le_bytes(bytes.subrange(pos as int, pos as int + 4));
                match GgufValueType::spec_from_code(tag) {
                    None => Err(ErrorView::InvalidValueType { tag }),
                    Some(et) => {
                        if pos + 12 <= bytes.len() {
                            let n = spec_u64_from_le_bytes(bytes.subrange(pos as int + 4, pos as int + 12));
                            match spec_parse_elems(bytes, pos + 12, et, n as int) {
                                Ok((vs, c)) => Ok((ValueView::Array(vs), (12 + c) as nat)),
                                Err(e) => Err(e),
                            }
                        } else {
                            Err(ErrorView::UnexpectedEof)
                        }
                    },
                }
            } else {
                Err(ErrorView::UnexpectedEof)
            }
        },
        GgufValueType::Uint64 => {
            if pos + 8 <= bytes.len() {
                Ok(
                    (
                        ValueView::Uint64(
                            spec_u64_from_le_bytes(bytes.subrange(pos as int, pos as int + 8)),
                        ),
                        8,
                    ),
                )
            } else {
                Err(ErrorView::UnexpectedEof)
            }
        },
        GgufValueType::Int64 => {
            if pos + 8 <= bytes.len() {
                Ok(
                    (
                        ValueView::Int64(
                            spec_i64_from_u64(
                                spec_u64_from_le_bytes(bytes.subrange(pos as int, pos as int + 8)),
                            ),
                        ),
                        8,
                    ),
                )
            } else {
                Err(ErrorView::UnexpectedEof)
            }
        },
        GgufValueType::Float64 => {
            if pos + 8 <= bytes.len() {
                Ok(
                    (
                        ValueView::Float64(
                            spec_u64_from_le_bytes(bytes.subrange(pos as int, pos as int + 8)),
                        ),
                        8,
                    ),
                )
            } else {
                Err(ErrorView::UnexpectedEof)
            }
        },
    }
}

/// The kind a stored value does not coerce to, reported with the kind it
/// actually has. The key slot is filled in by the metadata accessors; a
/// bare value does not know the key it was stored under.
pub open spec fn spec_mismatch(v: ValueView, expected: Seq<char>) -> ErrorView {
    ErrorView::InvalidMetadataValueType {
        key: "unknown"@,
        expected: expected,
        found: spec_kind_name(v),
    }
}

impl GgufValue {
    /// The short name of this value's kind, as it appears in type-mismatch
    /// errors.
    pub fn kind_name(&self) -> (r: &'static str)
        ensures
            r@ == spec_kind_name(self@),
    {
        match self {
            GgufValue::Uint8(_) => "u8",
            GgufValue::Int8(_) => "i8",
            GgufValue::Uint16(_) => "u16",
            GgufValue::Int16(_) => "i16",
            GgufValue::Uint32(_) => "u32",
            GgufValue::Int32(_) => "i32",
            GgufValue::Float32(_) => "f32",
            GgufValue::Bool(_) => "bool",
            GgufValue::String(_) => "string",
            GgufValue::Array(_) => "array",
            GgufValue::Uint64(_) => "u64",
            GgufValue::Int64(_) => "i64",
            GgufValue::Float64(_) => "f64",
        }
    }

    fn mismatch_error(&self, expected: &str) -> (r: GgufError)
        ensures
            r@ == spec_mismatch(self@, expected@),
    {
        GgufError::InvalidMetadataValueType {
            key: "unknown".to_owned(),
            expected: expected.to_owned(),
            found: self.kind_name().to_owned(),
        }
    }

    /// Coerces this value to an unsigned 32-bit integer: an exact 32-bit
    /// value is returned as it is, and a 64-bit value is narrowed with a
    /// silent truncating cast; nothing else coerces.
    pub fn as_u32(&self) -> (r: Result<u32, GgufError>)
        ensures
            match spec_as_u32(self@) {
                Some(x) => r == Ok::<u32, GgufError>(x),
                None => r is Err && r->Err_0@ == spec_mismatch(self@, "u32"@),
            },
    {
        match self {
            GgufValue::Uint32(v) => Ok(*v),
            GgufValue::Uint64(v) => Ok((*v % 0x1_0000_0000) as u32),
            _ => Err(self.mismatch_error("u32")),
        }
    }

    /// Coerces this value to an unsigned 64-bit integer: an exact 64-bit
    /// value is returned as it is, and a 32-bit value is widened; nothing
    /// else coerces.
    pub fn as_u64(&self) -> (r: Result<u64, GgufError>)
        ensures
            match spec_as_u64(self@) {
                Some(x) => r == Ok::<u64, GgufError>(x),
                None => r is Err && r->Err_0@ == spec_mismatch(self@, "u64"@),
            },
    {
        match self {
            GgufValue::Uint64(v) => Ok(*v),
            GgufValue::Uint32(v) => Ok(*v as u64),
            _ => Err(self.mismatch_error("u64")),
        }
    }

    /// Requires the exact string variant; no other kind coerces.
    pub fn as_string(&self) -> (r: Result<&str, GgufError>)
        ensures
            match spec_as_str(self@) {
                Some(s) => r is Ok && r->Ok_0@ == s,
                None => r is Err && r->Err_0@ == spec_mismatch(self@, "string"@),
            },
    {
        match self {
            GgufValue::String(s) => Ok(s.as_str()),
            _ => Err(self.mismatch_error("string")),
        }
    }

    /// Requires the exact 32-bit float variant and yields its raw IEEE 754
    /// bits; the 64-bit float variant does not narrow, nor anything else.
    pub fn as_f32(&self) -> (r: Result<u32, GgufError>)
        ensures
            match spec_as_f32_bits(self@) {
                Some(b) => r == Ok::<u32, GgufError>(b),
                None => r is Err && r->Err_0@ == spec_mismatch(self@, "f32"@),
            },
    {
        match self {
            GgufValue::Float32(b) => Ok(*b),
            _ => Err(self.mismatch_error("f32")),
        }
    }
}

/// Widening a 32-bit value to 64 bits and narrowing the result back
/// returns the value unchanged: the asymmetric coercion pair loses
/// nothing in this direction.
pub proof fn lemma_widen_narrow_round_trip(x: u32)
    ensures
        spec_as_u32(ValueView::Uint64(spec_as_u64(ValueView::Uint32(x))->0)) == Some(x),
{
}

/// The unsigned 32-bit reading of a value: exact from the 32-bit variant,
/// truncated modulo two to the thirty-second from the 64-bit variant.
pub open spec fn spec_as_u32(v: ValueView) -> Option<u32> {
    match v {
        ValueView::Uint32(x) => Some(x),
        ValueView::Uint64(x) => Some((x % 0x1_0000_0000) as u32),
        _ => None,
    }
}

/// The unsigned 64-bit reading of a value: exact from the 64-bit variant,
/// widened from the 32-bit variant.
pub open spec fn spec_as_u64(v: ValueView) -> Option<u64> {
    match v {
        ValueView::Uint64(x) => Some(x),
        ValueView::Uint32(x) => Some(x as u64),
        _ => None,
    }
}

/// The string reading of a value: only the exact string variant.
pub open spec fn spec_as_str(v: ValueView) -> Option<Seq<char>> {
    match v {
        ValueView::Str(s) => Some(s),
        _ => None,
    }
}

/// The 32-bit float bits of a value: only the exact 32-bit float variant.
pub open spec fn spec_as_f32_bits(v: ValueView) -> Option<u32> {
    match v {
        ValueView::Float32(b) => Some(b),
        _ => None,
    }
}

/// What decoding `n` consecutive values of type `t` starting at `pos`
/// yields: the values in order with the total bytes they occupy, or the
/// first fault. Decoding is fail-fast: the first faulty element aborts the
/// whole run.
pub open spec fn spec_parse_elems(bytes: Seq<u8>, pos: int, t: GgufValueType, n: int) -> Result<
    (Seq<ValueView>, nat),
    ErrorView,
>
    decreases bytes.len() - pos, 1int, n,
{
    if n <= 0 {
        Ok((Seq::empty(), 0))
    } else if pos < 0 || pos > bytes.len() {
        Err(ErrorView::UnexpectedEof)
    } else {
        match spec_parse_value(bytes, pos, t) {
            Err(e) => Err(e),
            Ok((v, c)) => {
                if pos + c <= bytes.len() {
                    match spec_parse_elems(bytes, pos + c, t, n - 1) {
                        Err(e) => Err(e),
                        Ok((vs, c2)) => Ok((seq![v] + vs, (c + c2) as nat)),
                    }
                } else {
                    // a decoded value never extends past the input
                    Err(ErrorView::UnexpectedEof)
                }
            },
        }
    }
}

impl GgufValue {
    /// Decodes one tagged value of type `value_type` from the source,
    /// consuming exactly the bytes [`spec_parse_value`] declares and
    /// yielding exactly the value it declares, or its error.
    pub fn read(r: &mut ByteReader, value_type: GgufValueType) -> (res: Result<
        GgufValue,
        GgufError,
    >)
        requires
            old(r).wf(),
        ensures
            final(r).bytes() == old(r).bytes(),
            final(r).wf(),
            match spec_parse_value(old(r).bytes(), old(r).pos(), value_type) {
                Ok(vc) => res is Ok && res->Ok_0@ == vc.0 && final(r).pos() == old(r).pos()
                    + vc.1,
                Err(e) => res is Err && res->Err_0@ == e,
            },
        decreases r.bytes().len() - r.pos(),
    {
        match value_type {
            GgufValueType::Uint8 => {
                match r.read_u8() {
                    Ok(b) => Ok(GgufValue::Uint8(b)),
                    Err(e) => Err(e),
                }
            },
            GgufValueType::Int8 => {
                match r.read_u8() {
                    Ok(b) => {
                        let v: i8 = if b < 0x80 {
                            b as i8
                        } else {
                            ((b as i16) - 0x100) as i8
                        };
                        Ok(GgufValue::Int8(v))
                    },
                    Err(e) => Err(e),
                }
            },
            GgufValueType::Uint16 => {
                match r.read_u16_le() {
                    Ok(u) => Ok(GgufValue::Uint16(u)),
                    Err(e) => Err(e),
                }
            },
            GgufValueType::Int16 => {
                match r.read_u16_le() {
                    Ok(u) => {
                        let v: i16 = if u < 0x8000 {
                            u as i16
                        } else {
                            ((u as i32) - 0x1_0000) as i16
                        };
                        Ok(GgufValue::Int16(v))
                    },
                    Err(e) => Err(e),
                }
            },
            GgufValueType::Uint32 => {
                match r.read_u32_le() {
                    Ok(u) => Ok(GgufValue::Uint32(u)),
                    Err(e) => Err(e),
                }
            },
            GgufValueType::Int32 => {
                match r.read_u32_le() {
                    Ok(u) => {
                        let v: i32 = if u < 0x8000_0000 {
                            u as i32
                        } else {
                            ((u as i64) - 0x1_0000_0000) as i32
                        };
                        Ok(GgufValue::Int32(v))
                    },
                    Err(e) => Err(e),
                }
            },
            GgufValueType::Float32 => {
                match r.read_u32_le() {
                    Ok(u) => Ok(GgufValue::Float32(u)),
                    Err(e) => Err(e),
                }
            },
            GgufValueType::Bool => {
                match r.read_u8() {
                    Ok(b) => Ok(GgufValue::Bool(b != 0)),
                    Err(e) => Err(e),
                }
            },
            GgufValueType::String => {
                match read_string(r) {
                    Ok(s) => Ok(GgufValue::String(s)),
                    Err(e) => Err(e),
                }
            },
            GgufValueType::Array => {
                let tag = match r.read_u32_le() {
                    Ok(x) => x,
                    Err(e) => return Err(e),
                };
                let elem_type = match GgufValueType::from_code(tag) {
                    Ok(t) => t,
                    Err(e) => return Err(e),
                };
                let n = match r.read_u64_le() {
                    Ok(x) => x,
                    Err(e) => return Err(e),
                };
                let ghost bytes0 = r.bytes();
                let ghost start = r.pos();
                let mut items: Vec<GgufValue> = Vec::new();
                let mut i: u64 = 0;
                proof {
                    assert(views_of(items@) =~= Seq::<ValueView>::empty());
                    if let Ok(vc) = spec_parse_elems(bytes0, start, elem_type, n as int) {
                        assert(views_of(items@) + vc.0 =~= vc.0);
                    }
                }
                while i < n
                    invariant
                        r.wf(),
                        r.bytes() == bytes0,
                        bytes0 == old(r).bytes(),
                        i <= n,
                        value_type == GgufValueType::Array,
                        start == old(r).pos() + 12,
                        start <= r.pos() <= bytes0.len(),
                        spec_parse_value(bytes0, old(r).pos(), GgufValueType::Array)
                            == (match spec_parse_elems(bytes0, start, elem_type, n as int) {
                            Ok(vc) => Ok::<(ValueView, nat), ErrorView>(
                                (ValueView::Array(vc.0), (12 + vc.1) as nat),
                            ),
                            Err(e) => Err::<(ValueView, nat), ErrorView>(e),
                        }),
                        match spec_parse_elems(bytes0, r.pos(), elem_type, n - i) {
                            Ok(vc) => spec_parse_elems(bytes0, start, elem_type, n as int)
                                == Ok::<(Seq<ValueView>, nat), ErrorView>(
                                (views_of(items@) + vc.0, ((r.pos() - start) + vc.1) as nat),
                            ),
                            Err(e) => spec_parse_elems(bytes0, start, elem_type, n as int)
                                == Err::<(Seq<ValueView>, nat), ErrorView>(e),
                        },
                    decreases n - i,
                {
                    let ghost cur = r.pos();
                    let item = match GgufValue::read(r, elem_type) {
                        Ok(v) => v,
                        Err(e) => {
                            proof {
                                let pr = spec_parse_value(bytes0, cur, elem_type);
                                assert(spec_parse_elems(bytes0, cur, elem_type, n - i) == Err::<
                                    (Seq<ValueView>, nat),
                                    ErrorView,
                                >(pr->Err_0));
                            }
                            return Err(e);
                        },
                    };
                    proof {
                        let vc1 = spec_parse_value(bytes0, cur, elem_type)->Ok_0;
                        if let Ok(vc2) = spec_parse_elems(
                            bytes0,
                            r.pos(),
                            elem_type,
                            n - (i + 1),
                        ) {
                            lemma_views_of_push(items@, item);
                            assert(views_of(items@) + (seq![vc1.0] + vc2.0) =~= views_of(
                                items@.push(item),
                            ) + vc2.0);
                        }
                    }
                    items.push(item);
                    i = i + 1;
                }
                proof {
                    assert(views_of(items@) + Seq::<ValueView>::empty() =~= views_of(items@));
                }
                Ok(GgufValue::Array(items))
            },
            GgufValueType::Uint64 => {
                match r.read_u64_le() {
                    Ok(u) => Ok(GgufValue::Uint64(u)),
                    Err(e) => Err(e),
                }
            },
            GgufValueType::Int64 => {
                match r.read_u64_le() {
                    Ok(u) => {
                        let v: i64 = if u < 0x8000_0000_0000_0000 {
                            u as i64
                        } else {
                            ((u as i128) - 0x1_0000_0000_0000_0000) as i64
                        };
                        Ok(GgufValue::Int64(v))
                    },
                    Err(e) => Err(e),
                }
            },
            GgufValueType::Float64 => {
                match r.read_u64_le() {
                    Ok(u) => Ok(GgufValue::Float64(u)),
                    Err(e) => Err(e),
                }
            },
        }
    }
}

} // verus!
