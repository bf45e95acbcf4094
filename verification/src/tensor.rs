use vstd::prelude::*;
use vstd::bytes::{spec_u32_from_le_bytes, spec_u64_from_le_bytes};
use crate::error::{ErrorView, GgufError};
use crate::source::ByteReader;
use crate::text::{
    contains_seq, find_char_idx, find_char_from, find_idx, find_sub, parse_u32_in, spec_dec_digits,
    spec_parse_u32, str_contains, u64_to_dec_string,
};
use crate::types::{read_string, spec_parse_str};

verus! {

broadcast use vstd::std_specs::vec::group_vec_axioms, vstd::seq::group_seq_axioms, crate::source::ByteReader::lemma_pos_nonneg, crate::source::ByteReader::lemma_wf_pos;

/// The closed catalog of tensor storage encodings. The numeric codes are
/// sparse: codes four and five are intentionally absent, and nothing lies
/// beyond the last code.
#[derive(Clone, Copy, Debug, PartialEq, Eq, Structural)]
#[allow(non_camel_case_types)]
pub enum QuantizationType {
    F32,
    F16,
    Q4_0,
    Q4_1,
    Q5_0,
    Q5_1,
    Q8_0,
    Q8_1,
    Q2_K,
    Q3_K,
    Q4_K,
    Q5_K,
    Q6_K,
    Q8_K,
    IQ2_XXS,
    IQ2_XS,
    IQ3_XXS,
    IQ1_S,
    IQ4_NL,
    IQ3_S,
    IQ2_S,
    IQ4_XS,
    I8,
    I16,
    I32,
    I64,
    F64,
    IQ1_M,
}

impl QuantizationType {
    /// The numeric code of this encoding in the binary format.
    #[verifier::opaque]
    pub open spec fn spec_code(self) -> u32 {
        match self {
            QuantizationType::F32 => 0,
            QuantizationType::F16 => 1,
            QuantizationType::Q4_0 => 2,
            QuantizationType::Q4_1 => 3,
            QuantizationType::Q5_0 => 6,
            QuantizationType::Q5_1 => 7,
            QuantizationType::Q8_0 => 8,
            QuantizationType::Q8_1 => 9,
            QuantizationType::Q2_K => 10,
            QuantizationType::Q3_K => 11,
            QuantizationType::Q4_K => 12,
            QuantizationType::Q5_K => 13,
            QuantizationType::Q6_K => 14,
            QuantizationType::Q8_K => 15,
            QuantizationType::IQ2_XXS => 16,
            QuantizationType::IQ2_XS => 17,
            QuantizationType::IQ3_XXS => 18,
            QuantizationType::IQ1_S => 19,
            QuantizationType::IQ4_NL => 20,
            QuantizationType::IQ3_S => 21,
            QuantizationType::IQ2_S => 22,
            QuantizationType::IQ4_XS => 23,
            QuantizationType::I8 => 24,
            QuantizationType::I16 => 25,
            QuantizationType::I32 => 26,
            QuantizationType::I64 => 27,
            QuantizationType::F64 => 28,
            QuantizationType::IQ1_M => 29,
        }
    }

    /// The encoding a numeric code stands for, if any. Codes four and five
    /// are gaps, not members of a range.
    pub open spec fn spec_from_code(code: u32) -> Option<QuantizationType> {
        if code == 0 {
            Some(QuantizationType::F32)
        } else if code == 1 {
            Some(QuantizationType::F16)
        } else if code == 2 {
            Some(QuantizationType::Q4_0)
        } else if code == 3 {
            Some(QuantizationType::Q4_1)
        } else if code == 6 {
            Some(QuantizationType::Q5_0)
        } else if code == 7 {
            Some(QuantizationType::Q5_1)
        } else if code == 8 {
            Some(QuantizationType::Q8_0)
        } else if code == 9 {
            Some(QuantizationType::Q8_1)
        } else if code == 10 {
            Some(QuantizationType::Q2_K)
        } else if code == 11 {
            Some(QuantizationType::Q3_K)
        } else if code == 12 {
            Some(QuantizationType::Q4_K)
        } else if code == 13 {
            Some(QuantizationType::Q5_K)
        } else if code == 14 {
            Some(QuantizationType::Q6_K)
        } else if code == 15 {
            Some(QuantizationType::Q8_K)
        } else if code == 16 {
            Some(QuantizationType::IQ2_XXS)
        } else if code == 17 {
            Some(QuantizationType::IQ2_XS)
        } else if code == 18 {
            Some(QuantizationType::IQ3_XXS)
        } else if code == 19 {
            Some(QuantizationType::IQ1_S)
        } else if code == 20 {
            Some(QuantizationType::IQ4_NL)
        } else if code == 21 {
            Some(QuantizationType::IQ3_S)
        } else if code == 22 {
            Some(QuantizationType::IQ2_S)
        } else if code == 23 {
            Some(QuantizationType::IQ4_XS)
        } else if code == 24 {
            Some(QuantizationType::I8)
        } else if code == 25 {
            Some(QuantizationType::I16)
        } else if code == 26 {
            Some(QuantizationType::I32)
        } else if code == 27 {
            Some(QuantizationType::I64)
        } else if code == 28 {
            Some(QuantizationType::F64)
        } else if code == 29 {
            Some(QuantizationType::IQ1_M)
        } else {
            None
        }
    }

    /// The numeric code of this encoding.
    pub fn code(self) -> (c: u32)
        ensures
            c == self.spec_code(),
    {
        proof {
            reveal(QuantizationType::spec_code);
        }
        match self {
            QuantizationType::F32 => 0,
            QuantizationType::F16 => 1,
            QuantizationType::Q4_0 => 2,
            QuantizationType::Q4_1 => 3,
            QuantizationType::Q5_0 => 6,
            QuantizationType::Q5_1 => 7,
            QuantizationType::Q8_0 => 8,
            QuantizationType::Q8_1 => 9,
            QuantizationType::Q2_K => 10,
            QuantizationType::Q3_K => 11,
            QuantizationType::Q4_K => 12,
            QuantizationType::Q5_K => 13,
            QuantizationType::Q6_K => 14,
            QuantizationType::Q8_K => 15,
            QuantizationType::IQ2_XXS => 16,
            QuantizationType::IQ2_XS => 17,
            QuantizationType::IQ3_XXS => 18,
            QuantizationType::IQ1_S => 19,
            QuantizationType::IQ4_NL => 20,
            QuantizationType::IQ3_S => 21,
            QuantizationType::IQ2_S => 22,
            QuantizationType::IQ4_XS => 23,
            QuantizationType::I8 => 24,
            QuantizationType::I16 => 25,
            QuantizationType::I32 => 26,
            QuantizationType::I64 => 27,
            QuantizationType::F64 => 28,
            QuantizationType::IQ1_M => 29,
        }
    }

    /// Resolves a numeric code, rejecting any code outside the closed set
    /// with a format error carrying that code.
    pub fn from_code(code: u32) -> (r: Result<QuantizationType, GgufError>)
        ensures
            match QuantizationType::spec_from_code(code) {
                Some(q) => r == Ok::<QuantizationType, GgufError>(q),
                None => r == Err::<QuantizationType, GgufError>(
                    GgufError::InvalidQuantizationType(code),
                ),
            },
    {
        match code {
            0 => Ok(QuantizationType::F32),
            1 => Ok(QuantizationType::F16),
            2 => Ok(QuantizationType::Q4_0),
            3 => Ok(QuantizationType::Q4_1),
            6 => Ok(QuantizationType::Q5_0),
            7 => Ok(QuantizationType::Q5_1),
            8 => Ok(QuantizationType::Q8_0),
            9 => Ok(QuantizationType::Q8_1),
            10 => Ok(QuantizationType::Q2_K),
            11 => Ok(QuantizationType::Q3_K),
            12 => Ok(QuantizationType::Q4_K),
            13 => Ok(QuantizationType::Q5_K),
            14 => Ok(QuantizationType::Q6_K),
            15 => Ok(QuantizationType::Q8_K),
            16 => Ok(QuantizationType::IQ2_XXS),
            17 => Ok(QuantizationType::IQ2_XS),
            18 => Ok(QuantizationType::IQ3_XXS),
            19 => Ok(QuantizationType::IQ1_S),
            20 => Ok(QuantizationType::IQ4_NL),
            21 => Ok(QuantizationType::IQ3_S),
            22 => Ok(QuantizationType::IQ2_S),
            23 => Ok(QuantizationType::IQ4_XS),
            24 => Ok(QuantizationType::I8),
            25 => Ok(QuantizationType::I16),
            26 => Ok(QuantizationType::I32),
            27 => Ok(QuantizationType::I64),
            28 => Ok(QuantizationType::F64),
            29 => Ok(QuantizationType::IQ1_M),
            _ => Err(GgufError::InvalidQuantizationType(code)),
        }
    }

    /// True for every encoding but the three full-precision float kinds.
    pub open spec fn spec_is_quantized(self) -> bool {
        !(self == QuantizationType::F32 || self == QuantizationType::F16 || self
            == QuantizationType::F64)
    }

    /// True when this encoding compresses weights below full precision.
    pub fn is_quantized(&self) -> (r: bool)
        ensures
            r == self.spec_is_quantized(),
    {
        !matches!(self, QuantizationType::F32 | QuantizationType::F16 | QuantizationType::F64)
    }

    /// Bits per stored weight, in sixteenths of a bit. The fractional
    /// widths reflect real block-quantization layouts, so every entry is an
    /// exact multiple of one sixteenth.
    pub open spec fn spec_bits_per_weight_x16(self) -> u32 {
        match self {
            QuantizationType::F32 => 512,  // 32 bits
            QuantizationType::F16 => 256,  // 16 bits
            QuantizationType::F64 => 1024,  // 64 bits
            QuantizationType::Q4_0 => 72,  // 4.5 bits
            QuantizationType::Q4_1 => 72,  // 4.5 bits
            QuantizationType::Q5_0 => 88,  // 5.5 bits
            QuantizationType::Q5_1 => 88,  // 5.5 bits
            QuantizationType::Q8_0 => 136,  // 8.5 bits
            QuantizationType::Q8_1 => 136,  // 8.5 bits
            QuantizationType::Q2_K => 41,  // 2.5625 bits
            QuantizationType::Q3_K => 55,  // 3.4375 bits
            QuantizationType::Q4_K => 72,  // 4.5 bits
            QuantizationType::Q5_K => 88,  // 5.5 bits
            QuantizationType::Q6_K => 105,  // 6.5625 bits
            QuantizationType::Q8_K => 136,  // 8.5 bits
            QuantizationType::IQ2_XXS => 33,  // 2.0625 bits
            QuantizationType::IQ2_XS => 37,  // 2.3125 bits
            QuantizationType::IQ3_XXS => 49,  // 3.0625 bits
            QuantizationType::IQ1_S => 25,  // 1.5625 bits
            QuantizationType::IQ4_NL => 72,  // 4.5 bits
            QuantizationType::IQ3_S => 55,  // 3.4375 bits
            QuantizationType::IQ2_S => 40,  // 2.5 bits
            QuantizationType::IQ4_XS => 68,  // 4.25 bits
            QuantizationType::I8 => 128,  // 8 bits
            QuantizationType::I16 => 256,  // 16 bits
            QuantizationType::I32 => 512,  // 32 bits
            QuantizationType::I64 => 1024,  // 64 bits
            QuantizationType::IQ1_M => 28,  // 1.75 bits
        }
    }

    /// Bits per stored weight, in sixteenths of a bit, so that the
    /// fractional block-quantization widths stay exact integers.
    pub fn bits_per_weight_x16(&self) -> (r: u32)
        ensures
            r == self.spec_bits_per_weight_x16(),
    {
        match self {
            QuantizationType::F32 => 512,
            QuantizationType::F16 => 256,
            QuantizationType::F64 => 1024,
            QuantizationType::Q4_0 => 72,
            QuantizationType::Q4_1 => 72,
            QuantizationType::Q5_0 => 88,
            QuantizationType::Q5_1 => 88,
            QuantizationType::Q8_0 => 136,
            QuantizationType::Q8_1 => 136,
            QuantizationType::Q2_K => 41,
            QuantizationType::Q3_K => 55,
            QuantizationType::Q4_K => 72,
            QuantizationType::Q5_K => 88,
            QuantizationType::Q6_K => 105,
            QuantizationType::Q8_K => 136,
            QuantizationType::IQ2_XXS => 33,
            QuantizationType::IQ2_XS => 37,
            QuantizationType::IQ3_XXS => 49,
            QuantizationType::IQ1_S => 25,
            QuantizationType::IQ4_NL => 72,
            QuantizationType::IQ3_S => 55,
            QuantizationType::IQ2_S => 40,
            QuantizationType::IQ4_XS => 68,
            QuantizationType::I8 => 128,
            QuantizationType::I16 => 256,
            QuantizationType::I32 => 512,
            QuantizationType::I64 => 1024,
            QuantizationType::IQ1_M => 28,
        }
    }

    /// The human-readable description of this encoding.
    pub open spec fn spec_description(self) -> Seq<char> {
        match self {
            QuantizationType::F32 => "32-bit float"@,
            QuantizationType::F16 => "16-bit float"@,
            QuantizationType::F64 => "64-bit float"@,
            QuantizationType::Q4_0 => "4-bit quantized (symmetric)"@,
            QuantizationType::Q4_1 => "4-bit quantized (asymmetric)"@,
            QuantizationType::Q5_0 => "5-bit quantized (symmetric)"@,
            QuantizationType::Q5_1 => "5-bit quantized (asymmetric)"@,
            QuantizationType::Q8_0 => "8-bit quantized (symmetric)"@,
            QuantizationType::Q8_1 => "8-bit quantized (asymmetric)"@,
            QuantizationType::Q2_K => "2-bit K-quantized"@,
            QuantizationType::Q3_K => "3-bit K-quantized"@,
            QuantizationType::Q4_K => "4-bit K-quantized"@,
            QuantizationType::Q5_K => "5-bit K-quantized"@,
            QuantizationType::Q6_K => "6-bit K-quantized"@,
            QuantizationType::Q8_K => "8-bit K-quantized"@,
            QuantizationType::IQ2_XXS => "2-bit IMatrix (extra small)"@,
            QuantizationType::IQ2_XS => "2-bit IMatrix (small)"@,
            QuantizationType::IQ3_XXS => "3-bit IMatrix (extra small)"@,
            QuantizationType::IQ1_S => "1-bit IMatrix (small)"@,
            QuantizationType::IQ4_NL => "4-bit IMatrix (non-linear)"@,
            QuantizationType::IQ3_S => "3-bit IMatrix (small)"@,
            QuantizationType::IQ2_S => "2-bit IMatrix (small)"@,
            QuantizationType::IQ4_XS => "4-bit IMatrix (extra small)"@,
            QuantizationType::I8 => "8-bit integer"@,
            QuantizationType::I16 => "16-bit integer"@,
            QuantizationType::I32 => "32-bit integer"@,
            QuantizationType::I64 => "64-bit integer"@,
            QuantizationType::IQ1_M => "1-bit IMatrix (medium)"@,
        }
    }

    /// A short human description of this encoding.
    pub fn description(&self) -> (r: &'static str)
        ensures
            r@ == self.spec_description(),
    {
        match self {
            QuantizationType::F32 => "32-bit float",
            QuantizationType::F16 => "16-bit float",
            QuantizationType::F64 => "64-bit float",
            QuantizationType::Q4_0 => "4-bit quantized (symmetric)",
            QuantizationType::Q4_1 => "4-bit quantized (asymmetric)",
            QuantizationType::Q5_0 => "5-bit quantized (symmetric)",
            QuantizationType::Q5_1 => "5-bit quantized (asymmetric)",
            QuantizationType::Q8_0 => "8-bit quantized (symmetric)",
            QuantizationType::Q8_1 => "8-bit quantized (asymmetric)",
            QuantizationType::Q2_K => "2-bit K-quantized",
            QuantizationType::Q3_K => "3-bit K-quantized",
            QuantizationType::Q4_K => "4-bit K-quantized",
            QuantizationType::Q5_K => "5-bit K-quantized",
            QuantizationType::Q6_K => "6-bit K-quantized",
            QuantizationType::Q8_K => "8-bit K-quantized",
            QuantizationType::IQ2_XXS => "2-bit IMatrix (extra small)",
            QuantizationType::IQ2_XS => "2-bit IMatrix (small)",
            QuantizationType::IQ3_XXS => "3-bit IMatrix (extra small)",
            QuantizationType::IQ1_S => "1-bit IMatrix (small)",
            QuantizationType::IQ4_NL => "4-bit IMatrix (non-linear)",
            QuantizationType::IQ3_S => "3-bit IMatrix (small)",
            QuantizationType::IQ2_S => "2-bit IMatrix (small)",
            QuantizationType::IQ4_XS => "4-bit IMatrix (extra small)",
            QuantizationType::I8 => "8-bit integer",
            QuantizationType::I16 => "16-bit integer",
            QuantizationType::I32 => "32-bit integer",
            QuantizationType::I64 => "64-bit integer",
            QuantizationType::IQ1_M => "1-bit IMatrix (medium)",
        }
    }
}

/// Mathematical image of a [`TensorInfo`].
pub struct TensorView {
    pub name: Seq<char>,
    pub dimensions: Seq<u64>,
    pub quantization_type: QuantizationType,
    pub offset: u64,
}

/// One tensor descriptor: a name, up to four extents, a storage encoding,
/// and an opaque byte offset into an external data section. The offset is
/// not validated against any real data region.
#[derive(Debug, Clone, PartialEq)]
pub struct TensorInfo {
    pub name: String,
    pub dimensions: Vec<u64>,
    pub quantization_type: QuantizationType,
    pub offset: u64,
}

impl View for TensorInfo {
    type V = TensorView;

    open spec fn view(&self) -> TensorView {
        TensorView {
            name: self.name@,
            dimensions: self.dimensions@,
            quantization_type: self.quantization_type,
            offset: self.offset,
        }
    }
}

/// The images of a sequence of tensor descriptors, element by element.
pub open spec fn tensor_views(s: Seq<TensorInfo>) -> Seq<TensorView> {
    Seq::new(s.len(), |i: int| s[i]@)
}

/// What decoding one tensor descriptor at byte offset `pos` yields: the
/// descriptor and the bytes it occupies, or the first fault. A descriptor
/// is a length-prefixed name, a 32-bit dimension count of at most four,
/// that many 64-bit extents, a 32-bit quantization code from the closed
/// catalog, and a 64-bit offset.
pub open spec fn spec_parse_tensor(bytes: Seq<u8>, pos: int) -> Result<(TensorView, nat), ErrorView> {
    match spec_parse_str(bytes, pos) {
        Err(e) => Err(e),
        Ok(nc) => {
            let p1 = pos + nc.1;
            if p1 + 4 > bytes.len() {
                Err(ErrorView::UnexpectedEof)
            } else {
                let nd = spec_u32_from_le_bytes(bytes.subrange(p1, p1 + 4));
                if nd > 4 {
                    Err(ErrorView::InvalidTensorDimensions)
                } else {
                    let p2 = p1 + 4;
                    if p2 + 8 * nd > bytes.len() {
                        Err(ErrorView::UnexpectedEof)
                    } else {
                        let dims = Seq::new(
                            nd as nat,
                            |j: int| spec_u64_from_le_bytes(
                                bytes.subrange(p2 + 8 * j, p2 + 8 * j + 8),
                            ),
                        );
                        let p3 = p2 + 8 * nd;
                        if p3 + 4 > bytes.len() {
                            Err(ErrorView::UnexpectedEof)
                        } else {
                            let qc = spec_u32_from_le_bytes(bytes.subrange(p3, p3 + 4));
                            match QuantizationType::spec_from_code(qc) {
                                None => Err(ErrorView::InvalidQuantizationType { code: qc }),
                                Some(q) => {
                                    let p4 = p3 + 4;
                                    if p4 + 8 > bytes.len() {
                                        Err(ErrorView::UnexpectedEof)
                                    } else {
                                        Ok(
                                            (
                                                TensorView {
                                                    name: nc.0,
                                                    dimensions: dims,
                                                    quantization_type: q,
                                                    offset: spec_u64_from_le_bytes(
                                                        bytes.subrange(p4, p4 + 8),
                                                    ),
                                                },
                                                (p4 + 8 - pos) as nat,
                                            ),
                                        )
                                    }
                                },
                            }
                        }
                    }
                }
            }
        },
    }
}

/// What decoding `n` consecutive tensor descriptors starting at `pos`
/// yields: the descriptors in order with the total bytes they occupy, or
/// the first fault. Decoding is fail-fast.
pub open spec fn spec_parse_tensors(bytes: Seq<u8>, pos: int, n: int) -> Result<
    (Seq<TensorView>, nat),
    ErrorView,
>
    decreases n,
{
    if n <= 0 {
        Ok((Seq::empty(), 0))
    } else {
        match spec_parse_tensor(bytes, pos) {
            Err(e) => Err(e),
            Ok(tc) => {
                match spec_parse_tensors(bytes, pos + tc.1, n - 1) {
                    Err(e) => Err(e),
                    Ok(rest) => Ok((seq![tc.0] + rest.0, (tc.1 + rest.1) as nat)),
                }
            },
        }
    }
}

impl TensorInfo {
    /// Decodes one tensor descriptor from the source, consuming exactly
    /// the bytes [`spec_parse_tensor`] declares and yielding exactly the
    /// descriptor it declares, or its error.
    fn read_one(r: &mut ByteReader) -> (res: Result<TensorInfo, GgufError>)
        requires
            old(r).wf(),
        ensures
            final(r).bytes() == old(r).bytes(),
            final(r).wf(),
            match spec_parse_tensor(old(r).bytes(), old(r).pos()) {
                Ok(tc) => res is Ok && res->Ok_0@ == tc.0 && final(r).pos() == old(r).pos()
                    + tc.1,
                Err(e) => res is Err && res->Err_0@ == e,
            },
    {
        let ghost bytes0 = old(r).bytes();
        let ghost pos0 = old(r).pos();
        let name = match read_string(r) {
            Ok(s) => s,
            Err(e) => return Err(e),
        };
        let ghost p1 = r.pos();
        let n_dimensions = match r.read_u32_le() {
            Ok(x) => x,
            Err(e) => return Err(e),
        };
        if n_dimensions > 4 {
            return Err(GgufError::InvalidTensorDimensions);
        }
        let ghost p2 = r.pos();
        let ghost spec_dims = Seq::new(
            n_dimensions as nat,
            |j: int| spec_u64_from_le_bytes(bytes0.subrange(p2 + 8 * j, p2 + 8 * j + 8)),
        );
        let mut dimensions: Vec<u64> = Vec::new();
        let mut j: u32 = 0;
        while j < n_dimensions
            invariant
                r.wf(),
                r.bytes() == bytes0,
                bytes0 == old(r).bytes(),
                pos0 == old(r).pos(),
                spec_parse_str(bytes0, pos0) == Ok::<(Seq<char>, nat), ErrorView>(
                    (name@, (p1 - pos0) as nat),
                ),
                pos0 <= p1,
                p1 + 4 <= bytes0.len(),
                n_dimensions == spec_u32_from_le_bytes(bytes0.subrange(p1, p1 + 4)),
                n_dimensions <= 4,
                p2 == p1 + 4,
                j <= n_dimensions,
                p2 + 8 * j == r.pos(),
                r.pos() <= bytes0.len(),
                spec_dims == Seq::new(
                    n_dimensions as nat,
                    |k: int| spec_u64_from_le_bytes(bytes0.subrange(p2 + 8 * k, p2 + 8 * k + 8)),
                ),
                dimensions@.len() == j,
                forall|k: int| 0 <= k < j ==> dimensions@[k] == spec_dims[k],
            decreases n_dimensions - j,
        {
            let d = match r.read_u64_le() {
                Ok(d) => d,
                Err(e) => {
                    proof {
                        assert(p2 + 8 * n_dimensions > bytes0.len());
                    }
                    return Err(e);
                },
            };
            dimensions.push(d);
            j = j + 1;
        }
        proof {
            assert(p2 + 8 * n_dimensions <= bytes0.len());
            assert(dimensions@ =~= spec_dims);
        }
        let qcode = match r.read_u32_le() {
            Ok(x) => x,
            Err(e) => return Err(e),
        };
        let quantization_type = match QuantizationType::from_code(qcode) {
            Ok(q) => q,
            Err(e) => return Err(e),
        };
        let offset = match r.read_u64_le() {
            Ok(x) => x,
            Err(e) => return Err(e),
        };
        Ok(TensorInfo { name, dimensions, quantization_type, offset })
    }

    /// Decodes `tensor_count` tensor descriptors from the source,
    /// consuming exactly the bytes [`spec_parse_tensors`] declares and
    /// yielding exactly the descriptors it declares, or its error.
    pub fn read_all(r: &mut ByteReader, tensor_count: u64) -> (res: Result<
        Vec<TensorInfo>,
        GgufError,
    >)
        requires
            old(r).wf(),
        ensures
            final(r).bytes() == old(r).bytes(),
            final(r).wf(),
            match spec_parse_tensors(old(r).bytes(), old(r).pos(), tensor_count as int) {
                Ok(tc) => res is Ok && tensor_views(res->Ok_0@) == tc.0 && final(r).pos() == old(
                    r,
                ).pos() + tc.1,
                Err(e) => res is Err && res->Err_0@ == e,
            },
    {
        let ghost bytes0 = old(r).bytes();
        let ghost pos0 = old(r).pos();
        let mut tensors: Vec<TensorInfo> = Vec::new();
        let mut i: u64 = 0;
        proof {
            if let Ok(tc) = spec_parse_tensors(bytes0, pos0, tensor_count as int) {
                assert(tensor_views(tensors@) + tc.0 =~= tc.0);
            }
        }
        while i < tensor_count
            invariant
                r.wf(),
                r.bytes() == bytes0,
                bytes0 == old(r).bytes(),
                pos0 == old(r).pos(),
                pos0 <= r.pos(),
                i <= tensor_count,
                match spec_parse_tensors(bytes0, r.pos(), tensor_count - i) {
                    Ok(tc) => spec_parse_tensors(bytes0, pos0, tensor_count as int) == Ok::<
                        (Seq<TensorView>, nat),
                        ErrorView,
                    >((tensor_views(tensors@) + tc.0, ((r.pos() - pos0) + tc.1) as nat)),
                    Err(e) => spec_parse_tensors(bytes0, pos0, tensor_count as int) == Err::<
                        (Seq<TensorView>, nat),
                        ErrorView,
                    >(e),
                },
            decreases tensor_count - i,
        {
            let ghost cur = r.pos();
            let t = match TensorInfo::read_one(r) {
                Ok(t) => t,
                Err(e) => {
                    return Err(e);
                },
            };
            proof {
                let tc1 = spec_parse_tensor(bytes0, cur)->Ok_0;
                if let Ok(tc2) = spec_parse_tensors(bytes0, r.pos(), tensor_count - (i + 1)) {
                    assert(tensor_views(tensors@.push(t)) =~= tensor_views(tensors@).push(t@));
                    assert(tensor_views(tensors@) + (seq![tc1.0] + tc2.0) =~= tensor_views(
                        tensors@.push(t),
                    ) + tc2.0);
                }
            }
            tensors.push(t);
            i = i + 1;
        }
        proof {
            assert(tensor_views(tensors@) + Seq::<TensorView>::empty() =~= tensor_views(
                tensors@,
            ));
        }
        Ok(tensors)
    }
}

/// The product of a sequence of extents; one for the empty sequence.
pub open spec fn spec_prod(dims: Seq<u64>) -> int
    decreases dims.len(),
{
    if dims.len() == 0 {
        1
    } else {
        spec_prod(dims.drop_last()) * dims.last()
    }
}

/// A zero extent empties the whole product.
proof fn lemma_prod_zero(dims: Seq<u64>, k: int)
    requires
        0 <= k < dims.len(),
        dims[k] == 0,
    ensures
        spec_prod(dims) == 0,
    decreases dims.len(),
{
    if k == dims.len() - 1 {
        assert(dims.last() == 0);
        assert(spec_prod(dims.drop_last()) * 0 == 0) by (nonlinear_arith);
    } else {
        assert(dims.drop_last()[k] == dims[k]);
        lemma_prod_zero(dims.drop_last(), k);
        assert(0 * dims.last() == 0) by (nonlinear_arith);
    }
}

/// With every extent at least one, the product only grows as extents are
/// taken in.
proof fn lemma_prod_mono(dims: Seq<u64>, i: int)
    requires
        forall|k: int| 0 <= k < dims.len() ==> (#[trigger] dims[k]) >= 1,
        0 <= i <= dims.len(),
    ensures
        1 <= spec_prod(dims.take(i)) <= spec_prod(dims),
    decreases dims.len() - i,
{
    if i == 0 {
        assert(dims.take(0) =~= Seq::<u64>::empty());
        lemma_prod_mono_rest(dims, 0);
    } else {
        lemma_prod_mono_rest(dims, 0);
        lemma_prod_take_pos(dims, i);
        lemma_prod_mono_rest(dims, i);
    }
}

/// With every extent at least one, every prefix product is at least one.
proof fn lemma_prod_take_pos(dims: Seq<u64>, i: int)
    requires
        forall|k: int| 0 <= k < dims.len() ==> (#[trigger] dims[k]) >= 1,
        0 <= i <= dims.len(),
    ensures
        spec_prod(dims.take(i)) >= 1,
    decreases i,
{
    if i == 0 {
        assert(dims.take(0) =~= Seq::<u64>::empty());
    } else {
        let t = dims.take(i);
        assert(t.drop_last() =~= dims.take(i - 1));
        lemma_prod_take_pos(dims, i - 1);
        assert(spec_prod(t) == spec_prod(dims.take(i - 1)) * dims[i - 1]);
        assert(spec_prod(dims.take(i - 1)) * dims[i - 1] >= 1) by (nonlinear_arith)
            requires
                spec_prod(dims.take(i - 1)) >= 1,
                dims[i - 1] >= 1,
        ;
    }
}

/// With every extent at least one, the product of a prefix never exceeds
/// the product of the whole sequence.
proof fn lemma_prod_mono_rest(dims: Seq<u64>, i: int)
    requires
        forall|k: int| 0 <= k < dims.len() ==> (#[trigger] dims[k]) >= 1,
        0 <= i <= dims.len(),
    ensures
        spec_prod(dims.take(i)) <= spec_prod(dims),
    decreases dims.len() - i,
{
    if i < dims.len() {
        let t = dims.take(i + 1);
        assert(t.drop_last() =~= dims.take(i));
        lemma_prod_take_pos(dims, i);
        assert(spec_prod(t) == spec_prod(dims.take(i)) * dims[i]);
        assert(spec_prod(dims.take(i)) * dims[i] >= spec_prod(dims.take(i))) by (nonlinear_arith)
            requires
                spec_prod(dims.take(i)) >= 1,
                dims[i] >= 1,
        ;
        lemma_prod_mono_rest(dims, i + 1);
    } else {
        assert(dims.take(i) =~= dims);
    }
}

/// Every encoding stores at least one and a half bits per weight, and at
/// most sixty-four.
proof fn lemma_bits_range(q: QuantizationType)
    ensures
        25 <= q.spec_bits_per_weight_x16() <= 1024,
{
}

/// How many bytes a tensor's data occupies: the product of its extents
/// times its bits per weight, divided by eight and rounded up to a whole
/// byte; zero for an empty extent list. Computed over unbounded integers.
pub open spec fn spec_size_bytes(t: TensorView) -> int {
    if t.dimensions.len() == 0 {
        0
    } else {
        (spec_prod(t.dimensions) * t.quantization_type.spec_bits_per_weight_x16() + 127) / 128
    }
}

/// A tensor with an empty extent list occupies no bytes, whatever its
/// storage encoding.
pub proof fn lemma_empty_dimensions_size_zero(t: TensorView)
    requires
        t.dimensions.len() == 0,
    ensures
        spec_size_bytes(t) == 0,
{
}

impl TensorInfo {
    /// This tensor's data size in bytes, exactly as [`spec_size_bytes`]
    /// gives it; a size beyond the 64-bit range saturates at the maximum.
    pub fn size_bytes(&self) -> (r: u64)
        ensures
            spec_size_bytes(self@) <= u64::MAX ==> r == spec_size_bytes(self@),
            spec_size_bytes(self@) > u64::MAX ==> r == u64::MAX,
    {
        let nd = self.dimensions.len();
        if nd == 0 {
            return 0;
        }
        let mut i: usize = 0;
        while i < nd
            invariant
                i <= nd,
                nd == self.dimensions@.len(),
                forall|k: int| 0 <= k < i ==> (#[trigger] self.dimensions@[k]) >= 1,
            decreases nd - i,
        {
            if self.dimensions[i] == 0 {
                proof {
                    lemma_prod_zero(self.dimensions@, i as int);
                }
                return 0;
            }
            i = i + 1;
        }
        let mut p: u128 = 1;
        let mut j: usize = 0;
        proof {
            assert(self.dimensions@.take(0) =~= Seq::<u64>::empty());
        }
        while j < nd
            invariant
                j <= nd,
                nd == self.dimensions@.len(),
                forall|k: int| 0 <= k < nd ==> (#[trigger] self.dimensions@[k]) >= 1,
                p == spec_prod(self.dimensions@.take(j as int)),
            decreases nd - j,
        {
            let d = self.dimensions[j];
            let ghost taken = self.dimensions@.take(j + 1);
            proof {
                assert(taken.drop_last() =~= self.dimensions@.take(j as int));
                assert(spec_prod(taken) == p * d);
            }
            p = match p.checked_mul(d as u128) {
                Some(x) => x,
                None => {
                    // the true product no longer fits even 128 bits, so the
                    // byte size is far past the 64-bit range
                    proof {
                        lemma_prod_mono(self.dimensions@, j + 1);
                        let b = self.quantization_type.spec_bits_per_weight_x16();
                        lemma_bits_range(self.quantization_type);
                        assert(spec_prod(self.dimensions@) * b > u128::MAX * 25) by (
                        nonlinear_arith)
                            requires
                                spec_prod(self.dimensions@) > u128::MAX,
                                b >= 25,
                        ;
                    }
                    return u64::MAX;
                },
            };
            j = j + 1;
        }
        proof {
            assert(self.dimensions@.take(nd as int) =~= self.dimensions@);
        }
        let bb = self.quantization_type.bits_per_weight_x16() as u128;
        proof {
            lemma_bits_range(self.quantization_type);
        }
        // the largest product whose rounded byte count still fits in 64 bits
        let cap: u128 = 128 * (u64::MAX as u128);
        if p <= cap / bb {
            proof {
                assert(p * bb <= cap) by (nonlinear_arith)
                    requires
                        25 <= bb,
                        0 <= p <= cap / bb,
                        cap >= 0,
                ;
            }
            ((p * bb + 127) / 128) as u64
        } else {
            proof {
                assert(p * bb > cap) by (nonlinear_arith)
                    requires
                        25 <= bb,
                        p > cap / bb,
                        cap >= 0,
                ;
            }
            u64::MAX
        }
    }
}

/// The extents joined by a comma and a space, each rendered in decimal.
pub open spec fn spec_dims_join(dims: Seq<u64>) -> Seq<char>
    decreases dims.len(),
{
    if dims.len() == 0 {
        Seq::empty()
    } else if dims.len() == 1 {
        spec_dec_digits(dims[0] as int)
    } else {
        spec_dims_join(dims.drop_last()) + ", "@ + spec_dec_digits(dims.last() as int)
    }
}

/// The rendering of a shape: the joined extents between square brackets.
pub open spec fn spec_shape_string(dims: Seq<u64>) -> Seq<char> {
    "["@ + spec_dims_join(dims) + "]"@
}

/// True when the name carries one of the substrings that mark a learned
/// parameter tensor by naming convention.
pub open spec fn spec_is_weight_tensor(name: Seq<char>) -> bool {
    ||| contains_seq(name, "weight"@)
    ||| contains_seq(name, "embed"@)
    ||| contains_seq(name, "norm"@)
    ||| contains_seq(name, "attn"@)
    ||| contains_seq(name, "ffn"@)
    ||| contains_seq(name, "mlp"@)
}

/// The layer index taken from a name of the shape `<prefix><N>.<rest>`:
/// the characters between the first occurrence of the prefix and the next
/// dot, parsed as an unsigned 32-bit decimal number.
pub open spec fn spec_layer_from(name: Seq<char>, prefix: Seq<char>) -> Option<u32> {
    match find_idx(name, prefix, 0) {
        None => None,
        Some(p) => {
            let start = p + prefix.len();
            match find_char_idx(name, '.', start) {
                None => None,
                Some(d) => spec_parse_u32(name.subrange(start, d)),
            }
        },
    }
}

/// The layer index of a tensor name: the `layers.` convention is tried
/// first, and only if it yields nothing is the `blocks.` convention tried.
pub open spec fn spec_layer_number(name: Seq<char>) -> Option<u32> {
    if spec_layer_from(name, "layers."@) is Some {
        spec_layer_from(name, "layers."@)
    } else {
        spec_layer_from(name, "blocks."@)
    }
}

/// A found character index lies between the search start and the end of
/// the text, and holds the sought character.
proof fn lemma_find_char_idx_bounds(hay: Seq<char>, c: char, from: int)
    requires
        from >= 0,
    ensures
        match find_char_idx(hay, c, from) {
            Some(i) => from <= i < hay.len() && hay[i] == c,
            None => true,
        },
    decreases hay.len() - from,
{
    if 0 <= from < hay.len() && hay[from] != c {
        lemma_find_char_idx_bounds(hay, c, from + 1);
    }
}

fn layer_from(name: &str, prefix: &str) -> (r: Option<u32>)
    ensures
        r == spec_layer_from(name@, prefix@),
{
    proof {
        crate::text::lemma_find_idx(name@, prefix@, 0);
        lemma_find_char_idx_bounds(name@, '.', 0);
    }
    let hl = name.unicode_len();
    let p = match find_sub(name, prefix) {
        Some(p) => p,
        None => return None,
    };
    let start = p + prefix.unicode_len();
    proof {
        assert(start <= hl);
    }
    proof {
        lemma_find_char_idx_bounds(name@, '.', start as int);
    }
    let d = match find_char_from(name, '.', start) {
        Some(d) => d,
        None => return None,
    };
    parse_u32_in(name, start, d)
}

impl TensorInfo {
    /// Renders this tensor's extents as a bracketed, comma-separated list.
    pub fn shape_string(&self) -> (r: String)
        ensures
            r@ == spec_shape_string(self.dimensions@),
    {
        let mut s = "[".to_owned();
        let n = self.dimensions.len();
        let mut i: usize = 0;
        proof {
            assert(self.dimensions@.take(0) =~= Seq::<u64>::empty());
            assert(s@ + Seq::<char>::empty() =~= s@);
        }
        while i < n
            invariant
                i <= n,
                n == self.dimensions@.len(),
                s@ == "["@ + spec_dims_join(self.dimensions@.take(i as int)),
            decreases n - i,
        {
            if i > 0 {
                s.append(", ");
            }
            let ds = u64_to_dec_string(self.dimensions[i]);
            s.append(ds.as_str());
            proof {
                let t = self.dimensions@.take(i + 1);
                if i == 0 {
                    assert(t[0] == self.dimensions@[0]);
                    assert(spec_dims_join(t) == spec_dec_digits(t[0] as int));
                    assert(s@ =~= "["@ + spec_dims_join(t));
                } else {
                    assert(t.drop_last() =~= self.dimensions@.take(i as int));
                    assert(t.last() == self.dimensions@[i as int]);
                    assert(s@ =~= "["@ + spec_dims_join(t));
                }
            }
            i = i + 1;
        }
        s.append("]");
        proof {
            assert(self.dimensions@.take(n as int) =~= self.dimensions@);
            assert(s@ =~= spec_shape_string(self.dimensions@));
        }
        s
    }

    /// True when the name marks a learned-parameter tensor by the naming
    /// convention; this is a heuristic, not a structural guarantee.
    pub fn is_weight_tensor(&self) -> (r: bool)
        ensures
            r == spec_is_weight_tensor(self.name@),
    {
        str_contains(self.name.as_str(), "weight") || str_contains(self.name.as_str(), "embed")
            || str_contains(self.name.as_str(), "norm") || str_contains(
            self.name.as_str(),
            "attn",
        ) || str_contains(self.name.as_str(), "ffn") || str_contains(self.name.as_str(), "mlp")
    }

    /// The layer index encoded in this tensor's name, if the name follows
    /// the `layers.<N>.<rest>` or `blocks.<N>.<rest>` convention.
    pub fn layer_number(&self) -> (r: Option<u32>)
        ensures
            r == spec_layer_number(self.name@),
    {
        match layer_from(self.name.as_str(), "layers.") {
            Some(v) => Some(v),
            None => layer_from(self.name.as_str(), "blocks."),
        }
    }
}

} // verus!
