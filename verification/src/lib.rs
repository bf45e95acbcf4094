use vstd::prelude::*;

mod error;
mod header;
mod metadata;
mod source;
mod tensor;
mod text;
mod types;

pub use error::{ErrorView, GgufError};
pub use header::{GgufHeader, HeaderView, spec_magic, spec_parse_header, HEADER_SIZE, SUPPORTED_VERSION};
pub use metadata::{GgufMetadata, ModelConfig, ConfigView, map_of, kv_views, spec_parse_kv, spec_parse_kvs, spec_get_str, spec_get_u32, spec_get_u64, spec_get_f32_bits, spec_model_config, spec_param_count, spec_param_count_fits, spec_is_supported_architecture, spec_vocab_size, spec_context_length, spec_req_u32, spec_opt_u32, spec_opt_f32_bits, spec_opt_str, lookup_list, lemma_lookup_map};
pub use source::ByteReader;
pub use tensor::{QuantizationType, TensorInfo, TensorView, spec_parse_tensor, spec_parse_tensors, tensor_views, spec_prod, spec_size_bytes, spec_dims_join, spec_shape_string, spec_is_weight_tensor, spec_layer_from, spec_layer_number, lemma_empty_dimensions_size_zero};
pub use text::{contains_seq, matches_at, find_idx, find_char_idx, lemma_find_idx, spec_dec_digits, spec_parse_u32, u64_to_dec_string, str_contains, str_eq_chars, find_sub, find_char_from, parse_u32_in};
pub use types::{GgufValue, GgufValueType, ValueView, spec_parse_value, spec_parse_elems, spec_parse_str, views_of, lemma_views_of_index, lemma_views_of_push, spec_kind_name, spec_as_u32, spec_as_u64, spec_as_str, spec_as_f32_bits, spec_mismatch, spec_i8_from_byte, spec_i16_from_u16, spec_i32_from_u32, spec_i64_from_u64, lemma_widen_narrow_round_trip};

verus! {

broadcast use vstd::std_specs::vec::group_vec_axioms, vstd::seq::group_seq_axioms, crate::source::ByteReader::lemma_pos_nonneg, crate::source::ByteReader::lemma_wf_pos;

/// Mathematical image of a [`GgufFile`].
pub struct FileView {
    pub header: HeaderView,
    pub metadata: Map<Seq<char>, ValueView>,
    pub tensors: Seq<TensorView>,
}

/// A fully decoded file: the preamble, the metadata store, and the tensor
/// descriptor table, built in one pass over a byte source. Decoding either
/// fully succeeds or yields no partial structure.
#[derive(Debug, PartialEq)]
pub struct GgufFile {
    pub header: GgufHeader,
    pub metadata: GgufMetadata,
    pub tensors: Vec<TensorInfo>,
}

impl View for GgufFile {
    type V = FileView;

    open spec fn view(&self) -> FileView {
        FileView {
            header: self.header@,
            metadata: self.metadata@,
            tensors: tensor_views(self.tensors@),
        }
    }
}

/// What decoding a whole file at byte offset `pos` yields: the preamble,
/// then as many metadata entries and tensor descriptors as the preamble
/// declares, or the first fault. Trailing bytes beyond the descriptor
/// table are left unread.
pub open spec fn spec_parse_file(bytes: Seq<u8>, pos: int) -> Result<(FileView, int), ErrorView> {
    match spec_parse_header(bytes, pos) {
        Err(e) => Err(e),
        Ok(hc) => {
            match spec_parse_kvs(bytes, pos + hc.1, hc.0.metadata_kv_count as int) {
                Err(e) => Err(e),
                Ok(kc) => {
                    match spec_parse_tensors(
                        bytes,
                        pos + hc.1 + kc.1,
                        hc.0.tensor_count as int,
                    ) {
                        Err(e) => Err(e),
                        Ok(tc) => Ok(
                            (
                                FileView {
                                    header: hc.0,
                                    metadata: map_of(kc.0),
                                    tensors: tc.0,
                                },
                                hc.1 + kc.1 + tc.1,
                            ),
                        ),
                    }
                },
            }
        },
    }
}

/// The byte sizes of a run of tensors, summed over unbounded integers.
pub open spec fn spec_total_size(ts: Seq<TensorView>) -> int
    decreases ts.len(),
{
    if ts.len() == 0 {
        0
    } else {
        spec_total_size(ts.drop_last()) + spec_size_bytes(ts.last())
    }
}

impl GgufFile {
    /// Decodes a whole file from the source, consuming exactly the bytes
    /// [`spec_parse_file`] declares and yielding exactly the structure it
    /// declares, or its error.
    pub fn from_reader(r: &mut ByteReader) -> (res: Result<GgufFile, GgufError>)
        requires
            old(r).wf(),
        ensures
            final(r).bytes() == old(r).bytes(),
            final(r).wf(),
            match spec_parse_file(old(r).bytes(), old(r).pos()) {
                Ok(fc) => res is Ok && res->Ok_0@ == fc.0 && final(r).pos() == old(r).pos()
                    + fc.1,
                Err(e) => res is Err && res->Err_0@ == e,
            },
    {
        let header = match GgufHeader::read(r) {
            Ok(h) => h,
            Err(e) => return Err(e),
        };
        let metadata = match GgufMetadata::read(r, header.metadata_kv_count) {
            Ok(m) => m,
            Err(e) => return Err(e),
        };
        let tensors = match TensorInfo::read_all(r, header.tensor_count) {
            Ok(t) => t,
            Err(e) => return Err(e),
        };
        Ok(GgufFile { header, metadata, tensors })
    }

    /// Resolves the model configuration from the decoded metadata.
    pub fn model_config(&self) -> (res: Result<ModelConfig, GgufError>)
        ensures
            match spec_model_config(self@.metadata) {
                Ok(cv) => res is Ok && res->Ok_0@ == cv,
                Err(e) => res is Err && res->Err_0@ == e,
            },
    {
        ModelConfig::from_metadata(&self.metadata)
    }

    /// The summed data size of all tensors in bytes, exactly as
    /// [`spec_total_size`] gives it; a sum beyond the 64-bit range
    /// saturates at the maximum.
    pub fn total_size(&self) -> (r: u64)
        ensures
            spec_total_size(self@.tensors) <= u64::MAX ==> r == spec_total_size(self@.tensors),
            spec_total_size(self@.tensors) > u64::MAX ==> r == u64::MAX,
    {
        let ghost tv = tensor_views(self.tensors@);
        let n = self.tensors.len();
        let mut acc: u64 = 0;
        let mut i: usize = 0;
        proof {
            assert(tv.take(0) =~= Seq::<TensorView>::empty());
        }
        while i < n
            invariant
                i <= n,
                n == self.tensors@.len(),
                tv == tensor_views(self.tensors@),
                spec_total_size(tv.take(i as int)) <= u64::MAX ==> acc == spec_total_size(
                    tv.take(i as int),
                ),
                spec_total_size(tv.take(i as int)) > u64::MAX ==> acc == u64::MAX,
            decreases n - i,
        {
            let s = self.tensors[i].size_bytes();
            proof {
                let t = tv.take(i + 1);
                assert(t.drop_last() =~= tv.take(i as int));
                assert(t.last() == tv[i as int]);
                assert(tv[i as int] == self.tensors@[i as int]@);
            }
            if s > u64::MAX - acc {
                acc = u64::MAX;
            } else {
                acc = acc + s;
            }
            i = i + 1;
        }
        proof {
            assert(tv.take(n as int) =~= tv);
        }
        acc
    }

    /// True when any tensor uses a quantized storage encoding.
    pub fn is_quantized(&self) -> (r: bool)
        ensures
            r == exists|j: int|
                0 <= j < self@.tensors.len() && (#[trigger] self@.tensors[j]).quantization_type
                    .spec_is_quantized(),
    {
        let n = self.tensors.len();
        let mut i: usize = 0;
        while i < n
            invariant
                i <= n,
                n == self.tensors@.len(),
                forall|j: int|
                    0 <= j < i ==> !(#[trigger] tensor_views(self.tensors@)[j]).quantization_type
                        .spec_is_quantized(),
            decreases n - i,
        {
            if self.tensors[i].quantization_type.is_quantized() {
                proof {
                    assert(tensor_views(self.tensors@)[i as int].quantization_type
                        .spec_is_quantized());
                }
                return true;
            }
            i = i + 1;
        }
        false
    }

    /// The quantization encodings in use, each exactly once, in strictly
    /// increasing code order.
    #[verifier::rlimit(100)]
    pub fn quantization_types(&self) -> (r: Vec<QuantizationType>)
        ensures
            forall|a: int, b: int|
                0 <= a < b < r@.len() ==> (#[trigger] r@[a]).spec_code() < (
                #[trigger] r@[b]).spec_code(),
            forall|a: int|
                0 <= a < r@.len() ==> uses_encoding(
                    self@.tensors,
                    self@.tensors.len() as int,
                    #[trigger] r@[a],
                ),
            forall|j: int|
                0 <= j < self@.tensors.len() ==> lists_encoding(
                    r@,
                    (#[trigger] self@.tensors[j]).quantization_type,
                ),
    {
        let ghost tv = tensor_views(self.tensors@);
        let n = self.tensors.len();
        let mut out: Vec<QuantizationType> = Vec::new();
        let mut i: usize = 0;
        while i < n
            invariant
                i <= n,
                n == self.tensors@.len(),
                tv == tensor_views(self.tensors@),
                forall|a: int, b: int|
                    0 <= a < b < out@.len() ==> (#[trigger] out@[a]).spec_code() < (
                    #[trigger] out@[b]).spec_code(),
                forall|a: int|
                    0 <= a < out@.len() ==> uses_encoding(tv, i as int, #[trigger] out@[a]),
                forall|j: int|
                    0 <= j < i ==> lists_encoding(
                        out@,
                        (#[trigger] tv[j]).quantization_type,
                    ),
            decreases n - i,
        {
            let q = self.tensors[i].quantization_type;
            proof {
                assert(tv[i as int] == self.tensors@[i as int]@);
            }
            let qc = q.code();
            let m = out.len();
            let mut k: usize = 0;
            while k < m && out[k].code() < qc
                invariant
                    k <= m,
                    m == out@.len(),
                    qc == q.spec_code(),
                    forall|a: int| 0 <= a < k ==> (#[trigger] out@[a]).spec_code() < qc,
                    forall|a: int, b: int|
                        0 <= a < b < out@.len() ==> (#[trigger] out@[a]).spec_code() < (
                        #[trigger] out@[b]).spec_code(),
                decreases m - k,
            {
                k = k + 1;
            }
            if k < m && out[k].code() == qc {
                // this encoding is already listed
                proof {
                    lemma_code_injective(out@[k as int], q);
                    assert(out@[k as int] == tv[i as int].quantization_type);
                    assert(lists_encoding(out@, tv[i as int].quantization_type));
                    lemma_uses_grows(tv, i as int, out@);
                }
            } else {
                let ghost old_out = out@;
                proof {
                    assert forall|a: int|
                        k <= a < old_out.len() implies (#[trigger] old_out[a]).spec_code()
                        > qc by {
                        assert(old_out[k as int].spec_code() > qc);
                    }
                }
                out.insert(k, q);
                proof {
                    assert(out@ == old_out.insert(k as int, q));
                    lemma_insert_sorted(old_out, q, k as int);
                    lemma_insert_listed(old_out, q, k as int, tv, i as int);
                    lemma_insert_covers(old_out, q, k as int, tv, i as int);
                }
            }
            i = i + 1;
        }
        proof {
            assert(self@.tensors == tv);
        }
        out
    }
}

/// True when one of the first `n` tensors uses encoding `q`.
pub open spec fn uses_encoding(ts: Seq<TensorView>, n: int, q: QuantizationType) -> bool {
    exists|j: int| 0 <= j < n && (#[trigger] ts[j]).quantization_type == q
}

/// True when `q` occurs in the list of encodings.
pub open spec fn lists_encoding(s: Seq<QuantizationType>, q: QuantizationType) -> bool {
    exists|a: int| 0 <= a < s.len() && (#[trigger] s[a]) == q
}

/// An encoding used among the first `i` tensors is used among the first
/// `i + 1` as well.
proof fn lemma_uses_grows(tv: Seq<TensorView>, i: int, s: Seq<QuantizationType>)
    requires
        forall|a: int| 0 <= a < s.len() ==> uses_encoding(tv, i, #[trigger] s[a]),
    ensures
        forall|a: int| 0 <= a < s.len() ==> uses_encoding(tv, i + 1, #[trigger] s[a]),
{
    assert forall|a: int| 0 <= a < s.len() implies uses_encoding(tv, i + 1, #[trigger] s[a]) by {
        let j0 = choose|j0: int| 0 <= j0 < i && (#[trigger] tv[j0]).quantization_type == s[a];
        assert(0 <= j0 < i + 1 && tv[j0].quantization_type == s[a]);
    }
}

/// Two encodings with the same numeric code are the same encoding.
#[verifier::spinoff_prover]
proof fn lemma_code_injective(a: QuantizationType, b: QuantizationType)
    requires
        a.spec_code() == b.spec_code(),
    ensures
        a == b,
{
    reveal(QuantizationType::spec_code);
}

/// Inserting an element keeps a list strictly sorted by code when every
/// earlier element's code is below and every later element's code above.
#[verifier::spinoff_prover]
proof fn lemma_insert_sorted(old_out: Seq<QuantizationType>, q: QuantizationType, k: int)
    requires
        0 <= k <= old_out.len(),
        forall|a: int, b: int|
            0 <= a < b < old_out.len() ==> (#[trigger] old_out[a]).spec_code() < (
            #[trigger] old_out[b]).spec_code(),
        forall|a: int| 0 <= a < k ==> (#[trigger] old_out[a]).spec_code() < q.spec_code(),
        forall|a: int| k <= a < old_out.len() ==> (#[trigger] old_out[a]).spec_code()
            > q.spec_code(),
    ensures
        forall|a: int, b: int|
            0 <= a < b < old_out.insert(k, q).len() ==> (#[trigger] old_out.insert(k, q)[a])
                .spec_code() < (#[trigger] old_out.insert(k, q)[b]).spec_code(),
{
    old_out.insert_ensures(k, q);
    let new_out = old_out.insert(k, q);
    assert forall|a: int, b: int|
        0 <= a < b < new_out.len() implies (#[trigger] new_out[a]).spec_code() < (
    #[trigger] new_out[b]).spec_code() by {
        if b < k {
        } else if b == k {
            assert(new_out[a] == old_out[a]);
        } else if a == k {
            assert(new_out[b] == old_out[b - 1]);
        } else if a < k {
            assert(new_out[a] == old_out[a]);
            assert(new_out[b] == old_out[b - 1]);
            assert(old_out[a].spec_code() < q.spec_code());
            assert(old_out[b - 1].spec_code() > q.spec_code());
        } else {
            assert(new_out[a] == old_out[a - 1]);
            assert(new_out[b] == old_out[b - 1]);
        }
    }
}

/// After the insertion, every listed encoding is still the encoding of
/// some tensor already seen.
#[verifier::spinoff_prover]
proof fn lemma_insert_listed(
    old_out: Seq<QuantizationType>,
    q: QuantizationType,
    k: int,
    tv: Seq<TensorView>,
    i: int,
)
    requires
        0 <= k <= old_out.len(),
        0 <= i < tv.len(),
        q == tv[i].quantization_type,
        forall|a: int| 0 <= a < old_out.len() ==> uses_encoding(tv, i, #[trigger] old_out[a]),
    ensures
        forall|a: int|
            0 <= a < old_out.insert(k, q).len() ==> uses_encoding(
                tv,
                i + 1,
                #[trigger] old_out.insert(k, q)[a],
            ),
{
    old_out.insert_ensures(k, q);
    let new_out = old_out.insert(k, q);
    assert forall|a: int| 0 <= a < new_out.len() implies uses_encoding(
        tv,
        i + 1,
        #[trigger] new_out[a],
    ) by {
        if a == k {
            assert(tv[i].quantization_type == new_out[a]);
        } else if a < k {
            assert(new_out[a] == old_out[a]);
            let j0 = choose|j0: int|
                0 <= j0 < i && (#[trigger] tv[j0]).quantization_type == old_out[a];
            assert(tv[j0].quantization_type == new_out[a]);
        } else {
            assert(new_out[a] == old_out[a - 1]);
            let j0 = choose|j0: int|
                0 <= j0 < i && (#[trigger] tv[j0]).quantization_type == old_out[a - 1];
            assert(tv[j0].quantization_type == new_out[a]);
        }
    }
}

/// After the insertion, every tensor seen so far still has its encoding
/// listed.
#[verifier::spinoff_prover]
proof fn lemma_insert_covers(
    old_out: Seq<QuantizationType>,
    q: QuantizationType,
    k: int,
    tv: Seq<TensorView>,
    i: int,
)
    requires
        0 <= k <= old_out.len(),
        0 <= i < tv.len(),
        q == tv[i].quantization_type,
        forall|j: int|
            0 <= j < i ==> lists_encoding(old_out, (#[trigger] tv[j]).quantization_type),
    ensures
        forall|j: int|
            0 <= j < i + 1 ==> lists_encoding(
                old_out.insert(k, q),
                (#[trigger] tv[j]).quantization_type,
            ),
{
    old_out.insert_ensures(k, q);
    let new_out = old_out.insert(k, q);
    assert forall|j: int| 0 <= j < i + 1 implies lists_encoding(
        new_out,
        (#[trigger] tv[j]).quantization_type,
    ) by {
        if j == i {
            assert(new_out[k] == tv[i].quantization_type);
        } else {
            let qj = tv[j].quantization_type;
            let a0 = choose|a0: int| 0 <= a0 < old_out.len() && (#[trigger] old_out[a0]) == qj;
            if a0 < k {
                assert(new_out[a0] == tv[j].quantization_type);
            } else {
                assert(new_out[a0 + 1] == tv[j].quantization_type);
            }
        }
    }
}

} // verus!
