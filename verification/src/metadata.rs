use vstd::prelude::*;
use vstd::bytes::spec_u32_from_le_bytes;
use vstd::string::StringExecFns;
use crate::error::{ErrorView, GgufError};
use crate::source::ByteReader;
use crate::text::str_eq_chars;
use crate::types::{
    read_string, spec_as_f32_bits, spec_as_str, spec_as_u32, spec_as_u64, spec_kind_name,
    spec_parse_str, spec_parse_value, GgufValue, GgufValueType, ValueView,
};

verus! {

broadcast use vstd::std_specs::vec::group_vec_axioms, vstd::seq::group_seq_axioms, vstd::map::group_map_axioms, crate::source::ByteReader::lemma_pos_nonneg, crate::source::ByteReader::lemma_wf_pos;

/// The key and value images of a list of stored entries, in order.
pub open spec fn kv_views(s: Seq<(String, GgufValue)>) -> Seq<(Seq<char>, ValueView)> {
    Seq::new(s.len(), |i: int| (s[i].0@, s[i].1@))
}

/// The mapping an entry list denotes: on a repeated key the last write
/// wins, as in any ordinary map built by repeated insertion.
pub open spec fn map_of(s: Seq<(Seq<char>, ValueView)>) -> Map<Seq<char>, ValueView>
    decreases s.len(),
{
    if s.len() == 0 {
        Map::empty()
    } else {
        map_of(s.drop_last()).insert(s.last().0, s.last().1)
    }
}

/// The value of the last entry carrying the key, if any.
pub open spec fn lookup_list(s: Seq<(Seq<char>, ValueView)>, k: Seq<char>) -> Option<ValueView>
    decreases s.len(),
{
    if s.len() == 0 {
        None
    } else if s.last().0 == k {
        Some(s.last().1)
    } else {
        lookup_list(s.drop_last(), k)
    }
}

/// Looking a key up in the denoted map is looking for the last entry that
/// carries it.
pub proof fn lemma_lookup_map(s: Seq<(Seq<char>, ValueView)>, k: Seq<char>)
    ensures
        map_of(s).contains_key(k) == (lookup_list(s, k) is Some),
        lookup_list(s, k) is Some ==> map_of(s)[k] == lookup_list(s, k)->0,
    decreases s.len(),
{
    if s.len() > 0 {
        lemma_lookup_map(s.drop_last(), k);
    }
}

/// The key-to-value store of the metadata section, built by decoding the
/// declared number of entries in order; a repeated key keeps its last
/// value.
#[derive(Debug, PartialEq)]
pub struct GgufMetadata {
    entries: Vec<(String, GgufValue)>,
}

impl View for GgufMetadata {
    type V = Map<Seq<char>, ValueView>;

    closed spec fn view(&self) -> Map<Seq<char>, ValueView> {
        map_of(kv_views(self.entries@))
    }
}

/// What decoding one metadata entry at byte offset `pos` yields: a
/// length-prefixed UTF-8 key, a 32-bit value-type tag from the closed set,
/// and one value of that type.
pub open spec fn spec_parse_kv(bytes: Seq<u8>, pos: int) -> Result<
    ((Seq<char>, ValueView), nat),
    ErrorView,
> {
    match spec_parse_str(bytes, pos) {
        Err(e) => Err(e),
        Ok(kc) => {
            let p1 = pos + kc.1;
            if p1 + 4 > bytes.len() {
                Err(ErrorView::UnexpectedEof)
            } else {
                let tag = spec_u32_from_le_bytes(bytes.subrange(p1, p1 + 4));
                match GgufValueType::spec_from_code(tag) {
                    None => Err(ErrorView::InvalidValueType { tag }),
                    Some(t) => {
                        match spec_parse_value(bytes, p1 + 4, t) {
                            Err(e) => Err(e),
                            Ok(vc) => Ok(((kc.0, vc.0), (kc.1 + 4 + vc.1) as nat)),
                        }
                    },
                }
            }
        },
    }
}

/// What decoding `n` consecutive metadata entries starting at `pos`
/// yields: the entries in order with the total bytes they occupy, or the
/// first fault. Decoding is fail-fast.
pub open spec fn spec_parse_kvs(bytes: Seq<u8>, pos: int, n: int) -> Result<
    (Seq<(Seq<char>, ValueView)>, nat),
    ErrorView,
>
    decreases n,
{
    if n <= 0 {
        Ok((Seq::empty(), 0))
    } else {
        match spec_parse_kv(bytes, pos) {
            Err(e) => Err(e),
            Ok(kc) => {
                match spec_parse_kvs(bytes, pos + kc.1, n - 1) {
                    Err(e) => Err(e),
                    Ok(rest) => Ok((seq![kc.0] + rest.0, (kc.1 + rest.1) as nat)),
                }
            },
        }
    }
}

fn read_kv(r: &mut ByteReader) -> (res: Result<(String, GgufValue), GgufError>)
    requires
        old(r).wf(),
    ensures
        final(r).bytes() == old(r).bytes(),
        final(r).wf(),
        match spec_parse_kv(old(r).bytes(), old(r).pos()) {
            Ok(kc) => res is Ok && (res->Ok_0.0@, res->Ok_0.1@) == kc.0 && final(r).pos() == old(
                r,
            ).pos() + kc.1,
            Err(e) => res is Err && res->Err_0@ == e,
        },
{
    let key = match read_string(r) {
        Ok(s) => s,
        Err(e) => return Err(e),
    };
    let tag = match r.read_u32_le() {
        Ok(x) => x,
        Err(e) => return Err(e),
    };
    let value_type = match GgufValueType::from_code(tag) {
        Ok(t) => t,
        Err(e) => return Err(e),
    };
    let value = match GgufValue::read(r, value_type) {
        Ok(v) => v,
        Err(e) => return Err(e),
    };
    Ok((key, value))
}

impl GgufMetadata {
    /// The entries as key and value images, in decode order.
    pub closed spec fn entries_view(&self) -> Seq<(Seq<char>, ValueView)> {
        kv_views(self.entries@)
    }

    /// Decodes `kv_count` metadata entries from the source, consuming
    /// exactly the bytes [`spec_parse_kvs`] declares; the resulting store
    /// denotes exactly the mapping of the entries it declares.
    pub fn read(r: &mut ByteReader, kv_count: u64) -> (res: Result<GgufMetadata, GgufError>)
        requires
            old(r).wf(),
        ensures
            final(r).bytes() == old(r).bytes(),
            final(r).wf(),
            match spec_parse_kvs(old(r).bytes(), old(r).pos(), kv_count as int) {
                Ok(kc) => res is Ok && res->Ok_0.entries_view() == kc.0 && res->Ok_0@ == map_of(
                    kc.0,
                ) && final(r).pos() == old(r).pos() + kc.1,
                Err(e) => res is Err && res->Err_0@ == e,
            },
    {
        let ghost bytes0 = old(r).bytes();
        let ghost pos0 = old(r).pos();
        let mut entries: Vec<(String, GgufValue)> = Vec::new();
        let mut i: u64 = 0;
        proof {
            if let Ok(kc) = spec_parse_kvs(bytes0, pos0, kv_count as int) {
                assert(kv_views(entries@) + kc.0 =~= kc.0);
            }
        }
        while i < kv_count
            invariant
                r.wf(),
                r.bytes() == bytes0,
                bytes0 == old(r).bytes(),
                pos0 == old(r).pos(),
                pos0 <= r.pos(),
                i <= kv_count,
                match spec_parse_kvs(bytes0, r.pos(), kv_count - i) {
                    Ok(kc) => spec_parse_kvs(bytes0, pos0, kv_count as int) == Ok::<
                        (Seq<(Seq<char>, ValueView)>, nat),
                        ErrorView,
                    >((kv_views(entries@) + kc.0, ((r.pos() - pos0) + kc.1) as nat)),
                    Err(e) => spec_parse_kvs(bytes0, pos0, kv_count as int) == Err::<
                        (Seq<(Seq<char>, ValueView)>, nat),
                        ErrorView,
                    >(e),
                },
            decreases kv_count - i,
        {
            let ghost cur = r.pos();
            let kv = match read_kv(r) {
                Ok(kv) => kv,
                Err(e) => {
                    return Err(e);
                },
            };
            proof {
                let kc1 = spec_parse_kv(bytes0, cur)->Ok_0;
                if let Ok(kc2) = spec_parse_kvs(bytes0, r.pos(), kv_count - (i + 1)) {
                    assert(kv_views(entries@.push(kv)) =~= kv_views(entries@).push(
                        (kv.0@, kv.1@),
                    ));
                    assert(kv_views(entries@) + (seq![kc1.0] + kc2.0) =~= kv_views(
                        entries@.push(kv),
                    ) + kc2.0);
                }
            }
            entries.push(kv);
            i = i + 1;
        }
        proof {
            assert(kv_views(entries@) + Seq::<(Seq<char>, ValueView)>::empty() =~= kv_views(
                entries@,
            ));
        }
        Ok(GgufMetadata { entries })
    }

    /// Looks a key up; absence is a normal outcome, not an error.
    pub fn get(&self, key: &str) -> (r: Option<&GgufValue>)
        ensures
            match r {
                Some(v) => self@.contains_key(key@) && v@ == self@[key@],
                None => !self@.contains_key(key@),
            },
    {
        let n = self.entries.len();
        proof {
            assert(self.entries_view().take(n as int) =~= self.entries_view());
        }
        let mut i = n;
        while i > 0
            invariant
                i <= n,
                n == self.entries@.len(),
                lookup_list(self.entries_view(), key@) == lookup_list(
                    self.entries_view().take(i as int),
                    key@,
                ),
            decreases i,
        {
            i = i - 1;
            let ghost t = self.entries_view().take(i + 1);
            proof {
                assert(t.drop_last() =~= self.entries_view().take(i as int));
                assert(t.last() == (self.entries@[i as int].0@, self.entries@[i as int].1@));
            }
            if str_eq_chars(self.entries[i].0.as_str(), key) {
                proof {
                    lemma_lookup_map(self.entries_view(), key@);
                }
                return Some(&self.entries[i].1);
            }
        }
        proof {
            assert(self.entries_view().take(0) =~= Seq::<(Seq<char>, ValueView)>::empty());
            lemma_lookup_map(self.entries_view(), key@);
        }
        None
    }

    /// Looks a key up, failing with a lookup error naming the key when it
    /// is absent.
    pub fn get_required(&self, key: &str) -> (r: Result<&GgufValue, GgufError>)
        ensures
            match r {
                Ok(v) => self@.contains_key(key@) && v@ == self@[key@],
                Err(e) => !self@.contains_key(key@) && e@ == (ErrorView::MetadataKeyNotFound {
                    key: key@,
                }),
            },
    {
        match self.get(key) {
            Some(v) => Ok(v),
            None => Err(GgufError::MetadataKeyNotFound(key.to_owned())),
        }
    }
}

/// What the string accessor yields for a key: the stored characters, a
/// lookup error when the key is absent, or a type-mismatch error naming
/// the kinds when the stored value is not a string.
pub open spec fn spec_get_str(m: Map<Seq<char>, ValueView>, key: Seq<char>) -> Result<
    Seq<char>,
    ErrorView,
> {
    if !m.contains_key(key) {
        Err(ErrorView::MetadataKeyNotFound { key })
    } else {
        match spec_as_str(m[key]) {
            Some(s) => Ok(s),
            None => Err(
                ErrorView::InvalidMetadataValueType {
                    key,
                    expected: "string"@,
                    found: spec_kind_name(m[key]),
                },
            ),
        }
    }
}

/// What the unsigned 32-bit accessor yields for a key: an exact 32-bit
/// value, a 64-bit value narrowed by silent truncation, or the error.
pub open spec fn spec_get_u32(m: Map<Seq<char>, ValueView>, key: Seq<char>) -> Result<
    u32,
    ErrorView,
> {
    if !m.contains_key(key) {
        Err(ErrorView::MetadataKeyNotFound { key })
    } else {
        match spec_as_u32(m[key]) {
            Some(x) => Ok(x),
            None => Err(
                ErrorView::InvalidMetadataValueType {
                    key,
                    expected: "u32"@,
                    found: spec_kind_name(m[key]),
                },
            ),
        }
    }
}

/// What the unsigned 64-bit accessor yields for a key: an exact 64-bit
/// value, a 32-bit value widened, or the error.
pub open spec fn spec_get_u64(m: Map<Seq<char>, ValueView>, key: Seq<char>) -> Result<
    u64,
    ErrorView,
> {
    if !m.contains_key(key) {
        Err(ErrorView::MetadataKeyNotFound { key })
    } else {
        match spec_as_u64(m[key]) {
            Some(x) => Ok(x),
            None => Err(
                ErrorView::InvalidMetadataValueType {
                    key,
                    expected: "u64"@,
                    found: spec_kind_name(m[key]),
                },
            ),
        }
    }
}

/// What the 32-bit float accessor yields for a key: the raw bits of an
/// exact 32-bit float value, or the error; the 64-bit float kind does not
/// narrow.
pub open spec fn spec_get_f32_bits(m: Map<Seq<char>, ValueView>, key: Seq<char>) -> Result<
    u32,
    ErrorView,
> {
    if !m.contains_key(key) {
        Err(ErrorView::MetadataKeyNotFound { key })
    } else {
        match spec_as_f32_bits(m[key]) {
            Some(b) => Ok(b),
            None => Err(
                ErrorView::InvalidMetadataValueType {
                    key,
                    expected: "f32"@,
                    found: spec_kind_name(m[key]),
                },
            ),
        }
    }
}

impl GgufMetadata {
    /// Reads a required string value.
    pub fn get_string(&self, key: &str) -> (r: Result<&str, GgufError>)
        ensures
            match spec_get_str(self@, key@) {
                Ok(s) => r is Ok && r->Ok_0@ == s,
                Err(e) => r is Err && r->Err_0@ == e,
            },
    {
        let v = match self.get_required(key) {
            Ok(v) => v,
            Err(e) => return Err(e),
        };
        match v.as_string() {
            Ok(s) => Ok(s),
            Err(e) => Err(rekey(e, key)),
        }
    }

    /// Reads an optional string value; a missing key or a value of another
    /// kind both yield an absent result, as a best-effort optional read.
    pub fn get_string_opt(&self, key: &str) -> (r: Option<&str>)
        ensures
            match spec_get_str(self@, key@) {
                Ok(s) => r is Some && r->0@ == s,
                Err(_) => r is None,
            },
    {
        match self.get(key) {
            Some(v) => match v.as_string() {
                Ok(s) => Some(s),
                Err(_) => None,
            },
            None => None,
        }
    }

    /// Reads a required unsigned 32-bit value; a stored 64-bit value is
    /// narrowed with a silent truncating cast.
    pub fn get_u32(&self, key: &str) -> (r: Result<u32, GgufError>)
        ensures
            match spec_get_u32(self@, key@) {
                Ok(x) => r == Ok::<u32, GgufError>(x),
                Err(e) => r is Err && r->Err_0@ == e,
            },
    {
        let v = match self.get_required(key) {
            Ok(v) => v,
            Err(e) => return Err(e),
        };
        match v.as_u32() {
            Ok(x) => Ok(x),
            Err(e) => Err(rekey(e, key)),
        }
    }

    /// Reads an optional unsigned 32-bit value, absent on a missing key or
    /// a kind that does not coerce.
    pub fn get_u32_opt(&self, key: &str) -> (r: Option<u32>)
        ensures
            match spec_get_u32(self@, key@) {
                Ok(x) => r == Some(x),
                Err(_) => r is None,
            },
    {
        match self.get(key) {
            Some(v) => match v.as_u32() {
                Ok(x) => Some(x),
                Err(_) => None,
            },
            None => None,
        }
    }

    /// Reads a required unsigned 64-bit value; a stored 32-bit value is
    /// widened.
    pub fn get_u64(&self, key: &str) -> (r: Result<u64, GgufError>)
        ensures
            match spec_get_u64(self@, key@) {
                Ok(x) => r == Ok::<u64, GgufError>(x),
                Err(e) => r is Err && r->Err_0@ == e,
            },
    {
        let v = match self.get_required(key) {
            Ok(v) => v,
            Err(e) => return Err(e),
        };
        match v.as_u64() {
            Ok(x) => Ok(x),
            Err(e) => Err(rekey(e, key)),
        }
    }

    /// Reads an optional unsigned 64-bit value, absent on a missing key or
    /// a kind that does not coerce.
    pub fn get_u64_opt(&self, key: &str) -> (r: Option<u64>)
        ensures
            match spec_get_u64(self@, key@) {
                Ok(x) => r == Some(x),
                Err(_) => r is None,
            },
    {
        match self.get(key) {
            Some(v) => match v.as_u64() {
                Ok(x) => Some(x),
                Err(_) => None,
            },
            None => None,
        }
    }

    /// Reads a required 32-bit float value as its raw IEEE 754 bits.
    pub fn get_f32(&self, key: &str) -> (r: Result<u32, GgufError>)
        ensures
            match spec_get_f32_bits(self@, key@) {
                Ok(b) => r == Ok::<u32, GgufError>(b),
                Err(e) => r is Err && r->Err_0@ == e,
            },
    {
        let v = match self.get_required(key) {
            Ok(v) => v,
            Err(e) => return Err(e),
        };
        match v.as_f32() {
            Ok(b) => Ok(b),
            Err(e) => Err(rekey(e, key)),
        }
    }

    /// Reads an optional 32-bit float value as its raw IEEE 754 bits,
    /// absent on a missing key or a kind that does not match.
    pub fn get_f32_opt(&self, key: &str) -> (r: Option<u32>)
        ensures
            match spec_get_f32_bits(self@, key@) {
                Ok(b) => r == Some(b),
                Err(_) => r is None,
            },
    {
        match self.get(key) {
            Some(v) => match v.as_f32() {
                Ok(b) => Some(b),
                Err(_) => None,
            },
            None => None,
        }
    }
}

/// Mathematical image of a [`ModelConfig`].
pub struct ConfigView {
    pub architecture: Seq<char>,
    pub vocab_size: u64,
    pub context_length: u64,
    pub block_count: u32,
    pub embedding_length: u32,
    pub feed_forward_length: u32,
    pub attention_head_count: u32,
    pub attention_head_count_kv: Option<u32>,
    pub attention_layer_norm_rms_epsilon: Option<u32>,
    pub rope_dimension_count: Option<u32>,
    pub rope_freq_base: Option<u32>,
    pub rope_scaling_type: Option<Seq<char>>,
    pub tokenizer_ggml_model: Option<Seq<char>>,
    pub tokenizer_ggml_tokens: Option<Seq<Seq<char>>>,
    pub tokenizer_ggml_scores: Option<Seq<u32>>,
    pub tokenizer_ggml_token_type: Option<Seq<u32>>,
    pub tokenizer_chat_template: Option<Seq<char>>,
    pub general_name: Option<Seq<char>>,
    pub general_description: Option<Seq<char>>,
    pub general_license: Option<Seq<char>>,
}

/// The model configuration resolved from a metadata store: the required
/// transformer dimensions and a set of optional fields. Float-valued
/// fields hold raw IEEE 754 bits. The tokenizer vocabulary arrays are a
/// known extension point and stay unpopulated in this version.
#[derive(Debug, PartialEq)]
pub struct ModelConfig {
    pub architecture: String,
    pub vocab_size: u64,
    pub context_length: u64,
    pub block_count: u32,
    pub embedding_length: u32,
    pub feed_forward_length: u32,
    pub attention_head_count: u32,
    pub attention_head_count_kv: Option<u32>,
    /// Raw bits of a 32-bit IEEE 754 value.
    pub attention_layer_norm_rms_epsilon: Option<u32>,
    pub rope_dimension_count: Option<u32>,
    /// Raw bits of a 32-bit IEEE 754 value.
    pub rope_freq_base: Option<u32>,
    pub rope_scaling_type: Option<String>,
    pub tokenizer_ggml_model: Option<String>,
    pub tokenizer_ggml_tokens: Option<Vec<String>>,
    /// Raw bits of 32-bit IEEE 754 values.
    pub tokenizer_ggml_scores: Option<Vec<u32>>,
    pub tokenizer_ggml_token_type: Option<Vec<u32>>,
    pub tokenizer_chat_template: Option<String>,
    pub general_name: Option<String>,
    pub general_description: Option<String>,
    pub general_license: Option<String>,
}

impl View for ModelConfig {
    type V = ConfigView;

    open spec fn view(&self) -> ConfigView {
        ConfigView {
            architecture: self.architecture@,
            vocab_size: self.vocab_size,
            context_length: self.context_length,
            block_count: self.block_count,
            embedding_length: self.embedding_length,
            feed_forward_length: self.feed_forward_length,
            attention_head_count: self.attention_head_count,
            attention_head_count_kv: self.attention_head_count_kv,
            attention_layer_norm_rms_epsilon: self.attention_layer_norm_rms_epsilon,
            rope_dimension_count: self.rope_dimension_count,
            rope_freq_base: self.rope_freq_base,
            rope_scaling_type: match self.rope_scaling_type {
                Some(s) => Some(s@),
                None => None,
            },
            tokenizer_ggml_model: match self.tokenizer_ggml_model {
                Some(s) => Some(s@),
                None => None,
            },
            tokenizer_ggml_tokens: match self.tokenizer_ggml_tokens {
                Some(v) => Some(v.deep_view()),
                None => None,
            },
            tokenizer_ggml_scores: match self.tokenizer_ggml_scores {
                Some(v) => Some(v@),
                None => None,
            },
            tokenizer_ggml_token_type: match self.tokenizer_ggml_token_type {
                Some(v) => Some(v@),
                None => None,
            },
            tokenizer_chat_template: match self.tokenizer_chat_template {
                Some(s) => Some(s@),
                None => None,
            },
            general_name: match self.general_name {
                Some(s) => Some(s@),
                None => None,
            },
            general_description: match self.general_description {
                Some(s) => Some(s@),
                None => None,
            },
            general_license: match self.general_license {
                Some(s) => Some(s@),
                None => None,
            },
        }
    }
}

/// The best-effort optional reading of an unsigned 32-bit field.
pub open spec fn spec_opt_u32(m: Map<Seq<char>, ValueView>, key: Seq<char>) -> Option<u32> {
    match spec_get_u32(m, key) {
        Ok(x) => Some(x),
        Err(_) => None,
    }
}

/// The best-effort optional reading of a 32-bit float field, as raw bits.
pub open spec fn spec_opt_f32_bits(m: Map<Seq<char>, ValueView>, key: Seq<char>) -> Option<u32> {
    match spec_get_f32_bits(m, key) {
        Ok(b) => Some(b),
        Err(_) => None,
    }
}

/// The best-effort optional reading of a string field.
pub open spec fn spec_opt_str(m: Map<Seq<char>, ValueView>, key: Seq<char>) -> Option<Seq<char>> {
    match spec_get_str(m, key) {
        Ok(s) => Some(s),
        Err(_) => None,
    }
}

/// How the vocabulary size resolves: the general key first, then the
/// architecture-qualified key, then the length of the tokenizer token
/// array if that key holds an array; failing all three is a config error
/// naming the field.
pub open spec fn spec_vocab_size(m: Map<Seq<char>, ValueView>, pfx: Seq<char>) -> Result<
    u64,
    ErrorView,
> {
    if spec_get_u64(m, "general.vocab_size"@) is Ok {
        spec_get_u64(m, "general.vocab_size"@)
    } else if spec_get_u64(m, pfx + "vocab_size"@) is Ok {
        spec_get_u64(m, pfx + "vocab_size"@)
    } else if m.contains_key("tokenizer.ggml.tokens"@) && m["tokenizer.ggml.tokens"@] is Array {
        Ok(m["tokenizer.ggml.tokens"@]->Array_0.len() as u64)
    } else {
        Err(ErrorView::IncompleteModelConfig { field: "vocab_size"@ })
    }
}

/// How the context length resolves: the general key first, then the
/// architecture-qualified key; failing both is a config error naming the
/// field.
pub open spec fn spec_context_length(m: Map<Seq<char>, ValueView>, pfx: Seq<char>) -> Result<
    u64,
    ErrorView,
> {
    if spec_get_u64(m, "general.context_length"@) is Ok {
        spec_get_u64(m, "general.context_length"@)
    } else if spec_get_u64(m, pfx + "context_length"@) is Ok {
        spec_get_u64(m, pfx + "context_length"@)
    } else {
        Err(ErrorView::IncompleteModelConfig { field: "context_length"@ })
    }
}

/// A required unsigned 32-bit field read strictly from one key; any
/// failure becomes a config error naming the field.
pub open spec fn spec_req_u32(
    m: Map<Seq<char>, ValueView>,
    key: Seq<char>,
    field: Seq<char>,
) -> Result<u32, ErrorView> {
    match spec_get_u32(m, key) {
        Ok(x) => Ok(x),
        Err(_) => Err(ErrorView::IncompleteModelConfig { field }),
    }
}

/// What configuration extraction yields from a metadata mapping: a single
/// fail-fast pass that resolves the architecture, then each required
/// field in order, then the optional fields; the first unresolvable
/// required field decides the error.
pub open spec fn spec_model_config(m: Map<Seq<char>, ValueView>) -> Result<ConfigView, ErrorView> {
    match spec_get_str(m, "general.architecture"@) {
        Err(e) => Err(e),
        Ok(arch) => {
            let pfx = arch + "."@;
            match spec_vocab_size(m, pfx) {
                Err(e) => Err(e),
                Ok(vocab_size) => {
                    match spec_context_length(m, pfx) {
                        Err(e) => Err(e),
                        Ok(context_length) => {
                            match spec_req_u32(m, pfx + "block_count"@, "block_count"@) {
                                Err(e) => Err(e),
                                Ok(block_count) => {
                                    match spec_req_u32(
                                        m,
                                        pfx + "embedding_length"@,
                                        "embedding_length"@,
                                    ) {
                                        Err(e) => Err(e),
                                        Ok(embedding_length) => {
                                            match spec_req_u32(
                                                m,
                                                pfx + "feed_forward_length"@,
                                                "feed_forward_length"@,
                                            ) {
                                                Err(e) => Err(e),
                                                Ok(feed_forward_length) => {
                                                    match spec_req_u32(
                                                        m,
                                                        pfx + "attention.head_count"@,
                                                        "attention.head_count"@,
                                                    ) {
                                                        Err(e) => Err(e),
                                                        Ok(attention_head_count) => {
                                                            Ok(
                                                                ConfigView {
                                                                    architecture: arch,
                                                                    vocab_size,
                                                                    context_length,
                                                                    block_count,
                                                                    embedding_length,
                                                                    feed_forward_length,
                                                                    attention_head_count,
                                                                    attention_head_count_kv:
                                                                        spec_opt_u32(
                                                                        m,
                                                                        pfx
                                                                            + "attention.head_count_kv"@,
                                                                    ),
                                                                    attention_layer_norm_rms_epsilon:
                                                                        spec_opt_f32_bits(
                                                                        m,
                                                                        pfx
                                                                            + "attention.layer_norm_rms_epsilon"@,
                                                                    ),
                                                                    rope_dimension_count:
                                                                        spec_opt_u32(
                                                                        m,
                                                                        pfx
                                                                            + "rope.dimension_count"@,
                                                                    ),
                                                                    rope_freq_base:
                                                                        spec_opt_f32_bits(
                                                                        m,
                                                                        pfx + "rope.freq_base"@,
                                                                    ),
                                                                    rope_scaling_type:
                                                                        spec_opt_str(
                                                                        m,
                                                                        pfx + "rope.scaling.type"@,
                                                                    ),
                                                                    tokenizer_ggml_model:
                                                                        spec_opt_str(
                                                                        m,
                                                                        "tokenizer.ggml.model"@,
                                                                    ),
                                                                    tokenizer_ggml_tokens: None,
                                                                    tokenizer_ggml_scores: None,
                                                                    tokenizer_ggml_token_type:
                                                                        None,
                                                                    tokenizer_chat_template:
                                                                        spec_opt_str(
                                                                        m,
                                                                        "tokenizer.chat_template"@,
                                                                    ),
                                                                    general_name: spec_opt_str(
                                                                        m,
                                                                        "general.name"@,
                                                                    ),
                                                                    general_description:
                                                                        spec_opt_str(
                                                                        m,
                                                                        "general.description"@,
                                                                    ),
                                                                    general_license: spec_opt_str(
                                                                        m,
                                                                        "general.license"@,
                                                                    ),
                                                                },
                                                            )
                                                        },
                                                    }
                                                },
                                            }
                                        },
                                    }
                                },
                            }
                        },
                    }
                },
            }
        },
    }
}

/// Fills the key slot of a type-mismatch error; a bare value reports its
/// key as unknown, and the store knows better.
fn rekey(e: GgufError, key: &str) -> (r: GgufError)
    ensures
        (match e@ {
            ErrorView::InvalidMetadataValueType { expected, found, .. } => (r@
                == ErrorView::InvalidMetadataValueType { key: key@, expected, found }),
            _ => r == e,
        }),
{
    match e {
        GgufError::InvalidMetadataValueType { expected, found, .. } => {
            GgufError::InvalidMetadataValueType { key: key.to_owned(), expected, found }
        },
        other => other,
    }
}

/// The rough transformer parameter estimate: input embedding, per-block
/// attention, feed-forward and norm terms, and output projection.
pub open spec fn spec_param_count(c: ConfigView) -> int {
    c.vocab_size * c.embedding_length + c.block_count * (4 * c.embedding_length
        * c.embedding_length + 2 * c.embedding_length * c.feed_forward_length + 2
        * c.embedding_length) + c.vocab_size * c.embedding_length
}

/// The machine limit under which the estimate and each of its partial
/// products stay within 64 bits.
pub open spec fn spec_param_count_fits(c: ConfigView) -> bool {
    &&& c.vocab_size * c.embedding_length <= u64::MAX
    &&& 4 * c.embedding_length * c.embedding_length + 2 * c.embedding_length
        * c.feed_forward_length + 2 * c.embedding_length <= u64::MAX
    &&& c.block_count * (4 * c.embedding_length * c.embedding_length + 2 * c.embedding_length
        * c.feed_forward_length + 2 * c.embedding_length) <= u64::MAX
    &&& spec_param_count(c) <= u64::MAX
}

/// The fixed allow-list of architecture names this library knows how to
/// interpret.
pub open spec fn spec_is_supported_architecture(arch: Seq<char>) -> bool {
    ||| arch == "llama"@
    ||| arch == "mistral"@
    ||| arch == "qwen"@
    ||| arch == "qwen2"@
    ||| arch == "phi3"@
    ||| arch == "gemma"@
    ||| arch == "mixtral"@
    ||| arch == "codellama"@
}

impl ModelConfig {
    /// Resolves a configuration from a metadata store in one fail-fast
    /// pass, exactly as [`spec_model_config`] describes: required fields
    /// through their ordered fallback chains, optional fields as
    /// best-effort reads.
    pub fn from_metadata(metadata: &GgufMetadata) -> (res: Result<ModelConfig, GgufError>)
        ensures
            match spec_model_config(metadata@) {
                Ok(cv) => res is Ok && res->Ok_0@ == cv,
                Err(e) => res is Err && res->Err_0@ == e,
            },
    {
        let architecture: String = match metadata.get_string("general.architecture") {
            Ok(s) => s.to_owned(),
            Err(e) => return Err(e),
        };
        let arch_prefix: String = architecture.clone().concat(".");

        let vocab_size: u64 = match metadata.get_u64("general.vocab_size") {
            Ok(v) => v,
            Err(_) => {
                let k = arch_prefix.clone().concat("vocab_size");
                match metadata.get_u64(k.as_str()) {
                    Ok(v) => v,
                    Err(_) => {
                        match metadata.get("tokenizer.ggml.tokens") {
                            Some(GgufValue::Array(tokens)) => {
                                proof {
                                    crate::types::lemma_views_of_index(tokens@);
                                }
                                tokens.len() as u64
                            },
                            _ => {
                                return Err(
                                    GgufError::IncompleteModelConfig("vocab_size".to_owned()),
                                );
                            },
                        }
                    },
                }
            },
        };

        let context_length: u64 = match metadata.get_u64("general.context_length") {
            Ok(v) => v,
            Err(_) => {
                let k = arch_prefix.clone().concat("context_length");
                match metadata.get_u64(k.as_str()) {
                    Ok(v) => v,
                    Err(_) => {
                        return Err(GgufError::IncompleteModelConfig("context_length".to_owned()));
                    },
                }
            },
        };

        let k_block = arch_prefix.clone().concat("block_count");
        let block_count: u32 = match metadata.get_u32(k_block.as_str()) {
            Ok(v) => v,
            Err(_) => {
                return Err(GgufError::IncompleteModelConfig("block_count".to_owned()));
            },
        };

        let k_embed = arch_prefix.clone().concat("embedding_length");
        let embedding_length: u32 = match metadata.get_u32(k_embed.as_str()) {
            Ok(v) => v,
            Err(_) => {
                return Err(GgufError::IncompleteModelConfig("embedding_length".to_owned()));
            },
        };

        let k_ffn = arch_prefix.clone().concat("feed_forward_length");
        let feed_forward_length: u32 = match metadata.get_u32(k_ffn.as_str()) {
            Ok(v) => v,
            Err(_) => {
                return Err(GgufError::IncompleteModelConfig("feed_forward_length".to_owned()));
            },
        };

        let k_heads = arch_prefix.clone().concat("attention.head_count");
        let attention_head_count: u32 = match metadata.get_u32(k_heads.as_str()) {
            Ok(v) => v,
            Err(_) => {
                return Err(GgufError::IncompleteModelConfig("attention.head_count".to_owned()));
            },
        };

        let k_kv = arch_prefix.clone().concat("attention.head_count_kv");
        let attention_head_count_kv = metadata.get_u32_opt(k_kv.as_str());
        let k_rms = arch_prefix.clone().concat("attention.layer_norm_rms_epsilon");
        let attention_layer_norm_rms_epsilon = metadata.get_f32_opt(k_rms.as_str());

        let k_rope_dim = arch_prefix.clone().concat("rope.dimension_count");
        let rope_dimension_count = metadata.get_u32_opt(k_rope_dim.as_str());
        let k_rope_freq = arch_prefix.clone().concat("rope.freq_base");
        let rope_freq_base = metadata.get_f32_opt(k_rope_freq.as_str());
        let k_rope_scaling = arch_prefix.clone().concat("rope.scaling.type");
        let rope_scaling_type = match metadata.get_string_opt(k_rope_scaling.as_str()) {
            Some(s) => Some(s.to_owned()),
            None => None,
        };

        let tokenizer_ggml_model = match metadata.get_string_opt("tokenizer.ggml.model") {
            Some(s) => Some(s.to_owned()),
            None => None,
        };
        // the tokenizer vocabulary arrays are an extension point left
        // unpopulated in this version
        let tokenizer_ggml_tokens: Option<Vec<String>> = None;
        let tokenizer_ggml_scores: Option<Vec<u32>> = None;
        let tokenizer_ggml_token_type: Option<Vec<u32>> = None;

        let tokenizer_chat_template = match metadata.get_string_opt("tokenizer.chat_template") {
            Some(s) => Some(s.to_owned()),
            None => None,
        };

        let general_name = match metadata.get_string_opt("general.name") {
            Some(s) => Some(s.to_owned()),
            None => None,
        };
        let general_description = match metadata.get_string_opt("general.description") {
            Some(s) => Some(s.to_owned()),
            None => None,
        };
        let general_license = match metadata.get_string_opt("general.license") {
            Some(s) => Some(s.to_owned()),
            None => None,
        };

        Ok(
            ModelConfig {
                architecture,
                vocab_size,
                context_length,
                block_count,
                embedding_length,
                feed_forward_length,
                attention_head_count,
                attention_head_count_kv,
                attention_layer_norm_rms_epsilon,
                rope_dimension_count,
                rope_freq_base,
                rope_scaling_type,
                tokenizer_ggml_model,
                tokenizer_ggml_tokens,
                tokenizer_ggml_scores,
                tokenizer_ggml_token_type,
                tokenizer_chat_template,
                general_name,
                general_description,
                general_license,
            },
        )
    }

    /// The rough transformer parameter estimate of
    /// [`spec_param_count`]. The caller keeps the estimate within the
    /// 64-bit machine limit.
    pub fn estimated_param_count(&self) -> (r: u64)
        requires
            spec_param_count_fits(self@),
        ensures
            r == spec_param_count(self@),
    {
        let e = self.embedding_length as u64;
        let f = self.feed_forward_length as u64;
        let vocab_embedding = self.vocab_size * e;
        let per_block = 4 * e * e + 2 * e * f + 2 * e;
        let transformer_blocks = (self.block_count as u64) * per_block;
        let output_projection = self.vocab_size * e;
        vocab_embedding + transformer_blocks + output_projection
    }

    /// True when the architecture is on the fixed allow-list.
    pub fn is_supported_architecture(&self) -> (r: bool)
        ensures
            r == spec_is_supported_architecture(self.architecture@),
    {
        str_eq_chars(self.architecture.as_str(), "llama") || str_eq_chars(
            self.architecture.as_str(),
            "mistral",
        ) || str_eq_chars(self.architecture.as_str(), "qwen") || str_eq_chars(
            self.architecture.as_str(),
            "qwen2",
        ) || str_eq_chars(self.architecture.as_str(), "phi3") || str_eq_chars(
            self.architecture.as_str(),
            "gemma",
        ) || str_eq_chars(self.architecture.as_str(), "mixtral") || str_eq_chars(
            self.architecture.as_str(),
            "codellama",
        )
    }
}

} // verus!
