use gguf::{
    ByteReader, GgufError, GgufFile, GgufMetadata, GgufValue, GgufValueType, ModelConfig,
    QuantizationType, TensorInfo,
};

fn le32(v: u32) -> Vec<u8> {
    v.to_le_bytes().to_vec()
}

fn le64(v: u64) -> Vec<u8> {
    v.to_le_bytes().to_vec()
}

fn gstr(s: &str) -> Vec<u8> {
    let mut b = le64(s.len() as u64);
    b.extend_from_slice(s.as_bytes());
    b
}

fn header(tensor_count: u64, kv_count: u64) -> Vec<u8> {
    let mut b = b"GGUF".to_vec();
    b.extend(le32(3));
    b.extend(le64(tensor_count));
    b.extend(le64(kv_count));
    b
}

fn kv(key: &str, type_code: u32, payload: &[u8]) -> Vec<u8> {
    let mut b = gstr(key);
    b.extend(le32(type_code));
    b.extend_from_slice(payload);
    b
}

fn kv_string(key: &str, value: &str) -> Vec<u8> {
    kv(key, 8, &gstr(value))
}

fn kv_u32(key: &str, value: u32) -> Vec<u8> {
    kv(key, 4, &le32(value))
}

fn kv_u64(key: &str, value: u64) -> Vec<u8> {
    kv(key, 10, &le64(value))
}

fn tensor_entry(name: &str, dims: &[u64], qcode: u32, offset: u64) -> Vec<u8> {
    let mut b = gstr(name);
    b.extend(le32(dims.len() as u32));
    for d in dims {
        b.extend(le64(*d));
    }
    b.extend(le32(qcode));
    b.extend(le64(offset));
    b
}

/// The required keys of a small llama-like model, without any vocab key.
fn llama_required_without_vocab() -> Vec<Vec<u8>> {
    vec![
        kv_string("general.architecture", "llama"),
        kv_u64("general.context_length", 2048),
        kv_u32("llama.block_count", 22),
        kv_u32("llama.embedding_length", 2048),
        kv_u32("llama.feed_forward_length", 5632),
        kv_u32("llama.attention.head_count", 32),
    ]
}

fn file_from(entries: Vec<Vec<u8>>, tensors: Vec<Vec<u8>>) -> Vec<u8> {
    let mut b = header(tensors.len() as u64, entries.len() as u64);
    for e in entries {
        b.extend(e);
    }
    for t in tensors {
        b.extend(t);
    }
    b
}

fn parse(bytes: Vec<u8>) -> Result<GgufFile, GgufError> {
    let mut r = ByteReader::new(bytes);
    GgufFile::from_reader(&mut r)
}

#[test]
fn test_tensor_layer_parsing() {
    let tensor = TensorInfo {
        name: "layers.15.attn.weight".to_string(),
        dimensions: vec![4096, 4096],
        quantization_type: QuantizationType::Q4_0,
        offset: 0,
    };

    assert_eq!(tensor.layer_number(), Some(15));
    assert!(tensor.is_weight_tensor());
    assert_eq!(tensor.shape_string(), "[4096, 4096]");
}

#[test]
fn test_quantization_type_bits() {
    assert_eq!(QuantizationType::F32.bits_per_weight_x16() as f64 / 16.0, 32.0);
    assert_eq!(QuantizationType::Q4_0.bits_per_weight_x16() as f64 / 16.0, 4.5);
    assert_eq!(QuantizationType::Q8_0.bits_per_weight_x16() as f64 / 16.0, 8.5);
    assert_eq!(QuantizationType::Q2_K.bits_per_weight_x16() as f64 / 16.0, 2.5625);

    assert!(QuantizationType::Q4_0.is_quantized());
    assert!(!QuantizationType::F32.is_quantized());
}

#[test]
fn test_bad_magic_echoes_bytes() {
    let mut bytes = b"XGUF".to_vec();
    bytes.extend(le32(3));
    bytes.extend(le64(0));
    bytes.extend(le64(0));
    let err = parse(bytes).unwrap_err();
    assert_eq!(err, GgufError::InvalidMagic(*b"XGUF"));
}

#[test]
fn test_bad_magic_stops_before_version() {
    // nothing after the four magic bytes: the magic check must come first
    let bytes = b"ABCD".to_vec();
    let err = parse(bytes).unwrap_err();
    assert_eq!(err, GgufError::InvalidMagic(*b"ABCD"));
}

#[test]
fn test_versions() {
    for v in [2u32, 4u32] {
        let mut bytes = b"GGUF".to_vec();
        bytes.extend(le32(v));
        bytes.extend(le64(0));
        bytes.extend(le64(0));
        let err = parse(bytes).unwrap_err();
        assert_eq!(err, GgufError::UnsupportedVersion(v));
    }
    let ok = parse(header(0, 0)).unwrap();
    assert!(ok.header.is_valid());
    assert_eq!(ok.header.version, 3);
    assert_eq!(ok.header.size(), 24);
    assert_eq!(ok.header.tensor_count, 0);
    assert_eq!(ok.header.metadata_kv_count, 0);
}

#[test]
fn test_truncated_header() {
    let err = parse(b"GGUF".to_vec()).unwrap_err();
    assert_eq!(err, GgufError::UnexpectedEof);
}

#[test]
fn test_u32_array_decodes() {
    let mut bytes = le32(4);
    bytes.extend(le64(3));
    bytes.extend(le32(7));
    bytes.extend(le32(8));
    bytes.extend(le32(9));
    let mut r = ByteReader::new(bytes);
    let v = GgufValue::read(&mut r, GgufValueType::Array).unwrap();
    assert_eq!(
        v,
        GgufValue::Array(vec![GgufValue::Uint32(7), GgufValue::Uint32(8), GgufValue::Uint32(9)])
    );
}

#[test]
fn test_nested_array_round_trips() {
    // an array of two arrays of u32, one level deeper than the flat case
    let mut bytes = le32(9);
    bytes.extend(le64(2));
    for chunk in [[7u32, 8u32], [9u32, 10u32]] {
        bytes.extend(le32(4));
        bytes.extend(le64(2));
        for x in chunk {
            bytes.extend(le32(x));
        }
    }
    let mut r = ByteReader::new(bytes);
    let v = GgufValue::read(&mut r, GgufValueType::Array).unwrap();
    assert_eq!(
        v,
        GgufValue::Array(vec![
            GgufValue::Array(vec![GgufValue::Uint32(7), GgufValue::Uint32(8)]),
            GgufValue::Array(vec![GgufValue::Uint32(9), GgufValue::Uint32(10)]),
        ])
    );
}

#[test]
fn test_primitive_values_decode() {
    let mut r = ByteReader::new(vec![0xff]);
    assert_eq!(GgufValue::read(&mut r, GgufValueType::Int8).unwrap(), GgufValue::Int8(-1));
    let mut r = ByteReader::new(0x8000u16.to_le_bytes().to_vec());
    assert_eq!(
        GgufValue::read(&mut r, GgufValueType::Int16).unwrap(),
        GgufValue::Int16(i16::MIN)
    );
    let mut r = ByteReader::new(vec![2]);
    assert_eq!(GgufValue::read(&mut r, GgufValueType::Bool).unwrap(), GgufValue::Bool(true));
    let mut r = ByteReader::new(vec![0]);
    assert_eq!(GgufValue::read(&mut r, GgufValueType::Bool).unwrap(), GgufValue::Bool(false));
    let mut r = ByteReader::new(1.5f32.to_bits().to_le_bytes().to_vec());
    let v = GgufValue::read(&mut r, GgufValueType::Float32).unwrap();
    assert_eq!(v, GgufValue::Float32(1.5f32.to_bits()));
    let mut r = ByteReader::new((-2.5f64).to_bits().to_le_bytes().to_vec());
    let v = GgufValue::read(&mut r, GgufValueType::Float64).unwrap();
    assert_eq!(v, GgufValue::Float64((-2.5f64).to_bits()));
}

#[test]
fn test_string_value_decodes() {
    let mut r = ByteReader::new(gstr("héllo"));
    let v = GgufValue::read(&mut r, GgufValueType::String).unwrap();
    assert_eq!(v.as_string().unwrap(), "héllo");
}

#[test]
fn test_invalid_utf8_rejected() {
    let mut bytes = le64(2);
    bytes.extend_from_slice(&[0xff, 0xfe]);
    let mut r = ByteReader::new(bytes);
    let err = GgufValue::read(&mut r, GgufValueType::String).unwrap_err();
    assert_eq!(err, GgufError::InvalidUtf8);
}

#[test]
fn test_unknown_value_tag() {
    let entries = vec![kv("some.key", 13, &[])];
    let err = parse(file_from(entries, vec![])).unwrap_err();
    assert_eq!(err, GgufError::InvalidValueType(13));
}

#[test]
fn test_tensor_five_dimensions_fails() {
    // five declared dimensions fail regardless of the bytes that follow
    let mut t = gstr("t");
    t.extend(le32(5));
    t.extend_from_slice(&[0xab; 64]);
    let err = parse(file_from(vec![], vec![t])).unwrap_err();
    assert_eq!(err, GgufError::InvalidTensorDimensions);
}

#[test]
fn test_quantization_codes() {
    for code in [4u32, 5, 30] {
        assert_eq!(
            QuantizationType::from_code(code).unwrap_err(),
            GgufError::InvalidQuantizationType(code)
        );
        let t = tensor_entry("t", &[1], code, 0);
        let err = parse(file_from(vec![], vec![t])).unwrap_err();
        assert_eq!(err, GgufError::InvalidQuantizationType(code));
    }
    assert_eq!(QuantizationType::from_code(0).unwrap(), QuantizationType::F32);
    assert_eq!(QuantizationType::from_code(29).unwrap(), QuantizationType::IQ1_M);
    assert_eq!(QuantizationType::F32.code(), 0);
    assert_eq!(QuantizationType::IQ1_M.code(), 29);
}

#[test]
fn test_size_bytes() {
    let empty = TensorInfo {
        name: "scalar".to_string(),
        dimensions: vec![],
        quantization_type: QuantizationType::Q4_0,
        offset: 0,
    };
    assert_eq!(empty.size_bytes(), 0);

    let t = TensorInfo {
        name: "t".to_string(),
        dimensions: vec![2, 2],
        quantization_type: QuantizationType::Q4_0,
        offset: 0,
    };
    // 4 elements x 4.5 bits = 18 bits = 2.25 bytes, rounded up to 3
    assert_eq!(t.size_bytes(), 3);

    let zero = TensorInfo {
        name: "z".to_string(),
        dimensions: vec![u64::MAX, 0],
        quantization_type: QuantizationType::F32,
        offset: 0,
    };
    assert_eq!(zero.size_bytes(), 0);

    let f32_tensor = TensorInfo {
        name: "w".to_string(),
        dimensions: vec![3],
        quantization_type: QuantizationType::F32,
        offset: 0,
    };
    assert_eq!(f32_tensor.size_bytes(), 12);
}

#[test]
fn test_descriptions() {
    assert_eq!(QuantizationType::F32.description(), "32-bit float");
    assert_eq!(QuantizationType::Q4_0.description(), "4-bit quantized (symmetric)");
    assert_eq!(QuantizationType::IQ1_M.description(), "1-bit IMatrix (medium)");
}

fn read_metadata(entries: Vec<Vec<u8>>) -> GgufMetadata {
    let n = entries.len() as u64;
    let mut bytes = Vec::new();
    for e in entries {
        bytes.extend(e);
    }
    let mut r = ByteReader::new(bytes);
    GgufMetadata::read(&mut r, n).unwrap()
}

#[test]
fn test_metadata_accessors() {
    let m = read_metadata(vec![
        kv_string("name", "tiny"),
        kv_u32("small", 7),
        kv_u64("big", 1 << 40),
        kv("eps", 6, &1.5f32.to_bits().to_le_bytes()),
    ]);
    assert_eq!(m.get_string("name").unwrap(), "tiny");
    assert_eq!(m.get_u32("small").unwrap(), 7);
    assert_eq!(m.get_u64("small").unwrap(), 7);
    assert_eq!(m.get_u64("big").unwrap(), 1 << 40);
    assert_eq!(f32::from_bits(m.get_f32("eps").unwrap()), 1.5);
    assert_eq!(m.get_u32_opt("absent"), None);
    assert_eq!(m.get_string_opt("small"), None);
    assert_eq!(m.get_string_opt("name"), Some("tiny"));
    assert!(m.get("absent").is_none());

    assert_eq!(
        m.get_u32("missing.key").unwrap_err(),
        GgufError::MetadataKeyNotFound("missing.key".to_string())
    );
    assert_eq!(
        m.get_u32("name").unwrap_err(),
        GgufError::InvalidMetadataValueType {
            key: "name".to_string(),
            expected: "u32".to_string(),
            found: "string".to_string(),
        }
    );
    // the exact 32-bit float kind is required: a double does not narrow
    let m2 = read_metadata(vec![kv("d", 12, &2.0f64.to_bits().to_le_bytes())]);
    assert_eq!(
        m2.get_f32("d").unwrap_err(),
        GgufError::InvalidMetadataValueType {
            key: "d".to_string(),
            expected: "f32".to_string(),
            found: "f64".to_string(),
        }
    );
}

#[test]
fn test_metadata_last_write_wins() {
    let m = read_metadata(vec![kv_u32("k", 1), kv_u32("k", 2)]);
    assert_eq!(m.get_u32("k").unwrap(), 2);
}

#[test]
fn test_u32_truncation_policy() {
    // a stored u64 of exactly 2^32 narrows to 0: documented silent
    // truncation, not a range error
    assert_eq!(GgufValue::Uint64(4294967296).as_u32().unwrap(), 0);
    let m = read_metadata(vec![kv_u64("wide", 4294967296)]);
    assert_eq!(m.get_u32("wide").unwrap(), 0);
    // and a u32 widens losslessly to u64
    assert_eq!(GgufValue::Uint32(7).as_u64().unwrap(), 7);
}

#[test]
fn test_config_prefers_general_vocab() {
    let mut entries = llama_required_without_vocab();
    entries.push(kv_u64("general.vocab_size", 32000));
    let f = parse(file_from(entries, vec![])).unwrap();
    let config = f.model_config().unwrap();
    assert_eq!(config.architecture, "llama");
    assert_eq!(config.vocab_size, 32000);
    assert_eq!(config.context_length, 2048);
    assert_eq!(config.block_count, 22);
    assert!(config.is_supported_architecture());
}

#[test]
fn test_config_vocab_from_token_array() {
    // no vocab key of any form: the token array's length is the fallback
    let mut entries = llama_required_without_vocab();
    let mut tokens = le32(8);
    tokens.extend(le64(32003));
    for i in 0..32003u64 {
        tokens.extend(gstr(if i % 2 == 0 { "a" } else { "bc" }));
    }
    entries.push(kv("tokenizer.ggml.tokens", 9, &tokens));
    let f = parse(file_from(entries, vec![])).unwrap();
    let config = f.model_config().unwrap();
    assert_eq!(config.vocab_size, 32003);
}

#[test]
fn test_config_missing_block_count() {
    let entries = vec![
        kv_string("general.architecture", "llama"),
        kv_u64("general.vocab_size", 32000),
        kv_u64("general.context_length", 2048),
        kv_u32("llama.embedding_length", 2048),
        kv_u32("llama.feed_forward_length", 5632),
        kv_u32("llama.attention.head_count", 32),
    ];
    let f = parse(file_from(entries, vec![])).unwrap();
    let err = f.model_config().unwrap_err();
    assert_eq!(err, GgufError::IncompleteModelConfig("block_count".to_string()));
}

#[test]
fn test_config_missing_architecture() {
    let f = parse(file_from(vec![kv_u64("general.vocab_size", 1)], vec![])).unwrap();
    let err = f.model_config().unwrap_err();
    assert_eq!(err, GgufError::MetadataKeyNotFound("general.architecture".to_string()));
}

#[test]
fn test_config_optionals() {
    let mut entries = llama_required_without_vocab();
    entries.push(kv_u64("general.vocab_size", 100));
    entries.push(kv_u32("llama.attention.head_count_kv", 4));
    entries.push(kv("llama.rope.freq_base", 6, &10000.0f32.to_bits().to_le_bytes()));
    entries.push(kv_string("general.name", "TinyModel"));
    let f = parse(file_from(entries, vec![])).unwrap();
    let config = f.model_config().unwrap();
    assert_eq!(config.attention_head_count_kv, Some(4));
    assert_eq!(config.rope_freq_base.map(f32::from_bits), Some(10000.0));
    assert_eq!(config.rope_dimension_count, None);
    assert_eq!(config.general_name.as_deref(), Some("TinyModel"));
    assert_eq!(config.general_license, None);
    assert_eq!(config.tokenizer_ggml_tokens, None);
    assert_eq!(config.tokenizer_ggml_scores, None);
    assert_eq!(config.tokenizer_ggml_token_type, None);
}

#[test]
fn test_estimated_param_count() {
    let config = ModelConfig {
        architecture: "llama".to_string(),
        vocab_size: 10,
        context_length: 16,
        block_count: 2,
        embedding_length: 4,
        feed_forward_length: 8,
        attention_head_count: 2,
        attention_head_count_kv: None,
        attention_layer_norm_rms_epsilon: None,
        rope_dimension_count: None,
        rope_freq_base: None,
        rope_scaling_type: None,
        tokenizer_ggml_model: None,
        tokenizer_ggml_tokens: None,
        tokenizer_ggml_scores: None,
        tokenizer_ggml_token_type: None,
        tokenizer_chat_template: None,
        general_name: None,
        general_description: None,
        general_license: None,
    };
    // 10*4 + 2*(4*4*4 + 2*4*8 + 2*4) + 10*4 = 40 + 272 + 40
    assert_eq!(config.estimated_param_count(), 352);
    assert!(config.is_supported_architecture());
}

#[test]
fn test_unsupported_architecture_name() {
    let mut entries = vec![
        kv_string("general.architecture", "gptoss"),
        kv_u64("general.vocab_size", 8),
        kv_u64("general.context_length", 8),
        kv_u32("gptoss.block_count", 1),
        kv_u32("gptoss.embedding_length", 2),
        kv_u32("gptoss.feed_forward_length", 2),
        kv_u32("gptoss.attention.head_count", 1),
    ];
    entries.push(kv_u32("unrelated", 0));
    let f = parse(file_from(entries, vec![])).unwrap();
    let config = f.model_config().unwrap();
    assert!(!config.is_supported_architecture());
}

#[test]
fn test_arch_prefixed_fallbacks() {
    // vocab and context both resolve through the architecture prefix
    let entries = vec![
        kv_string("general.architecture", "llama"),
        kv_u64("llama.vocab_size", 555),
        kv_u64("llama.context_length", 777),
        kv_u32("llama.block_count", 1),
        kv_u32("llama.embedding_length", 2),
        kv_u32("llama.feed_forward_length", 2),
        kv_u32("llama.attention.head_count", 1),
    ];
    let f = parse(file_from(entries, vec![])).unwrap();
    let config = f.model_config().unwrap();
    assert_eq!(config.vocab_size, 555);
    assert_eq!(config.context_length, 777);
}

#[test]
fn test_file_level_queries() {
    let tensors = vec![
        tensor_entry("layers.0.attn.weight", &[2, 2], 8, 0),
        tensor_entry("layers.1.ffn.weight", &[4], 2, 64),
        tensor_entry("output.bias", &[4], 8, 128),
    ];
    let f = parse(file_from(vec![], tensors)).unwrap();
    assert_eq!(f.tensors.len(), 3);
    assert!(f.is_quantized());
    assert_eq!(
        f.quantization_types(),
        vec![QuantizationType::Q4_0, QuantizationType::Q8_0]
    );
    // Q8_0: 4 x 8.5 bits = 34 bits -> 5 bytes, twice; Q4_0: 4 x 4.5 = 18 bits -> 3 bytes
    assert_eq!(f.total_size(), 5 + 3 + 5);
    assert_eq!(f.tensors[0].layer_number(), Some(0));
    assert_eq!(f.tensors[2].layer_number(), None);
    assert!(!f.tensors[2].is_weight_tensor());
}

#[test]
fn test_all_float_tensors_not_quantized() {
    let tensors = vec![
        tensor_entry("a", &[1], 0, 0),
        tensor_entry("b", &[1], 1, 0),
        tensor_entry("c", &[1], 28, 0),
    ];
    let f = parse(file_from(vec![], tensors)).unwrap();
    assert!(!f.is_quantized());
    assert_eq!(
        f.quantization_types(),
        vec![QuantizationType::F32, QuantizationType::F16, QuantizationType::F64]
    );
}

#[test]
fn test_layer_number_conventions() {
    let mk = |name: &str| TensorInfo {
        name: name.to_string(),
        dimensions: vec![1],
        quantization_type: QuantizationType::F32,
        offset: 0,
    };
    assert_eq!(mk("blocks.7.norm").layer_number(), Some(7));
    assert_eq!(mk("model.layers.12.mlp").layer_number(), Some(12));
    assert_eq!(mk("layers.nope.x").layer_number(), None);
    assert_eq!(mk("layers.12").layer_number(), None);
    assert_eq!(mk("embeddings").layer_number(), None);
    // the layers convention is scanned first
    assert_eq!(mk("layers.3.blocks.9.x").layer_number(), Some(3));
    // a failed layers parse falls back to the blocks convention
    assert_eq!(mk("layers.x.blocks.9.x").layer_number(), Some(9));
}

#[test]
fn test_truncated_value_payload() {
    let mut entries = vec![kv("k", 10, &[1, 2, 3])];
    // u64 payload needs eight bytes; only three are present
    let err = parse(file_from(entries.drain(..).collect(), vec![])).unwrap_err();
    assert_eq!(err, GgufError::UnexpectedEof);
}
