use vstd::prelude::*;

verus! {

/// Mathematical image of a [`GgufError`]: the same taxonomy with byte and
/// character sequences in place of the executable arrays and strings.
pub enum ErrorView {
    /// The four magic bytes were not the ASCII literal `GGUF`; carries the bytes read.
    InvalidMagic { magic: Seq<u8> },
    /// The header version was not the single supported value; carries the version read.
    UnsupportedVersion { version: u32 },
    /// A value-type tag outside the closed set of codes; carries the raw tag.
    InvalidValueType { tag: u32 },
    /// A quantization code outside the closed set of codes; carries the raw code.
    InvalidQuantizationType { code: u32 },
    /// A required metadata key was absent; carries the key.
    MetadataKeyNotFound { key: Seq<char> },
    /// A stored value's kind did not match the accessor's expected kind.
    InvalidMetadataValueType { key: Seq<char>, expected: Seq<char>, found: Seq<char> },
    /// A length-prefixed string was not valid UTF-8.
    InvalidUtf8,
    /// The byte source ended before a declared field could be read in full.
    UnexpectedEof,
    /// A tensor descriptor declared more than four dimensions.
    InvalidTensorDimensions,
    /// A configuration field could not be resolved; carries the field name.
    IncompleteModelConfig { field: Seq<char> },
}

/// Error taxonomy shared by every decode step: a format fault in the bytes,
/// a missing or ill-typed metadata entry, or an unresolvable configuration
/// field. Decoding is fail-fast, so one of these describes the first fault.
#[derive(Debug, Clone, PartialEq, Eq)]
pub enum GgufError {
    /// Magic bytes other than the ASCII literal `GGUF`, echoed back verbatim.
    InvalidMagic([u8; 4]),
    /// A header version other than the single supported value.
    UnsupportedVersion(u32),
    /// A value-type tag outside the closed set of codes.
    InvalidValueType(u32),
    /// A quantization code outside the closed set of codes.
    InvalidQuantizationType(u32),
    /// A required metadata key that is absent from the store.
    MetadataKeyNotFound(String),
    /// A stored value whose kind does not coerce to the requested kind.
    InvalidMetadataValueType { key: String, expected: String, found: String },
    /// Length-prefixed string bytes that are not valid UTF-8.
    InvalidUtf8,
    /// The byte source ended before a declared field could be read in full.
    UnexpectedEof,
    /// A tensor descriptor declaring more than four dimensions.
    InvalidTensorDimensions,
    /// A configuration field that could not be resolved from the metadata.
    IncompleteModelConfig(String),
}

impl View for GgufError {
    type V = ErrorView;

    open spec fn view(&self) -> ErrorView {
        match self {
            GgufError::InvalidMagic(m) => ErrorView::InvalidMagic { magic: m@ },
            GgufError::UnsupportedVersion(v) => ErrorView::UnsupportedVersion { version: *v },
            GgufError::InvalidValueType(t) => ErrorView::InvalidValueType { tag: *t },
            GgufError::InvalidQuantizationType(c) => ErrorView::InvalidQuantizationType {
                code: *c,
            },
            GgufError::MetadataKeyNotFound(k) => ErrorView::MetadataKeyNotFound { key: k@ },
            GgufError::InvalidMetadataValueType { key, expected, found } => {
                ErrorView::InvalidMetadataValueType {
                    key: key@,
                    expected: expected@,
                    found: found@,
                }
            },
            GgufError::InvalidUtf8 => ErrorView::InvalidUtf8,
            GgufError::UnexpectedEof => ErrorView::UnexpectedEof,
            GgufError::InvalidTensorDimensions => ErrorView::InvalidTensorDimensions,
            GgufError::IncompleteModelConfig(f) => ErrorView::IncompleteModelConfig { field: f@ },
        }
    }
}

} // verus!
