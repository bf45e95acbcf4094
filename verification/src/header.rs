use vstd::prelude::*;
use vstd::bytes::{spec_u32_from_le_bytes, spec_u64_from_le_bytes};
use crate::error::{ErrorView, GgufError};
use crate::source::ByteReader;

verus! {

/// The four magic bytes that open every file: ASCII `GGUF`.
pub open spec fn spec_magic() -> Seq<u8> {
    seq![0x47u8, 0x47u8, 0x55u8, 0x46u8]
}

/// The single supported format version; all others are rejected.
pub const SUPPORTED_VERSION: u32 = 3;

/// Number of bytes in the fixed preamble: magic, version, and the two
/// counts.
pub const HEADER_SIZE: usize = 24;

/// Mathematical image of a [`GgufHeader`].
pub struct HeaderView {
    pub magic: Seq<u8>,
    pub version: u32,
    pub tensor_count: u64,
    pub metadata_kv_count: u64,
}

/// The fixed-size preamble: magic, version, and how many tensor
/// descriptors and metadata entries follow.
#[derive(Debug, Clone, Copy, PartialEq, Eq)]
pub struct GgufHeader {
    pub magic: [u8; 4],
    pub version: u32,
    pub tensor_count: u64,
    pub metadata_kv_count: u64,
}

impl View for GgufHeader {
    type V = HeaderView;

    open spec fn view(&self) -> HeaderView {
        HeaderView {
            magic: self.magic@,
            version: self.version,
            tensor_count: self.tensor_count,
            metadata_kv_count: self.metadata_kv_count,
        }
    }
}

/// What decoding the preamble at byte offset `pos` yields: the header and
/// the bytes it occupies, or the first fault. The magic is checked before
/// the version is even read, and a wrong version is rejected outright.
pub open spec fn spec_parse_header(bytes: Seq<u8>, pos: int) -> Result<(HeaderView, int), ErrorView> {
    if pos + 4 > bytes.len() {
        Err(ErrorView::UnexpectedEof)
    } else {
        let m = bytes.subrange(pos, pos + 4);
        if m != spec_magic() {
            Err(ErrorView::InvalidMagic { magic: m })
        } else if pos + 8 > bytes.len() {
            Err(ErrorView::UnexpectedEof)
        } else {
            let v = spec_u32_from_le_bytes(bytes.subrange(pos + 4, pos + 8));
            if v != SUPPORTED_VERSION {
                Err(ErrorView::UnsupportedVersion { version: v })
            } else if pos + 16 > bytes.len() {
                Err(ErrorView::UnexpectedEof)
            } else if pos + 24 > bytes.len() {
                Err(ErrorView::UnexpectedEof)
            } else {
                Ok(
                    (
                        HeaderView {
                            magic: m,
                            version: v,
                            tensor_count: spec_u64_from_le_bytes(bytes.subrange(pos + 8, pos + 16)),
                            metadata_kv_count: spec_u64_from_le_bytes(
                                bytes.subrange(pos + 16, pos + 24),
                            ),
                        },
                        24,
                    ),
                )
            }
        }
    }
}

impl GgufHeader {
    /// Decodes the preamble from the source, consuming exactly the bytes
    /// [`spec_parse_header`] declares and yielding exactly the header it
    /// declares, or its error.
    pub fn read(r: &mut ByteReader) -> (res: Result<GgufHeader, GgufError>)
        requires
            old(r).wf(),
        ensures
            final(r).bytes() == old(r).bytes(),
            final(r).wf(),
            match spec_parse_header(old(r).bytes(), old(r).pos()) {
                Ok(hc) => res is Ok && res->Ok_0@ == hc.0 && final(r).pos() == old(r).pos()
                    + hc.1,
                Err(e) => res is Err && res->Err_0@ == e,
            },
    {
        let m = match r.read_bytes(4) {
            Ok(v) => v,
            Err(e) => return Err(e),
        };
        let mut magic: [u8; 4] = [0u8; 4];
        magic[0] = m[0];
        magic[1] = m[1];
        magic[2] = m[2];
        magic[3] = m[3];
        proof {
            assert(magic@ =~= m@);
        }
        // ASCII `G`, `G`, `U`, `F`
        if !(m[0] == 0x47 && m[1] == 0x47 && m[2] == 0x55 && m[3] == 0x46) {
            proof {
                assert(m@ != spec_magic());
            }
            return Err(GgufError::InvalidMagic(magic));
        }
        proof {
            assert(m@ =~= spec_magic());
        }
        let version = match r.read_u32_le() {
            Ok(v) => v,
            Err(e) => return Err(e),
        };
        if version != SUPPORTED_VERSION {
            return Err(GgufError::UnsupportedVersion(version));
        }
        let tensor_count = match r.read_u64_le() {
            Ok(v) => v,
            Err(e) => return Err(e),
        };
        let metadata_kv_count = match r.read_u64_le() {
            Ok(v) => v,
            Err(e) => return Err(e),
        };
        Ok(GgufHeader { magic, version, tensor_count, metadata_kv_count })
    }

    /// The preamble's size in bytes.
    pub fn size(&self) -> (r: usize)
        ensures
            r == HEADER_SIZE,
    {
        4 + 4 + 8 + 8  // magic + version + tensor_count + metadata_kv_count
    }

    /// True when the magic and version are the ones this decoder accepts.
    pub fn is_valid(&self) -> (r: bool)
        ensures
            r == (self@.magic == spec_magic() && self.version == SUPPORTED_VERSION),
    {
        let magic_ok = self.magic[0] == 0x47 && self.magic[1] == 0x47 && self.magic[2] == 0x55
            && self.magic[3] == 0x46;
        proof {
            if magic_ok {
                assert(self.magic@ =~= spec_magic());
            } else {
                assert(self.magic@ != spec_magic());
            }
        }
        magic_ok && self.version == SUPPORTED_VERSION
    }
}

} // verus!
