//! Classification of a container by its leading bytes.

use crate::error::ExtractError;
use vstd::prelude::*;

verus! {

/// The container a payload arrives in.
#[derive(Debug, Clone, Copy, PartialEq, Eq, Structural)]
pub enum FileKind {
    /// An archive wrapper that holds the payload as one of its entries.
    Zip,
    /// The raw delta archive itself.
    Bin,
}

/// The two bytes every archive wrapper starts with.
pub open spec fn zip_signature() -> Seq<u8> {
    seq![0x50u8, 0x4Bu8]
}

/// The four bytes every raw delta archive starts with.
pub open spec fn payload_signature() -> Seq<u8> {
    seq![0x43u8, 0x72u8, 0x41u8, 0x55u8]
}

/// What a four-byte prefix says about its container. The archive-wrapper
/// signature is looked for first and is only two bytes long.
pub open spec fn classify(magic: Seq<u8>) -> Option<FileKind> {
    if magic.len() >= 2 && magic.subrange(0, 2) == zip_signature() {
        Some(FileKind::Zip)
    } else if magic == payload_signature() {
        Some(FileKind::Bin)
    } else {
        None
    }
}

/// Classifies a container by the first four bytes read from it.
pub fn detect(magic: &[u8; 4]) -> (kind: Result<FileKind, ExtractError>)
    ensures
        match classify(magic@) {
            Some(k) => kind == Ok::<FileKind, ExtractError>(k),
            None => kind is Err && kind->Err_0 is UnsupportedFormat,
        },
{
    proof {
        assert(magic@.subrange(0, 2) == zip_signature() <==> (magic@[0] == 0x50 && magic@[1]
            == 0x4B)) by {
            if magic@[0] == 0x50 && magic@[1] == 0x4B {
                assert(magic@.subrange(0, 2) =~= zip_signature());
            } else {
                assert(magic@.subrange(0, 2)[0] == magic@[0]);
                assert(magic@.subrange(0, 2)[1] == magic@[1]);
            }
        }
        assert(magic@ == payload_signature() <==> (magic@[0] == 0x43 && magic@[1] == 0x72
            && magic@[2] == 0x41 && magic@[3] == 0x55)) by {
            if magic@[0] == 0x43 && magic@[1] == 0x72 && magic@[2] == 0x41 && magic@[3] == 0x55 {
                assert(magic@ =~= payload_signature());
            }
        }
    }
    if magic[0] == 0x50 && magic[1] == 0x4B {
        Ok(FileKind::Zip)
    } else if magic[0] == 0x43 && magic[1] == 0x72 && magic[2] == 0x41 && magic[3] == 0x55 {
        Ok(FileKind::Bin)
    } else {
        Err(ExtractError::UnsupportedFormat)
    }
}

} // verus!
