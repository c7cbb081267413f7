//! What each way of making an address puts into the buffer.
//!
//! An address is decided by two things, the bytes of its path field and the
//! number of bytes in use. The functions here say, for every input of every
//! constructor, which two those are or why there are none.

use vstd::prelude::*;
use crate::error::AddrError;
use crate::kind::{addr_kind, AddrKind, AT_SIGN};
use crate::layout::{spec_path_offset, supports_abstract, SockaddrUn, AF_UNIX, SUN_PATH_LEN};

verus! {

/// The bytes of the path field of an address, and the number of bytes of the
/// whole structure that are in use.
pub struct Encoding {
    pub path: Seq<u8>,
    pub used_len: int,
}

impl Encoding {
    /// The kind of address these bytes stand for.
    pub open spec fn kind(self) -> AddrKind {
        addr_kind(self.path, self.used_len)
    }
}

/// A path field that begins with `content` and is zero from there on.
pub open spec fn zero_padded(content: Seq<u8>) -> Seq<u8> {
    Seq::new(
        SUN_PATH_LEN as nat,
        |i: int|
            if i < content.len() {
                content[i]
            } else {
                0u8
            },
    )
}

/// The encoding of the address without a name: nothing of the path in use.
pub open spec fn unspecified_encoding() -> Encoding {
    Encoding { path: zero_padded(Seq::empty()), used_len: spec_path_offset() }
}

/// The encoding of a path that fits: its bytes, and one terminating NUL
/// counted in where there is room for it.
pub open spec fn path_encoding(path: Seq<u8>) -> Encoding {
    Encoding {
        path: zero_padded(path),
        used_len: spec_path_offset() + path.len() + if path.len() < SUN_PATH_LEN {
            1int
        } else {
            0int
        },
    }
}

/// The encoding of an abstract name that fits: a zero marker byte, then the
/// name, with no terminator.
pub open spec fn abstract_encoding(name: Seq<u8>) -> Encoding {
    Encoding { path: zero_padded(seq![0u8] + name), used_len: spec_path_offset() + 1 + name.len() }
}

/// What `from_path` makes of a path.
pub open spec fn spec_from_path(path: Seq<u8>) -> Result<Encoding, AddrError> {
    if path.len() == 0 {
        Err(AddrError::EmptyPath)
    } else if path.len() > SUN_PATH_LEN {
        Err(AddrError::PathTooLong)
    } else if path.contains(0u8) {
        Err(AddrError::PathContainsNul)
    } else {
        Ok(path_encoding(path))
    }
}

/// What `from_abstract` makes of a name.
pub open spec fn spec_from_abstract(name: Seq<u8>) -> Result<Encoding, AddrError> {
    if !supports_abstract() {
        Err(AddrError::AbstractUnsupported)
    } else if name.len() > SUN_PATH_LEN - 1 {
        Err(AddrError::AbstractTooLong)
    } else {
        Ok(abstract_encoding(name))
    }
}

/// What `new` makes of a free-form address: a leading `@` or NUL announces an
/// abstract name, nothing at all is the unnamed address, the rest are paths.
pub open spec fn spec_new(addr: Seq<u8>) -> Result<Encoding, AddrError> {
    if addr.len() == 0 {
        Ok(unspecified_encoding())
    } else if addr[0] == AT_SIGN || addr[0] == 0 {
        spec_from_abstract(addr.subrange(1, addr.len() as int))
    } else {
        spec_from_path(addr)
    }
}

/// Whether `n` is where the NUL-terminated string inside `bytes` ends: at the
/// first NUL, or at the end of `bytes` where there is none.
pub open spec fn is_c_str_len(bytes: Seq<u8>, n: int) -> bool {
    &&& 0 <= n <= bytes.len()
    &&& forall|i: int| 0 <= i < n ==> bytes[i] != 0
    &&& n < bytes.len() ==> bytes[n] == 0
}

/// The content of a NUL-terminated string: what stands before its first NUL.
pub open spec fn c_str_content(bytes: Seq<u8>) -> Seq<u8> {
    bytes.subrange(0, choose|n: int| is_c_str_len(bytes, n))
}

/// What `from_c_str` makes of a NUL-terminated string: its content is taken
/// as a path, but for the empty one, which is the unnamed address.
pub open spec fn spec_from_c_str(bytes: Seq<u8>) -> Result<Encoding, AddrError> {
    let content = c_str_content(bytes);
    if content.len() == 0 {
        Ok(unspecified_encoding())
    } else {
        spec_from_path(content)
    }
}

/// What `from_raw` makes of a structure that may be missing and a length: the
/// first `len` bytes of the structure, once the length and the family tag
/// have been found in order.
pub open spec fn spec_from_raw(addr: Option<&SockaddrUn>, len: u32) -> Result<
    Encoding,
    AddrError,
> {
    match addr {
        None => if len == 0 {
            Ok(unspecified_encoding())
        } else {
            Err(AddrError::NullAddress)
        },
        Some(raw) => if len < spec_path_offset() {
            Err(AddrError::LengthTooLow)
        } else if len > spec_path_offset() + SUN_PATH_LEN {
            Err(AddrError::LengthTooHigh)
        } else if raw.sun_family != AF_UNIX {
            Err(AddrError::NotUnix)
        } else {
            Ok(
                Encoding {
                    path: zero_padded(raw.sun_path@.subrange(0, len - spec_path_offset())),
                    used_len: len as int,
                },
            )
        },
    }
}

/// A string ends in one place only.
pub proof fn lemma_c_str_len_unique(bytes: Seq<u8>, n: int, m: int)
    requires
        is_c_str_len(bytes, n),
        is_c_str_len(bytes, m),
    ensures
        n == m,
{
    if n < m {
        assert(bytes[n] != 0);
    } else if m < n {
        assert(bytes[m] != 0);
    }
}

/// Once the end of a string is known, so is its content, and it holds no NUL.
pub proof fn lemma_c_str_content(bytes: Seq<u8>, n: int)
    requires
        is_c_str_len(bytes, n),
    ensures
        c_str_content(bytes) == bytes.subrange(0, n),
        !c_str_content(bytes).contains(0u8),
{
    lemma_c_str_len_unique(bytes, n, choose|m: int| is_c_str_len(bytes, m));
}

} // verus!
