//! The three kinds of address and how a buffer is read as one of them.

use vstd::prelude::*;
use crate::layout::spec_path_offset;

verus! {

/// The byte `@`, which announces an abstract name where addresses are typed
/// in and written out.
pub const AT_SIGN: u8 = 0x40;

/// The byte `/`, which absolute paths begin with.
pub const SLASH: u8 = 0x2f;

/// What an address is, apart from how it is stored.
pub enum AddrKind {
    /// No name at all.
    Unnamed,
    /// A path in the file system, without any terminator.
    Path(Seq<u8>),
    /// A name in the abstract namespace, without its marker byte.
    Abstract(Seq<u8>),
}

/// Reads `used_len` bytes of a `sockaddr_un` whose path field holds `path`.
///
/// Nothing past the used length is looked at. A first path byte of zero marks
/// an abstract name; otherwise the bytes are a path, less one NUL at the end
/// if there is one.
pub open spec fn addr_kind(path: Seq<u8>, used_len: int) -> AddrKind {
    let name_len = used_len - spec_path_offset();
    if name_len <= 0 {
        AddrKind::Unnamed
    } else if path[0] == 0 {
        AddrKind::Abstract(path.subrange(1, name_len))
    } else {
        let bytes = path.subrange(0, name_len);
        if bytes.last() == 0 {
            AddrKind::Path(bytes.drop_last())
        } else {
            AddrKind::Path(bytes)
        }
    }
}

/// A borrowed view of an address that can be matched on.
///
/// It cannot be used to bind or connect a socket, as it no longer holds a
/// `sockaddr_un`.
#[derive(Clone, Copy, Debug, PartialEq, Eq, Hash)]
pub enum UnixSocketAddrRef<'a> {
    /// Unnamed / anonymous address.
    Unnamed,
    /// The bytes of a file path, relative or absolute.
    Path(&'a [u8]),
    /// A name in the abstract namespace.
    Abstract(&'a [u8]),
}

impl<'a> View for UnixSocketAddrRef<'a> {
    type V = AddrKind;

    open spec fn view(&self) -> AddrKind {
        match *self {
            UnixSocketAddrRef::Unnamed => AddrKind::Unnamed,
            UnixSocketAddrRef::Path(bytes) => AddrKind::Path(bytes@),
            UnixSocketAddrRef::Abstract(name) => AddrKind::Abstract(name@),
        }
    }
}

} // verus!
