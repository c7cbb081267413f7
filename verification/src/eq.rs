//! Equality of addresses: by what they are, not by how they are stored.

use vstd::prelude::*;
use vstd::slice::slice_subrange;
use vstd::std_specs::cmp::PartialEqSpecImpl;
use crate::addr::UnixSocketAddr;
use crate::bytes::bytes_eq;
use crate::kind::{AddrKind, UnixSocketAddrRef};

verus! {

/// Whether an address is the one that `unescaped` spells out: the bytes of a
/// path as they are, an abstract name behind a NUL byte, and nothing for the
/// unnamed address.
pub open spec fn spells(kind: AddrKind, unescaped: Seq<u8>) -> bool {
    match kind {
        AddrKind::Unnamed => unescaped.len() == 0,
        AddrKind::Path(path) => unescaped.len() > 0 && path == unescaped,
        AddrKind::Abstract(name) => unescaped.len() > 0 && unescaped[0] == 0 && name
            == unescaped.subrange(1, unescaped.len() as int),
    }
}

impl PartialEq for UnixSocketAddr {
    /// Two addresses are equal when they are of the same kind and have the
    /// same path or name. Bytes that are not in use do not count, nor does
    /// the terminator of a path.
    fn eq(&self, other: &UnixSocketAddr) -> (same: bool) {
        match (self.as_ref(), other.as_ref()) {
            (UnixSocketAddrRef::Unnamed, UnixSocketAddrRef::Unnamed) => true,
            (UnixSocketAddrRef::Path(a), UnixSocketAddrRef::Path(b)) => bytes_eq(a, b),
            (UnixSocketAddrRef::Abstract(a), UnixSocketAddrRef::Abstract(b)) => bytes_eq(a, b),
            _ => false,
        }
    }
}

impl PartialEqSpecImpl for UnixSocketAddr {
    open spec fn obeys_eq_spec() -> bool {
        true
    }

    open spec fn eq_spec(&self, other: &UnixSocketAddr) -> bool {
        self@ == other@
    }
}

impl Eq for UnixSocketAddr {}

impl PartialEq<[u8]> for UnixSocketAddr {
    /// Compares with an address written out as bytes, see [`spells`].
    fn eq(&self, unescaped: &[u8]) -> (same: bool) {
        match self.as_ref() {
            UnixSocketAddrRef::Unnamed => unescaped.len() == 0,
            UnixSocketAddrRef::Path(path) => unescaped.len() > 0 && bytes_eq(path, unescaped),
            UnixSocketAddrRef::Abstract(name) => unescaped.len() > 0 && unescaped[0] == 0
                && bytes_eq(name, slice_subrange(unescaped, 1, unescaped.len())),
        }
    }
}

impl PartialEqSpecImpl<[u8]> for UnixSocketAddr {
    open spec fn obeys_eq_spec() -> bool {
        true
    }

    open spec fn eq_spec(&self, unescaped: &[u8]) -> bool {
        spells(self@, unescaped@)
    }
}

impl PartialEq<UnixSocketAddr> for [u8] {
    fn eq(&self, addr: &UnixSocketAddr) -> (same: bool) {
        addr == self
    }
}

impl PartialEqSpecImpl<UnixSocketAddr> for [u8] {
    open spec fn obeys_eq_spec() -> bool {
        true
    }

    open spec fn eq_spec(&self, addr: &UnixSocketAddr) -> bool {
        spells(addr@, self@)
    }
}

} // verus!
