//! The address value, its constructors and its raw parts.

use vstd::prelude::*;
use vstd::slice::slice_subrange;
use vstd::std_specs::convert::FromSpecImpl;
use crate::bytes::{c_str_len, contains_nul, copy_bytes};
use crate::encoding::{
    abstract_encoding, lemma_c_str_content, path_encoding, spec_from_abstract, spec_from_c_str,
    spec_from_path, spec_from_raw, spec_new, unspecified_encoding, zero_padded, Encoding,
};
use crate::error::AddrError;
use crate::kind::{AddrKind, UnixSocketAddrRef, AT_SIGN, SLASH};
use crate::laws::{law_abstract_round_trip, law_path_round_trip};
use crate::layout::{
    has_abstract_namespace, native_family, native_path_capacity, path_offset, supports_abstract,
    SockaddrUn, AF_UNIX, SOCKADDR_UN_SIZE, SUN_PATH_LEN,
};

verus! {

/// What an address of the standard library shows of itself.
#[derive(Clone, Copy, Debug)]
pub enum StdAddr<'a> {
    /// It is bound to this path.
    Pathname(&'a [u8]),
    /// It has no name.
    Unnamed,
    /// It is neither, which leaves an abstract name that cannot be read.
    Other,
}

/// A Unix-domain socket address.
///
/// Unlike the address type of the standard library, this one can hold
/// abstract addresses and can be made by the caller, not only received from
/// the kernel.
///
/// Addresses are compared by what they are, see [`AddrKind`]. To use them as
/// keys, hash what [`UnixSocketAddr::as_ref`] gives, which is compared the
/// same way.
#[derive(Clone, Copy, Debug)]
pub struct UnixSocketAddr {
    addr: SockaddrUn,
    /// How many bytes of `addr` are in use.
    len: u32,
}

impl View for UnixSocketAddr {
    type V = AddrKind;

    open spec fn view(&self) -> AddrKind {
        self.encoding().kind()
    }
}

/// Whether a constructor gave what was expected of it: the address with the
/// expected encoding, or the expected error.
pub open spec fn built(
    res: Result<UnixSocketAddr, AddrError>,
    expected: Result<Encoding, AddrError>,
) -> bool {
    match expected {
        Ok(encoding) => res matches Ok(addr) && addr.wf() && addr.encoding() == encoding,
        Err(error) => res == Err::<UnixSocketAddr, AddrError>(error),
    }
}

impl UnixSocketAddr {
    #[verifier::type_invariant]
    spec fn inv(self) -> bool {
        self.wf()
    }

    /// The image of `sockaddr_un` inside this address.
    pub closed spec fn raw(&self) -> SockaddrUn {
        self.addr
    }

    /// The number of bytes of the image that are in use.
    pub closed spec fn used_len(&self) -> u32 {
        self.len
    }

    /// Every address has the Unix-domain family and uses no more bytes than
    /// the structure has.
    pub open spec fn wf(&self) -> bool {
        &&& self.raw().sun_family == AF_UNIX
        &&& self.used_len() <= SOCKADDR_UN_SIZE
    }

    /// The path bytes and the used length of this address.
    pub open spec fn encoding(&self) -> Encoding {
        Encoding { path: self.raw().sun_path@, used_len: self.used_len() as int }
    }

    /// The largest number of bytes a path address can have.
    pub open spec fn spec_max_path_len() -> int {
        SUN_PATH_LEN as int
    }

    /// The largest number of bytes an abstract name can have.
    pub open spec fn spec_max_abstract_len() -> int {
        SUN_PATH_LEN - 1
    }

    /// Creates an unnamed address, which on Linux can be used for auto-bind.
    ///
    /// Binding a socket to the unnamed address is not the same as leaving it
    /// unbound: Linux then binds it to an abstract address of its choosing.
    pub fn new_unspecified() -> (addr: Self)
        ensures
            addr.wf(),
            addr.encoding() == unspecified_encoding(),
            addr@ == AddrKind::Unnamed,
    {
        let addr = UnixSocketAddr {
            addr: SockaddrUn { sun_family: native_family(), sun_path: [0u8; SUN_PATH_LEN] },
            len: path_offset(),
        };
        assert(addr.addr.sun_path@ =~= unspecified_encoding().path);
        addr
    }

    /// The maximum size of pathname addresses: the size of `sun_path`.
    pub fn max_path_len() -> (n: usize)
        ensures
            n == Self::spec_max_path_len(),
    {
        native_path_capacity()
    }

    /// The maximum size of abstract names: the size of `sun_path` less one
    /// for the leading marker byte.
    ///
    /// The value is the same where abstract addresses are not supported.
    pub fn max_abstract_len() -> (n: usize)
        ensures
            n == Self::spec_max_abstract_len(),
    {
        native_path_capacity() - 1
    }

    /// Whether the operating system is known to support abstract addresses.
    pub fn has_abstract_addresses() -> (yes: bool)
        ensures
            yes == supports_abstract(),
    {
        has_abstract_namespace()
    }

    /// The address of a path that is known to fit.
    fn encode_path(path: &[u8]) -> (addr: Self)
        requires
            0 < path.len() <= SUN_PATH_LEN,
        ensures
            addr.wf(),
            addr.encoding() == path_encoding(path@),
    {
        let mut sun_path = [0u8; SUN_PATH_LEN];
        copy_bytes(&mut sun_path, 0, path);
        let mut len: u32 = path_offset() + path.len() as u32;
        if path.len() < native_path_capacity() {
            // count the terminator in, for the systems that expect one
            len += 1;
        }
        assert(sun_path@ =~= path_encoding(path@).path);
        UnixSocketAddr { addr: SockaddrUn { sun_family: native_family(), sun_path }, len }
    }

    /// Creates a pathname address from the bytes of a path.
    ///
    /// # Errors
    ///
    /// Fails if the path is empty, is longer than `sun_path`, or holds a NUL
    /// byte.
    pub fn from_path(path: &[u8]) -> (res: Result<Self, AddrError>)
        ensures
            built(res, spec_from_path(path@)),
            0 < path.len() <= Self::spec_max_path_len() && !path@.contains(0u8) ==> (res matches Ok(
                addr,
            ) && addr@ == AddrKind::Path(path@)),
    {
        if path.len() == 0 {
            Err(AddrError::EmptyPath)
        } else if path.len() > native_path_capacity() {
            Err(AddrError::PathTooLong)
        } else if contains_nul(path) {
            Err(AddrError::PathContainsNul)
        } else {
            let addr = Self::encode_path(path);
            proof {
                law_path_round_trip(path@);
            }
            Ok(addr)
        }
    }

    /// Creates an address in the abstract namespace.
    ///
    /// Abstract addresses live apart from the file system, in a flat
    /// namespace without permissions, and vanish when the socket bound to
    /// them is closed. The name may hold any bytes, NUL among them.
    ///
    /// # Errors
    ///
    /// Fails where abstract addresses are not supported, whatever the name,
    /// and if the name is longer than `max_abstract_len()`.
    pub fn from_abstract(name: &[u8]) -> (res: Result<Self, AddrError>)
        ensures
            built(res, spec_from_abstract(name@)),
            name.len() <= Self::spec_max_abstract_len() && supports_abstract() ==> (res matches Ok(
                addr,
            ) && addr@ == AddrKind::Abstract(name@)),
            !supports_abstract() ==> res == Err::<Self, AddrError>(AddrError::AbstractUnsupported),
    {
        if !Self::has_abstract_addresses() {
            Err(AddrError::AbstractUnsupported)
        } else if name.len() > Self::max_abstract_len() {
            Err(AddrError::AbstractTooLong)
        } else {
            let mut sun_path = [0u8; SUN_PATH_LEN];
            copy_bytes(&mut sun_path, 1, name);
            let len: u32 = path_offset() + 1 + name.len() as u32;
            assert(sun_path@ =~= abstract_encoding(name@).path);
            proof {
                law_abstract_round_trip(name@);
            }
            Ok(UnixSocketAddr { addr: SockaddrUn { sun_family: native_family(), sun_path }, len })
        }
    }

    /// Creates an abstract, pathname or unnamed address from what a user
    /// typed.
    ///
    /// A leading `@` or NUL byte announces an abstract name, which is what
    /// follows it. Nothing at all is the unnamed address. Everything else is
    /// a path; a relative path that begins with `@` has to be written with
    /// `./` before it. Abstract names are recognised whether or not the
    /// system supports them, and are an error where it does not.
    ///
    /// # Errors
    ///
    /// Those of `from_abstract` and of `from_path`.
    pub fn new(addr: &[u8]) -> (res: Result<Self, AddrError>)
        ensures
            built(res, spec_new(addr@)),
    {
        if addr.len() == 0 {
            Ok(Self::new_unspecified())
        } else if addr[0] == AT_SIGN || addr[0] == 0 {
            Self::from_abstract(slice_subrange(addr, 1, addr.len()))
        } else {
            Self::from_path(addr)
        }
    }

    /// Creates an unnamed or pathname address from a NUL-terminated string.
    ///
    /// The string is what stands before the first NUL in `bytes`, or all of
    /// `bytes` where there is none. The empty string gives the unnamed
    /// address. Abstract addresses cannot be made this way.
    ///
    /// # Errors
    ///
    /// Fails if the string is longer than `sun_path`.
    pub fn from_c_str(bytes: &[u8]) -> (res: Result<Self, AddrError>)
        ensures
            built(res, spec_from_c_str(bytes@)),
    {
        let n = c_str_len(bytes);
        proof {
            lemma_c_str_content(bytes@, n as int);
        }
        if n == 0 {
            Ok(Self::new_unspecified())
        } else if n > native_path_capacity() {
            Err(AddrError::PathTooLong)
        } else {
            Ok(Self::encode_path(slice_subrange(bytes, 0, n)))
        }
    }

    /// Converts what the standard library shows of one of its addresses.
    ///
    /// Gives nothing for an abstract address, whose name the standard library
    /// keeps to itself. The path of a pathname address came out of a
    /// `sockaddr_un` and so can be put into one.
    pub fn from_std(addr: StdAddr<'_>) -> (res: Option<Self>)
        requires
            addr matches StdAddr::Pathname(path) ==> spec_from_path(path@) is Ok,
        ensures
            match addr {
                StdAddr::Pathname(path) => res matches Some(a) && a.wf() && a.encoding()
                    == path_encoding(path@),
                StdAddr::Unnamed => res matches Some(a) && a.wf() && a.encoding()
                    == unspecified_encoding(),
                StdAddr::Other => res is None,
            },
    {
        match addr {
            StdAddr::Pathname(path) => Some(Self::encode_path(path)),
            StdAddr::Unnamed => Some(Self::new_unspecified()),
            StdAddr::Other => None,
        }
    }

    /// Whether this address has no name.
    ///
    /// Where abstract addresses do not exist, a name that begins with NUL
    /// counts as none: some systems return such addresses for unnamed
    /// sockets.
    pub fn is_unnamed(&self) -> (yes: bool)
        ensures
            yes == (self@ is Unnamed || (!supports_abstract() && self@ is Abstract)),
    {
        proof {
            use_type_invariant(self);
        }
        if Self::has_abstract_addresses() {
            self.len <= path_offset()
        } else {
            self.len <= path_offset() || self.addr.sun_path[0] == 0
        }
    }

    /// Whether this is an address in the abstract namespace.
    pub fn is_abstract(&self) -> (yes: bool)
        ensures
            yes == (supports_abstract() && self@ is Abstract),
    {
        proof {
            use_type_invariant(self);
        }
        if Self::has_abstract_addresses() {
            self.len > path_offset() && self.addr.sun_path[0] == 0
        } else {
            false
        }
    }

    /// Whether this is the address of a path that begins at the root.
    pub fn is_absolute_path(&self) -> (yes: bool)
        ensures
            yes == (self@ matches AddrKind::Path(path) && path.len() > 0 && path[0] == SLASH),
    {
        proof {
            use_type_invariant(self);
        }
        self.len > path_offset() && self.addr.sun_path[0] == SLASH
    }

    /// Whether this is the address of a path that does not begin at the root.
    pub fn is_relative_path(&self) -> (yes: bool)
        ensures
            yes == (self@ matches AddrKind::Path(path) && path.len() > 0 && path[0] != SLASH),
    {
        proof {
            use_type_invariant(self);
        }
        self.len > path_offset() && self.addr.sun_path[0] != 0 && self.addr.sun_path[0] != SLASH
    }

    /// Whether this is the address of a path.
    pub fn is_path(&self) -> (yes: bool)
        ensures
            yes == (self@ is Path),
    {
        proof {
            use_type_invariant(self);
        }
        self.len > path_offset() && self.addr.sun_path[0] != 0
    }

    /// Gets a view that can be matched on for the kind of address.
    pub fn as_ref(&self) -> (kind: UnixSocketAddrRef<'_>)
        ensures
            kind@ == self@,
    {
        proof {
            use_type_invariant(self);
        }
        let offset = path_offset();
        if self.len <= offset {
            UnixSocketAddrRef::Unnamed
        } else {
            let name_len: usize = (self.len - offset) as usize;
            let path = self.addr.sun_path.as_slice();
            if path[0] == 0 {
                UnixSocketAddrRef::Abstract(slice_subrange(path, 1, name_len))
            } else if path[name_len - 1] == 0 {
                // leave the terminator out
                assert(path@.subrange(0, name_len as int).drop_last() =~= path@.subrange(
                    0,
                    name_len - 1,
                ));
                UnixSocketAddrRef::Path(slice_subrange(path, 0, name_len - 1))
            } else {
                UnixSocketAddrRef::Path(slice_subrange(path, 0, name_len))
            }
        }
    }

    /// Creates an address from what may be a missing structure, and a length.
    ///
    /// `addr` stands for a pointer to a `sockaddr`: `None` for the null
    /// pointer, else the memory it points to, of which only the first `len`
    /// bytes are looked at. Null with a length of zero is the unnamed
    /// address.
    ///
    /// # Errors
    ///
    /// Fails if the address is missing and the length is not zero, if the
    /// length ends before `sun_path` or after it, and if the family is not
    /// that of Unix-domain sockets.
    pub fn from_raw(addr: Option<&SockaddrUn>, len: u32) -> (res: Result<Self, AddrError>)
        ensures
            built(res, spec_from_raw(addr, len)),
    {
        match addr {
            None => {
                if len == 0 {
                    Ok(Self::new_unspecified())
                } else {
                    Err(AddrError::NullAddress)
                }
            },
            Some(raw) => {
                let offset = path_offset();
                if len < offset {
                    Err(AddrError::LengthTooLow)
                } else if len > offset + native_path_capacity() as u32 {
                    Err(AddrError::LengthTooHigh)
                } else if raw.sun_family != native_family() {
                    Err(AddrError::NotUnix)
                } else {
                    let used: usize = (len - offset) as usize;
                    let mut sun_path = [0u8; SUN_PATH_LEN];
                    copy_bytes(&mut sun_path, 0, slice_subrange(raw.sun_path.as_slice(), 0, used));
                    assert(sun_path@ =~= zero_padded(raw.sun_path@.subrange(0, used as int)));
                    Ok(
                        UnixSocketAddr {
                            addr: SockaddrUn { sun_family: raw.sun_family, sun_path },
                            len,
                        },
                    )
                }
            },
        }
    }

    /// Creates an address from its raw parts without looking at them.
    ///
    /// The caller answers for the two conditions: the length is not greater
    /// than the size of `sockaddr_un`, and the family is `AF_UNIX`.
    pub fn from_raw_unchecked(addr: SockaddrUn, len: u32) -> (res: Self)
        requires
            len <= SOCKADDR_UN_SIZE,
            addr.sun_family == AF_UNIX,
        ensures
            res.raw() == addr,
            res.used_len() == len,
            res.wf(),
    {
        UnixSocketAddr { addr, len }
    }

    /// Splits the address into its raw parts.
    pub fn into_raw(self) -> (parts: (SockaddrUn, u32))
        ensures
            parts.0 == self.raw(),
            parts.1 == self.used_len(),
            self.wf(),
    {
        proof {
            use_type_invariant(&self);
        }
        (self.addr, self.len)
    }

    /// Gets a reference to the inner structure, and the length in use.
    pub fn as_raw(&self) -> (parts: (&SockaddrUn, u32))
        ensures
            *parts.0 == self.raw(),
            parts.1 == self.used_len(),
            self.wf(),
    {
        proof {
            use_type_invariant(self);
        }
        (&self.addr, self.len)
    }
}

impl<'a> From<&'a UnixSocketAddr> for UnixSocketAddrRef<'a> {
    /// The same view as `as_ref` gives.
    fn from(addr: &'a UnixSocketAddr) -> (kind: UnixSocketAddrRef<'a>)
        ensures
            kind@ == addr@,
    {
        let kind = addr.as_ref();
        proof {
            // two views of one kind borrow equal bytes, so they are one view
            let chosen = choose|k: UnixSocketAddrRef<'a>| k@ == addr@;
            assert(chosen@ == kind@);
            match (kind, chosen) {
                (UnixSocketAddrRef::Path(a), UnixSocketAddrRef::Path(b)) => {
                    assert(a =~= b);
                },
                (UnixSocketAddrRef::Abstract(a), UnixSocketAddrRef::Abstract(b)) => {
                    assert(a =~= b);
                },
                _ => {},
            }
        }
        kind
    }
}

impl<'a> FromSpecImpl<&'a UnixSocketAddr> for UnixSocketAddrRef<'a> {
    open spec fn obeys_from_spec() -> bool {
        true
    }

    open spec fn from_spec(addr: &'a UnixSocketAddr) -> UnixSocketAddrRef<'a> {
        choose|kind: UnixSocketAddrRef<'a>| kind@ == addr@
    }
}

impl Default for UnixSocketAddr {
    /// The unnamed address.
    fn default() -> (addr: Self)
        ensures
            addr.wf(),
            addr.encoding() == unspecified_encoding(),
    {
        Self::new_unspecified()
    }
}

} // verus!
