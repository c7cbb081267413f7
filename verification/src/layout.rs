//! The byte layout of `sockaddr_un` and what the platform offers.
//!
//! The numbers are those of Linux and Android. They are read from `libc`
//! where they are used, and the crate only builds where `libc` declares the
//! structure with these two fields and this many path bytes.

use vstd::prelude::*;

verus! {

/// Number of bytes in the `sun_path` field of `sockaddr_un`.
pub const SUN_PATH_LEN: usize = 108;

/// Number of bytes in the whole of `sockaddr_un`.
pub const SOCKADDR_UN_SIZE: usize = 110;

/// The address family of Unix-domain sockets, as stored in `sun_family`.
pub const AF_UNIX: u16 = 1;

/// An image of the kernel's `sockaddr_un`: the family tag and the path bytes.
///
/// The path bytes are unsigned here whatever the sign of the platform's
/// `c_char`. How many of them are in use is kept beside the image, not in it.
#[derive(Clone, Copy, Debug, PartialEq, Eq)]
pub struct SockaddrUn {
    pub sun_family: u16,
    pub sun_path: [u8; SUN_PATH_LEN],
}

/// Byte position of `sun_path` inside `sockaddr_un`.
pub open spec fn spec_path_offset() -> int {
    SOCKADDR_UN_SIZE - SUN_PATH_LEN
}

/// Whether addresses in the abstract namespace exist on this platform.
///
/// This is a fact about the platform. Its value is kept out of sight, so
/// that what is proved with it holds where it is true and where it is false.
pub closed spec fn supports_abstract() -> bool {
    true
}

/// Calls `core::mem::size_of` on `libc::sockaddr_un`.
///
/// Trusted: `libc` declares that struct for Linux and Android as a `repr(C)`
/// pair of a `u16` family and 108 one-byte characters, which has no padding,
/// so its size is 110 bytes.
#[verifier::external_body]
pub(crate) fn native_size() -> (n: usize)
    ensures
        n == SOCKADDR_UN_SIZE,
{
    core::mem::size_of::<libc::sockaddr_un>()
}

/// Calls `core::mem::size_of_val` on the `sun_path` field of a
/// `libc::sockaddr_un`.
///
/// Trusted: `libc` declares the field for Linux and Android as an array of
/// 108 `c_char`, each one byte wide. The array literal in the body only
/// compiles where the field has that length.
#[verifier::external_body]
pub(crate) fn native_path_capacity() -> (n: usize)
    ensures
        n == SUN_PATH_LEN,
{
    let probe = libc::sockaddr_un { sun_family: 0, sun_path: [0; SUN_PATH_LEN] };
    core::mem::size_of_val(&probe.sun_path)
}

/// Reads `libc::AF_UNIX` as a `libc::sa_family_t`.
///
/// Trusted: `libc` gives the constant the value 1 on Linux and Android, where
/// `sa_family_t` is `u16`.
#[verifier::external_body]
pub(crate) fn native_family() -> (family: u16)
    ensures
        family == AF_UNIX,
{
    libc::AF_UNIX as libc::sa_family_t
}

/// Offset of `sun_path` in `sockaddr_un`: the size of the structure less the
/// size of that field. Other fields may stand before the path, so this is not
/// taken to be the size of the family tag.
pub(crate) fn path_offset() -> (offset: u32)
    ensures
        offset == spec_path_offset(),
{
    let total: usize = native_size();
    let name: usize = native_path_capacity();
    (total - name) as u32
}

/// Whether the operating system is known to support abstract addresses,
/// which Linux and Android do.
pub(crate) fn has_abstract_namespace() -> (yes: bool)
    ensures
        yes == supports_abstract(),
{
    true
}

} // verus!
