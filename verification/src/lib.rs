//! Unix-domain socket addresses as plain, validated values.
//!
//! A [`UnixSocketAddr`] keeps an image of the kernel's `sockaddr_un` together
//! with the number of bytes of it that are in use, and derives from the two
//! one of three kinds of address: unnamed, pathname or abstract. The image is
//! the one Linux and Android use: a 16-bit family followed by 108 path bytes.
//!
//! Nothing here performs a system call. Callers hand the raw parts to the
//! kernel themselves and give what came back to
//! [`UnixSocketAddr::new_from_ffi`] or [`UnixSocketAddr::normalized`].

pub mod addr;
mod bytes;
pub mod encoding;
pub mod eq;
pub mod error;
pub mod ffi;
pub mod kind;
pub mod laws;
pub mod layout;
pub mod text;

pub use addr::{StdAddr, UnixSocketAddr};
pub use encoding::Encoding;
pub use error::{AddrError, ErrorKind, FfiError};
pub use kind::{AddrKind, UnixSocketAddrRef};
pub use layout::SockaddrUn;
