//! Round trips through calls that fill in an address, such as `getsockname`,
//! `getpeername` and `accept`.

use vstd::prelude::*;
use crate::addr::{built, UnixSocketAddr};
use crate::encoding::Encoding;
use crate::error::{AddrError, FfiError};
use crate::layout::{
    native_family, native_size, path_offset, spec_path_offset, SockaddrUn, AF_UNIX,
    SOCKADDR_UN_SIZE, SUN_PATH_LEN,
};

verus! {

/// What the kernel's answer is turned into.
///
/// `raw` and `len` are the structure and the length as a call such as
/// `getsockname` left them. The length may exceed the size of the structure,
/// which tells that the kernel had more to say than fitted. A wrong family
/// tag is refused. An abstract name that was cut short is refused. A path
/// that lost no more than one byte is taken to have lost its terminator, and
/// its length is brought back to the size of the structure. A shorter path
/// that does not end in NUL is given a terminator, for which there is room.
pub open spec fn spec_normalized(raw: SockaddrUn, len: u32) -> Result<Encoding, AddrError> {
    let path = raw.sun_path@;
    if raw.sun_family != AF_UNIX {
        Err(AddrError::NotUnix)
    } else if len <= spec_path_offset() {
        Ok(Encoding { path, used_len: len as int })
    } else if path[0] == 0 {
        if len > SOCKADDR_UN_SIZE {
            Err(AddrError::AbstractTruncated)
        } else {
            Ok(Encoding { path, used_len: len as int })
        }
    } else if len > SOCKADDR_UN_SIZE + 1 {
        Err(AddrError::PathTruncated)
    } else if len >= SOCKADDR_UN_SIZE {
        Ok(Encoding { path, used_len: SOCKADDR_UN_SIZE as int })
    } else if path[len - 1 - spec_path_offset()] != 0 {
        Ok(Encoding { path: path.update(len - spec_path_offset(), 0u8), used_len: len + 1 })
    } else {
        Ok(Encoding { path, used_len: len as int })
    }
}

/// The structure a foreign call is given to fill in: that of the unnamed
/// address.
pub open spec fn ffi_buffer() -> SockaddrUn {
    SockaddrUn { sun_family: AF_UNIX, sun_path: [0u8; SUN_PATH_LEN] }
}

/// Whether `res` is what is to be returned when the foreign call gave `out`:
/// its error unchanged, or its value together with the address its structure
/// and length are turned into, or the reason that address was refused.
pub open spec fn ffi_result<R, E>(
    out: Result<(R, SockaddrUn, u32), E>,
    res: Result<(R, UnixSocketAddr), FfiError<E>>,
) -> bool {
    match out {
        Err(error) => res == Err::<(R, UnixSocketAddr), FfiError<E>>(FfiError::Call(error)),
        Ok((value, raw, len)) => match spec_normalized(raw, len) {
            Err(error) => res == Err::<(R, UnixSocketAddr), FfiError<E>>(FfiError::Addr(error)),
            Ok(encoding) => res matches Ok((v, addr)) && v == value && addr.wf() && addr.encoding()
                == encoding,
        },
    }
}

impl UnixSocketAddr {
    /// Checks the structure and the length that a foreign call left behind,
    /// and makes an address of them.
    ///
    /// The kernel reports the length that the address would need, which is
    /// more than the structure holds when the name was cut short. Kernels
    /// also differ on whether the path they return ends in NUL. The result
    /// always does where there is room for it, and never uses more bytes than
    /// the structure has.
    ///
    /// # Errors
    ///
    /// Fails if the family is not that of Unix-domain sockets, if an abstract
    /// name was cut short, and if a path was cut short by more than one byte.
    pub fn normalized(raw: SockaddrUn, len: u32) -> (res: Result<Self, AddrError>)
        ensures
            built(res, spec_normalized(raw, len)),
    {
        let capacity = native_size() as u32;
        let offset = path_offset();
        let mut raw = raw;
        let mut len = len;
        if raw.sun_family != native_family() {
            return Err(AddrError::NotUnix);
        }
        if len > offset {
            if raw.sun_path[0] == 0 {
                if len > capacity {
                    return Err(AddrError::AbstractTruncated);
                }
            } else if len > capacity + 1 {
                return Err(AddrError::PathTruncated);
            } else if len >= capacity {
                // a length one too big is accepted: the byte that was cut off
                // is taken to be the terminator
                len = capacity;
            } else if raw.sun_path[(len - 1 - offset) as usize] != 0 {
                len += 1;
                raw.sun_path[(len - 1 - offset) as usize] = 0;
            }
        }
        Ok(Self::from_raw_unchecked(raw, len))
    }

    /// Prepares a structure and a length for a foreign call, and checks and
    /// tidies the address that the call produced.
    ///
    /// `call` is given the structure of the unnamed address and the size of
    /// `sockaddr_un` as its length. It returns its own value together with
    /// the structure and the length as the kernel left them.
    ///
    /// # Errors
    ///
    /// Fails with the error of `call`, passed on unchanged, and with those of
    /// `normalized`.
    pub fn new_from_ffi<R, E, F>(call: F) -> (res: Result<(R, Self), FfiError<E>>) where
        F: FnOnce(SockaddrUn, u32) -> Result<(R, SockaddrUn, u32), E>,

        requires
            call.requires((ffi_buffer(), SOCKADDR_UN_SIZE as u32)),
        ensures
            exists|out: Result<(R, SockaddrUn, u32), E>|
                call.ensures((ffi_buffer(), SOCKADDR_UN_SIZE as u32), out) && #[trigger] ffi_result(
                    out,
                    res,
                ),
    {
        let buffer = SockaddrUn { sun_family: native_family(), sun_path: [0u8; SUN_PATH_LEN] };
        let capacity = native_size() as u32;
        assert(buffer == ffi_buffer());
        let out = call(buffer, capacity);
        let ghost seen = out;
        let res = match out {
            Err(error) => Err(FfiError::Call(error)),
            Ok((value, raw, len)) => match Self::normalized(raw, len) {
                Err(error) => Err(FfiError::Addr(error)),
                Ok(addr) => Ok((value, addr)),
            },
        };
        assert(ffi_result(seen, res));
        res
    }
}

} // verus!
