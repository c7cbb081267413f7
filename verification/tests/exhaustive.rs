use uds::layout::{AF_UNIX, SUN_PATH_LEN};
use uds::{AddrError, SockaddrUn, UnixSocketAddr, UnixSocketAddrRef};

const OFFSET: usize = 2;
const SIZE: usize = 110;

/// A handful of buffers that differ in the places the derivation looks at.
fn buffers() -> Vec<[u8; SUN_PATH_LEN]> {
    let mut all = Vec::new();
    for first in [0u8, b'/', b'a'] {
        for body in [0u8, b'x'] {
            for zero_at in [None, Some(1usize), Some(5), Some(106), Some(107)] {
                let mut buf = [body; SUN_PATH_LEN];
                buf[0] = first;
                if let Some(at) = zero_at {
                    buf[at] = 0;
                }
                all.push(buf);
            }
        }
    }
    all
}

#[test]
fn derivation_for_every_length() {
    for buf in buffers() {
        for len in 0..=SIZE {
            let raw = SockaddrUn { sun_family: AF_UNIX, sun_path: buf };
            let addr = UnixSocketAddr::from_raw_unchecked(raw, len as u32);
            let expected = if len <= OFFSET {
                UnixSocketAddrRef::Unnamed
            } else if buf[0] == 0 {
                UnixSocketAddrRef::Abstract(&buf[1..len - OFFSET])
            } else if buf[len - OFFSET - 1] == 0 {
                UnixSocketAddrRef::Path(&buf[..len - OFFSET - 1])
            } else {
                UnixSocketAddrRef::Path(&buf[..len - OFFSET])
            };
            assert_eq!(addr.as_ref(), expected);
            assert_eq!(addr.is_unnamed(), expected == UnixSocketAddrRef::Unnamed);
            assert_eq!(addr.is_abstract(), matches!(expected, UnixSocketAddrRef::Abstract(_)));
            assert_eq!(addr.is_path(), matches!(expected, UnixSocketAddrRef::Path(_)));
            assert_eq!(addr.is_absolute_path(), addr.is_path() && buf[0] == b'/');
            assert_eq!(addr.is_relative_path(), addr.is_path() && buf[0] != b'/');
        }
    }
}

#[test]
fn normalization_for_every_length() {
    for buf in buffers() {
        for len in 0..=SIZE + 3 {
            let raw = SockaddrUn { sun_family: AF_UNIX, sun_path: buf };
            let got = UnixSocketAddr::normalized(raw, len as u32).map(UnixSocketAddr::into_raw);
            let expected = if len <= OFFSET {
                Ok((raw, len as u32))
            } else if buf[0] == 0 {
                if len > SIZE {
                    Err(AddrError::AbstractTruncated)
                } else {
                    Ok((raw, len as u32))
                }
            } else if len > SIZE + 1 {
                Err(AddrError::PathTruncated)
            } else if len >= SIZE {
                Ok((raw, SIZE as u32))
            } else if buf[len - OFFSET - 1] != 0 {
                let mut tidy = raw;
                tidy.sun_path[len - OFFSET] = 0;
                Ok((tidy, len as u32 + 1))
            } else {
                Ok((raw, len as u32))
            };
            assert_eq!(got, expected);
            if let Ok((tidy, tidy_len)) = got {
                assert!(tidy_len as usize <= SIZE);
                if len <= SIZE {
                    let before = UnixSocketAddr::from_raw_unchecked(raw, len as u32);
                    let after = UnixSocketAddr::from_raw_unchecked(tidy, tidy_len);
                    assert_eq!(before, after);
                }
            }
        }
    }
}

#[test]
fn raw_round_trip_for_every_length() {
    for buf in buffers() {
        for len in OFFSET..=SIZE {
            let raw = SockaddrUn { sun_family: AF_UNIX, sun_path: buf };
            let addr = UnixSocketAddr::from_raw(Some(&raw), len as u32).unwrap();
            let (copy, copy_len) = addr.into_raw();
            assert_eq!(copy_len as usize, len);
            assert_eq!(copy.sun_path[..len - OFFSET], buf[..len - OFFSET]);
            assert!(copy.sun_path[len - OFFSET..].iter().all(|&b| b == 0));
            assert_eq!(addr, UnixSocketAddr::from_raw_unchecked(raw, len as u32));
        }
    }
}

#[test]
fn c_str_for_every_position_of_the_nul() {
    for at in 0..=120usize {
        let mut bytes = vec![b'c'; 121];
        bytes[at] = 0;
        let got = UnixSocketAddr::from_c_str(&bytes);
        if at == 0 {
            assert!(got.unwrap().is_unnamed());
        } else if at > SUN_PATH_LEN {
            assert_eq!(got, Err(AddrError::PathTooLong));
        } else {
            let addr = got.unwrap();
            assert_eq!(addr.as_ref(), UnixSocketAddrRef::Path(&bytes[..at]));
            assert_eq!(addr.into_raw(), UnixSocketAddr::from_path(&bytes[..at]).unwrap().into_raw());
        }
    }
}
