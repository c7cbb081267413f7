use uds::layout::{AF_UNIX, SOCKADDR_UN_SIZE, SUN_PATH_LEN};
use uds::{AddrError, ErrorKind, FfiError, SockaddrUn, UnixSocketAddr, UnixSocketAddrRef};

fn answer(family: u16, bytes: &[u8], fill: u8) -> SockaddrUn {
    let mut sun_path = [fill; SUN_PATH_LEN];
    sun_path[..bytes.len()].copy_from_slice(bytes);
    SockaddrUn { sun_family: family, sun_path }
}

#[test]
fn ffi_call_is_given_an_unnamed_buffer_of_full_length() {
    let result: Result<((), UnixSocketAddr), FfiError<()>> =
        UnixSocketAddr::new_from_ffi(|raw, len| {
            assert_eq!(raw.sun_family, AF_UNIX);
            assert_eq!(raw.sun_path, [0u8; SUN_PATH_LEN]);
            assert_eq!(len as usize, SOCKADDR_UN_SIZE);
            Ok(((), raw, 2))
        });
    let ((), addr) = result.unwrap();
    assert!(addr.is_unnamed());
    assert_eq!(addr.into_raw().1, 2);
}

#[test]
fn ffi_full_path_reported_one_too_long_is_clamped() {
    let path = [b'p'; SUN_PATH_LEN];
    let result: Result<(i32, UnixSocketAddr), FfiError<()>> =
        UnixSocketAddr::new_from_ffi(|_, capacity| {
            Ok((42, answer(AF_UNIX, &path, 0), capacity + 1))
        });
    let (value, addr) = result.unwrap();
    assert_eq!(value, 42);
    assert_eq!(addr.as_ref(), UnixSocketAddrRef::Path(&path));
    let (raw, len) = addr.into_raw();
    assert_eq!(len as usize, SOCKADDR_UN_SIZE);
    assert_eq!(raw.sun_path, path);
}

#[test]
fn ffi_call_error_is_passed_on_unchanged() {
    let result: Result<((), UnixSocketAddr), FfiError<&str>> =
        UnixSocketAddr::new_from_ffi(|_, _| Err("would block"));
    assert_eq!(result, Err(FfiError::Call("would block")));
}

#[test]
fn ffi_wrong_family_is_refused() {
    let result: Result<((), UnixSocketAddr), FfiError<()>> =
        UnixSocketAddr::new_from_ffi(|_, _| Ok(((), answer(2, b"/tmp/x", 0), 8)));
    assert_eq!(result, Err(FfiError::Addr(AddrError::NotUnix)));
    assert_eq!(AddrError::NotUnix.kind(), ErrorKind::InvalidData);
}

#[test]
fn ffi_adds_the_terminator_that_is_missing() {
    let result: Result<(u8, UnixSocketAddr), FfiError<()>> =
        UnixSocketAddr::new_from_ffi(|_, _| Ok((1, answer(AF_UNIX, b"/tmp/x", 0x55), 8)));
    let (_, addr) = result.unwrap();
    assert_eq!(addr.as_ref(), UnixSocketAddrRef::Path(b"/tmp/x"));
    let (raw, len) = addr.into_raw();
    assert_eq!(len, 9);
    assert_eq!(&raw.sun_path[..7], b"/tmp/x\0");
    assert!(raw.sun_path[7..].iter().all(|&b| b == 0x55));
}

#[test]
fn normalized_leaves_terminated_path_alone() {
    let raw = answer(AF_UNIX, b"/tmp/x\0", 0x55);
    let addr = UnixSocketAddr::normalized(raw, 9).unwrap();
    assert_eq!(addr.into_raw(), (raw, 9));
    assert_eq!(addr.as_ref(), UnixSocketAddrRef::Path(b"/tmp/x"));
}

#[test]
fn normalized_adds_terminator_in_the_last_byte() {
    let raw = answer(AF_UNIX, &[b'q'; 107], 0x55);
    let addr = UnixSocketAddr::normalized(raw, 109).unwrap();
    let (tidy, len) = addr.into_raw();
    assert_eq!(len, 110);
    assert_eq!(&tidy.sun_path[..107], &[b'q'; 107]);
    assert_eq!(tidy.sun_path[107], 0);
    assert_eq!(addr.as_ref(), UnixSocketAddrRef::Path(&[b'q'; 107]));
}

#[test]
fn normalized_full_path_keeps_its_length() {
    let raw = answer(AF_UNIX, &[b'q'; 108], 0);
    let addr = UnixSocketAddr::normalized(raw, 110).unwrap();
    assert_eq!(addr.into_raw(), (raw, 110));
}

#[test]
fn normalized_clamps_path_cut_by_one() {
    let raw = answer(AF_UNIX, &[b'q'; 108], 0);
    let addr = UnixSocketAddr::normalized(raw, 111).unwrap();
    assert_eq!(addr.into_raw(), (raw, 110));
    assert_eq!(addr.as_ref(), UnixSocketAddrRef::Path(&[b'q'; 108]));
}

#[test]
fn normalized_refuses_path_cut_by_more() {
    let raw = answer(AF_UNIX, &[b'q'; 108], 0);
    for len in [112u32, 113, 1000, u32::MAX] {
        let err = UnixSocketAddr::normalized(raw, len).unwrap_err();
        assert_eq!(err, AddrError::PathTruncated);
        assert_eq!(err.kind(), ErrorKind::InvalidData);
    }
}

#[test]
fn normalized_refuses_abstract_name_cut_short() {
    let mut name = [b'n'; 108];
    name[0] = 0;
    let raw = answer(AF_UNIX, &name, 0);
    for len in [111u32, 112, u32::MAX] {
        let err = UnixSocketAddr::normalized(raw, len).unwrap_err();
        assert_eq!(err, AddrError::AbstractTruncated);
        assert_eq!(err.kind(), ErrorKind::InvalidData);
    }
    let full = UnixSocketAddr::normalized(raw, 110).unwrap();
    assert_eq!(full.as_ref(), UnixSocketAddrRef::Abstract(&[b'n'; 107]));
    assert_eq!(full.into_raw(), (raw, 110));
}

#[test]
fn normalized_leaves_abstract_name_alone() {
    let raw = answer(AF_UNIX, b"\0name", 0x55);
    let addr = UnixSocketAddr::normalized(raw, 7).unwrap();
    assert_eq!(addr.into_raw(), (raw, 7));
    assert_eq!(addr.as_ref(), UnixSocketAddrRef::Abstract(b"name"));
}

#[test]
fn normalized_leaves_unnamed_alone() {
    let raw = answer(AF_UNIX, b"junk", 0x55);
    for len in [0u32, 1, 2] {
        let addr = UnixSocketAddr::normalized(raw, len).unwrap();
        assert!(addr.is_unnamed());
        assert_eq!(addr.into_raw(), (raw, len));
    }
}

#[test]
fn normalized_refuses_wrong_family_first() {
    let raw = answer(0, &[b'q'; 108], 0);
    for len in [0u32, 8, 110, 111, 5000] {
        assert_eq!(UnixSocketAddr::normalized(raw, len), Err(AddrError::NotUnix));
    }
}

#[test]
fn normalized_twice_is_normalized_once() {
    let answers = [
        (answer(AF_UNIX, b"/tmp/x", 0x55), 8u32),
        (answer(AF_UNIX, b"/tmp/x\0", 0x55), 9),
        (answer(AF_UNIX, &[b'q'; 108], 0), 111),
        (answer(AF_UNIX, b"\0name", 0x55), 7),
        (answer(AF_UNIX, b"", 0), 2),
    ];
    for (raw, len) in answers {
        let once = UnixSocketAddr::normalized(raw, len).unwrap();
        let (tidy, tidy_len) = once.into_raw();
        let twice = UnixSocketAddr::normalized(tidy, tidy_len).unwrap();
        assert_eq!(twice.into_raw(), (tidy, tidy_len));
        assert_eq!(twice, once);
    }
}

#[test]
fn constructed_addresses_are_already_normalized() {
    let addrs = [
        UnixSocketAddr::new_unspecified(),
        UnixSocketAddr::from_path(b"/tmp/x").unwrap(),
        UnixSocketAddr::from_path(&[b'f'; 108]).unwrap(),
        UnixSocketAddr::from_abstract(b"").unwrap(),
        UnixSocketAddr::from_abstract(&[0u8; 107]).unwrap(),
    ];
    for addr in addrs {
        let (raw, len) = addr.into_raw();
        assert_eq!(UnixSocketAddr::normalized(raw, len).unwrap().into_raw(), (raw, len));
    }
}
