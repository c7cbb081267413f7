use uds::layout::{AF_UNIX, SUN_PATH_LEN};
use uds::{SockaddrUn, UnixSocketAddr, UnixSocketAddrRef};

fn image_of(bytes: &[u8], fill: u8) -> SockaddrUn {
    let mut sun_path = [fill; SUN_PATH_LEN];
    sun_path[..bytes.len()].copy_from_slice(bytes);
    SockaddrUn { sun_family: AF_UNIX, sun_path }
}

#[test]
fn view_of_nothing_in_use_is_unnamed() {
    for len in 0..=2u32 {
        let addr = UnixSocketAddr::from_raw_unchecked(image_of(b"/tmp/x", 0x55), len);
        assert_eq!(addr.as_ref(), UnixSocketAddrRef::Unnamed);
        assert!(addr.is_unnamed());
        assert!(!addr.is_path());
        assert!(!addr.is_abstract());
        assert!(!addr.is_absolute_path());
        assert!(!addr.is_relative_path());
    }
}

#[test]
fn view_reads_no_further_than_the_used_length() {
    let addr = UnixSocketAddr::from_raw_unchecked(image_of(b"/tmp/xyz", 0x55), 2 + 6);
    assert_eq!(addr.as_ref(), UnixSocketAddrRef::Path(b"/tmp/x"));
    let name = UnixSocketAddr::from_raw_unchecked(image_of(b"\0namexyz", 0x55), 2 + 5);
    assert_eq!(name.as_ref(), UnixSocketAddrRef::Abstract(b"name"));
}

#[test]
fn view_drops_one_terminator_only() {
    let one = UnixSocketAddr::from_raw_unchecked(image_of(b"/tmp/x\0", 0x55), 2 + 7);
    assert_eq!(one.as_ref(), UnixSocketAddrRef::Path(b"/tmp/x"));
    let two = UnixSocketAddr::from_raw_unchecked(image_of(b"/tmp/x\0\0", 0x55), 2 + 8);
    assert_eq!(two.as_ref(), UnixSocketAddrRef::Path(b"/tmp/x\0"));
}

#[test]
fn view_of_single_byte_path() {
    let addr = UnixSocketAddr::from_raw_unchecked(image_of(b"a", 0), 3);
    assert_eq!(addr.as_ref(), UnixSocketAddrRef::Path(b"a"));
    assert!(addr.is_relative_path());
}

#[test]
fn view_of_marker_alone_is_empty_abstract_name() {
    let addr = UnixSocketAddr::from_raw_unchecked(image_of(b"\0", 0x55), 3);
    assert_eq!(addr.as_ref(), UnixSocketAddrRef::Abstract(b""));
    assert!(addr.is_abstract());
    assert!(!addr.is_unnamed());
}

#[test]
fn view_of_full_buffer() {
    let path = [b'x'; SUN_PATH_LEN];
    let addr = UnixSocketAddr::from_raw_unchecked(image_of(&path, 0), 110);
    assert_eq!(addr.as_ref(), UnixSocketAddrRef::Path(&path));
    let mut name = [7u8; SUN_PATH_LEN];
    name[0] = 0;
    let addr = UnixSocketAddr::from_raw_unchecked(image_of(&name, 0), 110);
    assert_eq!(addr.as_ref(), UnixSocketAddrRef::Abstract(&[7u8; 107]));
}

#[test]
fn kinds_exclude_each_other() {
    let addrs = [
        UnixSocketAddr::new_unspecified(),
        UnixSocketAddr::from_path(b"/abs").unwrap(),
        UnixSocketAddr::from_path(b"rel").unwrap(),
        UnixSocketAddr::from_abstract(b"name").unwrap(),
    ];
    for addr in addrs {
        let kinds = [addr.is_unnamed(), addr.is_path(), addr.is_abstract()];
        assert_eq!(kinds.iter().filter(|&&k| k).count(), 1);
        assert_eq!(addr.is_path(), addr.is_absolute_path() || addr.is_relative_path());
        assert!(!(addr.is_absolute_path() && addr.is_relative_path()));
        match addr.as_ref() {
            UnixSocketAddrRef::Unnamed => assert!(addr.is_unnamed()),
            UnixSocketAddrRef::Path(_) => assert!(addr.is_path()),
            UnixSocketAddrRef::Abstract(_) => assert!(addr.is_abstract()),
        }
    }
}

#[test]
fn absolute_and_relative_paths() {
    assert!(UnixSocketAddr::from_path(b"/").unwrap().is_absolute_path());
    assert!(UnixSocketAddr::from_path(b"/a/b").unwrap().is_absolute_path());
    assert!(UnixSocketAddr::from_path(b"a/b").unwrap().is_relative_path());
    assert!(UnixSocketAddr::from_path(b"./a").unwrap().is_relative_path());
    assert!(UnixSocketAddr::from_path(b"@a").unwrap().is_relative_path());
}

#[test]
fn ref_can_be_copied_and_compared() {
    let addr = UnixSocketAddr::from_path(b"/tmp/x").unwrap();
    let first = addr.as_ref();
    let second = first;
    assert_eq!(first, second);
    assert_ne!(first, UnixSocketAddrRef::Abstract(b"/tmp/x"));
    assert_ne!(first, UnixSocketAddrRef::Unnamed);
}
