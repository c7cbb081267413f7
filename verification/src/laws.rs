//! What holds of every address, whatever it was made from.

use vstd::prelude::*;
use vstd::std_specs::cmp::PartialEqSpec;
use crate::addr::UnixSocketAddr;
use crate::encoding::{
    abstract_encoding, path_encoding, spec_from_abstract, spec_from_c_str, spec_from_path,
    spec_from_raw, spec_new, unspecified_encoding, Encoding,
};
use crate::error::AddrError;
use crate::ffi::spec_normalized;
use crate::kind::{addr_kind, AddrKind};
use crate::layout::{
    spec_path_offset, supports_abstract, SockaddrUn, AF_UNIX, SOCKADDR_UN_SIZE, SUN_PATH_LEN,
};

verus! {

/// Whether an encoding uses at least the bytes before the path and at most
/// the whole structure, and has a path field of the right size.
pub open spec fn in_bounds(encoding: Encoding) -> bool {
    &&& spec_path_offset() <= encoding.used_len <= SOCKADDR_UN_SIZE
    &&& encoding.path.len() == SUN_PATH_LEN
}

/// The address without a name is read as unnamed.
pub proof fn law_unspecified_is_unnamed()
    ensures
        unspecified_encoding().kind() == AddrKind::Unnamed,
{
}

/// An abstract name can be one byte shorter than a path, no more and no less:
/// the byte that marks it.
pub proof fn law_marker_takes_one_byte()
    ensures
        UnixSocketAddr::spec_max_path_len() - UnixSocketAddr::spec_max_abstract_len() == 1,
{
}

/// Every path that is not empty, fits and holds no NUL is accepted, and the
/// address made of it is read as that path.
pub proof fn law_path_round_trip(path: Seq<u8>)
    requires
        0 < path.len() <= UnixSocketAddr::spec_max_path_len(),
        !path.contains(0u8),
    ensures
        spec_from_path(path) == Ok::<Encoding, AddrError>(path_encoding(path)),
        path_encoding(path).kind() == AddrKind::Path(path),
{
    let encoding = path_encoding(path);
    let name_len = encoding.used_len - spec_path_offset();
    assert(path[0] != 0) by {
        assert(path.contains(path[0]));
    }
    assert(path.last() != 0) by {
        assert(path.contains(path.last()));
    }
    let bytes = encoding.path.subrange(0, name_len);
    if path.len() < SUN_PATH_LEN {
        assert(bytes.last() == 0);
        assert(bytes.drop_last() =~= path);
    } else {
        assert(bytes =~= path);
    }
}

/// Every name that fits is accepted where abstract addresses exist, and the
/// address made of it is read as that name. Where they do not exist it is
/// refused for that reason.
pub proof fn law_abstract_round_trip(name: Seq<u8>)
    requires
        name.len() <= UnixSocketAddr::spec_max_abstract_len(),
    ensures
        supports_abstract() ==> spec_from_abstract(name) == Ok::<Encoding, AddrError>(
            abstract_encoding(name),
        ),
        !supports_abstract() ==> spec_from_abstract(name) == Err::<Encoding, AddrError>(
            AddrError::AbstractUnsupported,
        ),
        abstract_encoding(name).kind() == AddrKind::Abstract(name),
{
    let encoding = abstract_encoding(name);
    let name_len = encoding.used_len - spec_path_offset();
    assert(encoding.path.subrange(1, name_len) =~= name);
}

/// A path written with `./` before it is taken as a path, whatever follows:
/// this is how a relative path that begins with `@` is typed in.
pub proof fn law_escaped_path_is_path(rest: Seq<u8>)
    ensures
        spec_new(seq![0x2eu8, 0x2fu8] + rest) == spec_from_path(seq![0x2eu8, 0x2fu8] + rest),
{
    let addr = seq![0x2eu8, 0x2fu8] + rest;
    assert(addr[0] == 0x2e);
}

/// What is typed behind an `@` or a NUL is taken as an abstract name.
pub proof fn law_marked_name_is_abstract(marker: u8, name: Seq<u8>)
    requires
        marker == 0x40 || marker == 0,
    ensures
        spec_new(seq![marker] + name) == spec_from_abstract(name),
{
    let addr = seq![marker] + name;
    assert(addr[0] == marker);
    assert(addr.subrange(1, addr.len() as int) =~= name);
}

/// Bytes that are not in use make no difference: two addresses that use the
/// same number of bytes and agree on those are equal.
pub proof fn law_padding_is_ignored(a: UnixSocketAddr, b: UnixSocketAddr)
    requires
        a.wf(),
        b.wf(),
        a.used_len() == b.used_len(),
        forall|i: int|
            0 <= i < a.used_len() - spec_path_offset() ==> a.raw().sun_path@[i]
                == b.raw().sun_path@[i],
    ensures
        a@ == b@,
        a.eq_spec(&b),
{
    let name_len = a.used_len() - spec_path_offset();
    let p = a.raw().sun_path@;
    let q = b.raw().sun_path@;
    if name_len > 0 {
        assert(p[0] == q[0]);
        assert(p.subrange(1, name_len) =~= q.subrange(1, name_len));
        assert(p.subrange(0, name_len) =~= q.subrange(0, name_len));
    }
}

/// The terminator of a path makes no difference: a path address that ends
/// without NUL equals the one that has the same bytes and a NUL behind them.
pub proof fn law_terminator_is_ignored(a: UnixSocketAddr, b: UnixSocketAddr)
    requires
        a.wf(),
        b.wf(),
        a@ is Path,
        a.raw().sun_path@[a.used_len() - spec_path_offset() - 1] != 0,
        b.used_len() == a.used_len() + 1,
        forall|i: int|
            0 <= i < a.used_len() - spec_path_offset() ==> a.raw().sun_path@[i]
                == b.raw().sun_path@[i],
        b.raw().sun_path@[a.used_len() - spec_path_offset()] == 0,
    ensures
        a@ == b@,
        a.eq_spec(&b),
{
    let name_len = a.used_len() - spec_path_offset();
    let p = a.raw().sun_path@;
    let q = b.raw().sun_path@;
    assert(p[0] == q[0]);
    assert(q.subrange(0, name_len + 1).drop_last() =~= p.subrange(0, name_len));
}

/// Equality of addresses is that of their kind and of their path or name,
/// and so holds of every address with itself, both ways round or not at all,
/// and of the first and the last of three where it holds of both pairs.
pub proof fn law_equality_is_by_kind(a: UnixSocketAddr, b: UnixSocketAddr, c: UnixSocketAddr)
    ensures
        a.eq_spec(&b) <==> a@ == b@,
        a.eq_spec(&a),
        a.eq_spec(&b) ==> b.eq_spec(&a),
        a.eq_spec(&b) && b.eq_spec(&c) ==> a.eq_spec(&c),
{
}

/// Whatever the constructors accept uses at least the bytes before the path
/// and at most the whole structure, and fills the path field exactly.
pub proof fn law_constructed_length_is_in_bounds(input: Seq<u8>, raw: Option<&SockaddrUn>, len: u32)
    ensures
        spec_from_path(input) matches Ok(e) ==> in_bounds(e),
        spec_from_abstract(input) matches Ok(e) ==> in_bounds(e),
        spec_new(input) matches Ok(e) ==> in_bounds(e),
        spec_from_c_str(input) matches Ok(e) ==> in_bounds(e),
        spec_from_raw(raw, len) matches Ok(e) ==> in_bounds(e),
        in_bounds(unspecified_encoding()),
{
}

/// A path that fills the whole of the path field, reported by the kernel with
/// a length one greater than the structure, is accepted with the length of
/// the structure.
pub proof fn law_full_path_is_clamped(raw: SockaddrUn)
    requires
        raw.sun_family == AF_UNIX,
        forall|i: int| 0 <= i < SUN_PATH_LEN ==> raw.sun_path@[i] != 0,
    ensures
        spec_normalized(raw, (SOCKADDR_UN_SIZE + 1) as u32) == Ok::<Encoding, AddrError>(
            Encoding { path: raw.sun_path@, used_len: SOCKADDR_UN_SIZE as int },
        ),
        addr_kind(raw.sun_path@, SOCKADDR_UN_SIZE as int) == AddrKind::Path(raw.sun_path@),
{
    let path = raw.sun_path@;
    assert(path[0] != 0);
    assert(path.subrange(0, SUN_PATH_LEN as int) =~= path);
    assert(path.last() != 0);
}

/// Whatever is accepted from the kernel fits in the structure.
pub proof fn law_normalized_fits(raw: SockaddrUn, len: u32)
    requires
        spec_normalized(raw, len) is Ok,
    ensures
        0 <= spec_normalized(raw, len).unwrap().used_len <= SOCKADDR_UN_SIZE,
        spec_normalized(raw, len).unwrap().path.len() == SUN_PATH_LEN,
{
}

/// An answer of the kernel that fits in the structure keeps its kind, path
/// or name when it is tidied.
pub proof fn law_normalized_keeps_kind(raw: SockaddrUn, len: u32)
    requires
        len <= SOCKADDR_UN_SIZE,
        spec_normalized(raw, len) is Ok,
    ensures
        spec_normalized(raw, len).unwrap().kind() == addr_kind(raw.sun_path@, len as int),
{
    let path = raw.sun_path@;
    let name_len = len - spec_path_offset();
    if name_len > 0 && path[0] != 0 && len < SOCKADDR_UN_SIZE && path[name_len - 1] != 0 {
        let tidied = path.update(name_len, 0u8);
        assert(tidied.subrange(0, name_len + 1).last() == 0);
        assert(tidied.subrange(0, name_len + 1).drop_last() =~= path.subrange(0, name_len));
    }
}

/// Tidying twice is tidying once.
pub proof fn law_normalized_is_stable(raw: SockaddrUn, len: u32, again: SockaddrUn)
    requires
        spec_normalized(raw, len) is Ok,
        again.sun_family == AF_UNIX,
        again.sun_path@ == spec_normalized(raw, len).unwrap().path,
    ensures
        spec_normalized(again, spec_normalized(raw, len).unwrap().used_len as u32)
            == spec_normalized(raw, len),
{
}

/// Addresses made from a path or a name are as tidy as those accepted from
/// the kernel: tidying leaves them as they are.
pub proof fn law_constructed_is_normalized(a: UnixSocketAddr, content: Seq<u8>)
    requires
        a.wf(),
        ({
            ||| a.encoding() == unspecified_encoding()
            ||| 0 < content.len() <= SUN_PATH_LEN && !content.contains(0u8) && a.encoding()
                == path_encoding(content)
            ||| content.len() <= SUN_PATH_LEN - 1 && a.encoding() == abstract_encoding(content)
        }),
    ensures
        spec_normalized(a.raw(), a.used_len()) == Ok::<Encoding, AddrError>(a.encoding()),
{
    if a.encoding() == unspecified_encoding() {
    } else if 0 < content.len() <= SUN_PATH_LEN && !content.contains(0u8) && a.encoding()
        == path_encoding(content) {
        assert(content[0] != 0) by {
            assert(content.contains(content[0]));
        }
    } else {
    }
}

/// An address survives being taken apart and put together again: what
/// `from_raw` makes of the raw parts of an address is equal to it.
pub proof fn law_raw_round_trip(a: UnixSocketAddr)
    requires
        a.wf(),
        a.used_len() >= spec_path_offset(),
    ensures
        spec_from_raw(Some(&a.raw()), a.used_len()) is Ok,
        spec_from_raw(Some(&a.raw()), a.used_len()).unwrap().used_len == a.used_len(),
        spec_from_raw(Some(&a.raw()), a.used_len()).unwrap().kind() == a@,
{
    let name_len = a.used_len() - spec_path_offset();
    let p = a.raw().sun_path@;
    let q = spec_from_raw(Some(&a.raw()), a.used_len()).unwrap().path;
    if name_len > 0 {
        assert(q[0] == p[0]);
        assert(p.subrange(1, name_len) =~= q.subrange(1, name_len));
        assert(p.subrange(0, name_len) =~= q.subrange(0, name_len));
    }
}

} // verus!
