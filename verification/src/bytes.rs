//! Small loops over byte slices.

use vstd::prelude::*;
use crate::encoding::is_c_str_len;
use crate::layout::SUN_PATH_LEN;

verus! {

/// Writes `src` into `buf` from position `at` on and leaves the rest alone.
pub(crate) fn copy_bytes(buf: &mut [u8; SUN_PATH_LEN], at: usize, src: &[u8])
    requires
        at + src.len() <= SUN_PATH_LEN,
    ensures
        final(buf)@ == Seq::new(
            SUN_PATH_LEN as nat,
            |i: int|
                if at <= i < at + src.len() {
                    src@[i - at]
                } else {
                    old(buf)@[i]
                },
        ),
{
    let mut i: usize = 0;
    while i < src.len()
        invariant
            at + src.len() <= SUN_PATH_LEN,
            i <= src.len(),
            forall|j: int| at <= j < at + i ==> buf@[j] == src@[j - at],
            forall|j: int| 0 <= j < SUN_PATH_LEN && !(at <= j < at + i) ==> buf@[j] == old(buf)@[j],
        decreases src.len() - i,
    {
        buf[at + i] = src[i];
        i += 1;
    }
    assert(buf@ =~= Seq::new(
        SUN_PATH_LEN as nat,
        |i: int|
            if at <= i < at + src.len() {
                src@[i - at]
            } else {
                old(buf)@[i]
            },
    ));
}

/// Whether a NUL byte occurs in `bytes`.
pub(crate) fn contains_nul(bytes: &[u8]) -> (found: bool)
    ensures
        found == bytes@.contains(0u8),
{
    let mut i: usize = 0;
    while i < bytes.len()
        invariant
            i <= bytes.len(),
            forall|j: int| 0 <= j < i ==> bytes@[j] != 0,
        decreases bytes.len() - i,
    {
        if bytes[i] == 0 {
            return true;
        }
        i += 1;
    }
    false
}

/// Where the NUL-terminated string inside `bytes` ends.
pub(crate) fn c_str_len(bytes: &[u8]) -> (n: usize)
    ensures
        is_c_str_len(bytes@, n as int),
{
    let mut i: usize = 0;
    while i < bytes.len()
        invariant
            i <= bytes.len(),
            forall|j: int| 0 <= j < i ==> bytes@[j] != 0,
        decreases bytes.len() - i,
    {
        if bytes[i] == 0 {
            return i;
        }
        i += 1;
    }
    i
}

/// Whether two slices hold the same bytes.
pub(crate) fn bytes_eq(a: &[u8], b: &[u8]) -> (same: bool)
    ensures
        same == (a@ == b@),
{
    if a.len() != b.len() {
        return false;
    }
    let mut i: usize = 0;
    while i < a.len()
        invariant
            a.len() == b.len(),
            i <= a.len(),
            forall|j: int| 0 <= j < i ==> a@[j] == b@[j],
        decreases a.len() - i,
    {
        if a[i] != b[i] {
            return false;
        }
        i += 1;
    }
    assert(a@ =~= b@);
    true
}

} // verus!
