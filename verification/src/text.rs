//! The textual form of addresses.

use vstd::prelude::*;
use vstd::string::StringExecFns;
use vstd::utf8::{decode_utf8, valid_utf8};
use crate::addr::UnixSocketAddr;
use crate::kind::{AddrKind, UnixSocketAddrRef};

verus! {

/// The text that `String::from_utf8_lossy` makes of bytes: the text they
/// encode in UTF-8, with a replacement character wherever they encode none.
pub uninterp spec fn lossy_utf8(bytes: Seq<u8>) -> Seq<char>;

/// Calls `String::from_utf8_lossy` and takes the text it produced.
///
/// Trusted: the text is decided by the bytes alone, and bytes that are valid
/// UTF-8 come out as the text they encode. What becomes of other bytes is
/// left to `lossy_utf8`, of which no more is said.
#[verifier::external_body]
fn lossy_text(bytes: &[u8]) -> (text: String)
    ensures
        text@ == lossy_utf8(bytes@),
        valid_utf8(bytes@) ==> text@ == decode_utf8(bytes@),
{
    String::from_utf8_lossy(bytes).into_owned()
}

/// How each kind of address is written: `unnamed`, the path, or the name
/// behind an `@`.
pub open spec fn kind_text(kind: AddrKind) -> Seq<char> {
    match kind {
        AddrKind::Unnamed => "unnamed"@,
        AddrKind::Path(path) => lossy_utf8(path),
        AddrKind::Abstract(name) => "@"@ + lossy_utf8(name),
    }
}

impl UnixSocketAddr {
    /// Writes the address out for people to read.
    ///
    /// A path or a name that is UTF-8 is written as the text it encodes.
    /// Bytes that are not are written as replacement characters.
    pub fn to_string(&self) -> (text: String)
        ensures
            text@ == kind_text(self@),
            self@ matches AddrKind::Path(path) ==> (valid_utf8(path) ==> text@ == decode_utf8(path)),
            self@ matches AddrKind::Abstract(name) ==> (valid_utf8(name) ==> text@ == "@"@
                + decode_utf8(name)),
    {
        match self.as_ref() {
            UnixSocketAddrRef::Unnamed => String::from_str("unnamed"),
            UnixSocketAddrRef::Path(path) => lossy_text(path),
            UnixSocketAddrRef::Abstract(name) => {
                let mut text = String::from_str("@");
                let name = lossy_text(name);
                text.append(name.as_str());
                text
            },
        }
    }
}

} // verus!
