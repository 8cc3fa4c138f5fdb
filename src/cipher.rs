//! What a session reports of one cipher suite.
use vstd::prelude::*;

verus! {

/// A cipher suite: its name, its secret bits and the protocol version that
/// introduced it.
#[derive(Clone, Debug)]
pub struct SslCipher {
    pub name: String,
    pub bits: i64,
    pub version: String,
}

/// The text of a string that the engine may not have: empty where it has
/// none.
pub open spec fn text_or_empty(s: Option<Seq<char>>) -> Seq<char> {
    match s {
        Some(t) => t,
        None => Seq::empty(),
    }
}

pub open spec fn opt_view(s: Option<String>) -> Option<Seq<char>> {
    match s {
        Some(t) => Some(t@),
        None => None,
    }
}

fn or_empty(s: Option<String>) -> (r: String)
    ensures
        r@ == text_or_empty(opt_view(s)),
{
    match s {
        Some(t) => t,
        None => String::new(),
    }
}

impl SslCipher {
    /// The record of a cipher whose name and version the engine gave as
    /// `name` and `version` (`None` where it gave none, or no valid text),
    /// with `bits` secret bits.
    pub fn from_cipher(name: Option<String>, bits: i32, version: Option<String>) -> (r: SslCipher)
        ensures
            r.name@ == text_or_empty(opt_view(name)),
            r.bits == bits,
            r.version@ == text_or_empty(opt_view(version)),
    {
        SslCipher { name: or_empty(name), bits: bits as i64, version: or_empty(version) }
    }
}

} // verus!
