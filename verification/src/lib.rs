//! Replays recorded HTTP responses for deterministic browser benchmarks.
//!
//! An archive holds de-duplicated tables of bodies, header names, header
//! values, header lists and responses, plus one or more named response sets.
//! Each set carries a request-key program: a small bytecode that canonicalizes
//! an incoming request triple `(method, authority, path-and-query)` into a
//! lookup key.  Requests arrive over SOCKS5 + TLS + HTTP/2 and are answered
//! bit-for-bit from the archive.

use vstd::prelude::*;

pub mod archive;
pub mod literal_table;
pub mod opcode;
pub mod program;
pub mod regexes;
pub mod replacement;
pub mod request_parts;
pub mod response_set;
pub mod serve;
pub mod socks;
pub mod spki;
pub mod state;
pub mod text;

verus! {

/// Allocates an empty vector, reserving `hint` slots when the caller knows
/// roughly how many elements are coming.
pub fn vec_with_size_hint<T>(hint: Option<usize>) -> (r: Vec<T>)
    ensures
        r@ == Seq::<T>::empty(),
{
    match hint {
        Some(len) => Vec::with_capacity(len),
        None => Vec::new(),
    }
}

} // verus!
