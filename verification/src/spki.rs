//! Certificate-pinning digest for the controlled browser.
//!
//! Browsers are pointed at the replay endpoints with certificate errors
//! ignored for one pinned key: the base64 of the SHA-256 digest over the
//! certificate's DER `subjectPublicKeyInfo` SEQUENCE.  The certificate
//! parser only exposes the value bytes of that SEQUENCE, so the outer
//! tag-length-value wrapper is rebuilt here before digesting.

use vstd::prelude::*;

verus! {

/// The `subjectPublicKeyInfo` value bytes of a parseable certificate.
pub uninterp spec fn spki_value_of(cert_der: Seq<u8>) -> Option<Seq<u8>>;

/// The SHA-256 digest of a byte string.
pub uninterp spec fn sha256_of(data: Seq<u8>) -> Seq<u8>;

/// The standard base64 encoding of a byte string.
pub uninterp spec fn base64_of(data: Seq<u8>) -> Seq<char>;

/// Relies on webpki::TrustAnchor::try_from_cert_der: whether the
/// certificate parses, and its `spki` value bytes, depend on the DER alone.
#[verifier::external_body]
fn cert_spki_value(cert_der: &[u8]) -> (r: Option<Vec<u8>>)
    ensures
        r is Some <==> spki_value_of(cert_der@) is Some,
        r matches Some(v) ==> spki_value_of(cert_der@) == Some(v@),
{
    match webpki::TrustAnchor::try_from_cert_der(cert_der) {
        Ok(anchor) => Some(anchor.spki.to_vec()),
        Err(_) => None,
    }
}

/// Relies on ring::digest::digest with SHA256: a pure 32-byte digest of the
/// input.
#[verifier::external_body]
fn sha256(data: &[u8]) -> (r: Vec<u8>)
    ensures
        r@ == sha256_of(data@),
        r@.len() == 32,
{
    ring::digest::digest(&ring::digest::SHA256, data).as_ref().to_vec()
}

/// Relies on the base64 crate's standard engine: a pure encoding of the
/// input.
#[verifier::external_body]
fn base64_encode(data: &[u8]) -> (r: String)
    ensures
        r@ == base64_of(data@),
{
    base64::engine::Engine::encode(&base64::engine::general_purpose::STANDARD, data)
}

/// Minimal big-endian byte string of a non-negative integer; empty for zero.
pub open spec fn be_bytes(n: int) -> Seq<u8>
    decreases n,
{
    if n <= 0 {
        Seq::empty()
    } else {
        be_bytes(n / 256) + seq![(n % 256) as u8]
    }
}

/// 256 to the `k`.
pub open spec fn pow256(k: nat) -> int
    decreases k,
{
    if k == 0 {
        1
    } else {
        256 * pow256((k - 1) as nat)
    }
}

/// A number below `256^k` needs at most `k` big-endian bytes.
proof fn lemma_be_bytes_len(n: int, k: nat)
    requires
        0 <= n < pow256(k),
    ensures
        be_bytes(n).len() <= k,
    decreases k,
{
    if n > 0 {
        assert(k > 0);
        assert(n / 256 < pow256((k - 1) as nat)) by {
            assert(pow256(k) == 256 * pow256((k - 1) as nat));
        }
        lemma_be_bytes_len(n / 256, (k - 1) as nat);
    }
}

/// The DER encoding of a length: one byte below 128, else a count byte with
/// the high bit set followed by the big-endian length bytes.
pub open spec fn der_length(n: int) -> Seq<u8> {
    if n < 0x80 {
        seq![n as u8]
    } else {
        seq![(0x80 + be_bytes(n).len()) as u8] + be_bytes(n)
    }
}

/// The DER SEQUENCE wrapper around a value: tag `0x30`, encoded length,
/// then the value bytes.
pub open spec fn der_sequence_tlv(v: Seq<u8>) -> Seq<u8> {
    seq![0x30u8] + der_length(v.len() as int) + v
}

/// Appends the minimal big-endian bytes of `n`.
fn push_be_bytes(n: usize, out: &mut Vec<u8>)
    ensures
        final(out)@ == old(out)@ + be_bytes(n as int),
    decreases n,
{
    if n == 0 {
        proof {
            assert(final(out)@ =~= old(out)@ + be_bytes(0));
        }
    } else {
        push_be_bytes(n / 256, out);
        out.push((n % 256) as u8);
        proof {
            assert(final(out)@ =~= old(out)@ + be_bytes(n as int));
        }
    }
}

/// Rebuilds the DER SEQUENCE tag-length-value wrapper around the exposed
/// `subjectPublicKeyInfo` value bytes.
pub fn build_spki_sequence(value: &[u8]) -> (r: Vec<u8>)
    ensures
        r@ == der_sequence_tlv(value@),
{
    let n = value.len();
    let mut out: Vec<u8> = Vec::new();
    out.push(0x30);
    if n < 0x80 {
        out.push(n as u8);
    } else {
        let mut be: Vec<u8> = Vec::new();
        push_be_bytes(n, &mut be);
        proof {
            reveal_with_fuel(pow256, 9);
            assert(pow256(8) == 0x1_0000_0000_0000_0000);
            lemma_be_bytes_len(n as int, 8);
        }
        out.push(0x80 + be.len() as u8);
        let mut be_tail = be;
        out.append(&mut be_tail);
    }
    let mut i: usize = 0;
    let ghost prefix = out@;
    while i < n
        invariant
            0 <= i <= n,
            n == value@.len(),
            out@ == prefix + value@.take(i as int),
        decreases n - i,
    {
        out.push(value[i]);
        proof {
            assert(prefix + value@.take(i as int) + seq![value@[i as int]] =~= prefix
                + value@.take(i + 1));
        }
        i = i + 1;
    }
    proof {
        assert(value@.take(n as int) =~= value@);
        assert(out@ =~= der_sequence_tlv(value@));
    }
    out
}

/// The digest operators pass to the browser: base64 of the SHA-256 of the
/// rebuilt `subjectPublicKeyInfo` SEQUENCE of the first certificate.
/// `None` when the certificate does not parse.
pub fn spki_digest(cert_der: &[u8]) -> (r: Option<String>)
    ensures
        r is Some <==> spki_value_of(cert_der@) is Some,
        r matches Some(s) ==> (match spki_value_of(cert_der@) {
            Some(v) => s@ == base64_of(sha256_of(der_sequence_tlv(v))),
            None => false,
        }),
{
    match cert_spki_value(cert_der) {
        Some(value) => {
            let tlv = build_spki_sequence(value.as_slice());
            let digest = sha256(tlv.as_slice());
            Some(base64_encode(digest.as_slice()))
        },
        None => None,
    }
}

} // verus!
