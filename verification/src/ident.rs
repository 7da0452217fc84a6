//! Content-addressed identity for messages.
//!
//! Two pure functions derive every identity the pipeline uses:
//! - `content_fingerprint`: a lowercase-hex SHA-256 digest of subject, sender
//!   and body concatenated in that order with no separator. Stored beside the
//!   message and used only to detect byte-identical re-deliveries.
//! - `stable_vector_id`: the first 8 bytes of the SHA-256 digest of
//!   `store_id || entry_id`, read little-endian as a `u64`. Reprocessing the
//!   same logical message therefore always addresses the same vector record.

use vstd::prelude::*;
use vstd::bytes::{spec_u64_from_le_bytes, u64_from_le_bytes};
use vstd::slice::{slice_index_get, slice_subrange};
use vstd::string::StringSliceAdditionalSpecFns;
use sha2::Digest;

verus! {

/// The SHA-256 digest of a byte sequence, named but not defined here: the
/// digest depends on the input bytes alone, so the name is a pure function.
pub uninterp spec fn sha256_of(data: Seq<u8>) -> Seq<u8>;

/// Relies on sha2::Sha256 (RustCrypto): returns the 32-byte SHA-256 digest,
/// a function of the input bytes alone.
#[verifier::external_body]
fn sha256_digest(data: &[u8]) -> (r: Vec<u8>)
    ensures
        r@ == sha256_of(data@),
        r@.len() == 32,
{
    sha2::Sha256::digest(data).to_vec()
}

/// The lowercase hex digit for a nibble.
pub open spec fn hex_digit(n: u8) -> char
    recommends
        n < 16,
{
    if n == 0 {
        '0'
    } else if n == 1 {
        '1'
    } else if n == 2 {
        '2'
    } else if n == 3 {
        '3'
    } else if n == 4 {
        '4'
    } else if n == 5 {
        '5'
    } else if n == 6 {
        '6'
    } else if n == 7 {
        '7'
    } else if n == 8 {
        '8'
    } else if n == 9 {
        '9'
    } else if n == 10 {
        'a'
    } else if n == 11 {
        'b'
    } else if n == 12 {
        'c'
    } else if n == 13 {
        'd'
    } else if n == 14 {
        'e'
    } else {
        'f'
    }
}

/// Lowercase hex rendering of a byte sequence, two digits per byte.
pub open spec fn hex_of(data: Seq<u8>) -> Seq<char>
    decreases data.len(),
{
    if data.len() == 0 {
        Seq::empty()
    } else {
        seq![hex_digit(data.first() / 16), hex_digit(data.first() % 16)] + hex_of(
            data.drop_first(),
        )
    }
}

pub proof fn lemma_hex_of_len(data: Seq<u8>)
    ensures
        hex_of(data).len() == 2 * data.len(),
    decreases data.len(),
{
    if data.len() > 0 {
        lemma_hex_of_len(data.drop_first());
    }
}

/// Renders a byte sequence as lowercase hex.
pub fn to_hex(data: &[u8]) -> (r: String)
    ensures
        r@ == hex_of(data@),
{
    let digits = "0123456789abcdef";
    proof {
        reveal_strlit("0123456789abcdef");
    }
    let mut r = String::new();
    let n = data.len();
    assert(data@.skip(0) =~= data@);
    for i in 0..n
        invariant
            n == data@.len(),
            hex_of(data@) =~= r@ + hex_of(data@.skip(i as int)),
            digits@.len() == 16,
            digits.is_ascii(),
            forall|k: u8| k < 16 ==> #[trigger] hex_digit(k) == digits@[k as int],
    {
        let b = *slice_index_get(data, i);
        let hi = b / 16;
        let lo = b % 16;
        let hs = digits.substring_ascii(hi as usize, hi as usize + 1);
        let ls = digits.substring_ascii(lo as usize, lo as usize + 1);
        r.append(hs);
        r.append(ls);
        proof {
            assert(hs@ =~= seq![hex_digit(hi)]);
            assert(ls@ =~= seq![hex_digit(lo)]);
            assert(data@.skip(i as int).first() == data@[i as int]);
            assert(data@.skip(i as int).drop_first() =~= data@.skip(i as int + 1));
        }
    }
    assert(data@.skip(n as int) =~= Seq::<u8>::empty());
    r
}

/// The fingerprint of a message's identifying content: the hex-rendered
/// SHA-256 digest of subject, sender and body bytes, concatenated in that
/// order with no separator.
pub open spec fn fingerprint_of(subject: Seq<u8>, sender: Seq<u8>, body: Seq<u8>) -> Seq<char> {
    hex_of(sha256_of(subject + sender + body))
}

/// Computes the content-dedup fingerprint of a message.
pub fn content_fingerprint(subject: &str, sender: &str, body: &str) -> (r: String)
    ensures
        r@ == fingerprint_of(subject.spec_bytes(), sender.spec_bytes(), body.spec_bytes()),
        r@.len() == 64,
{
    let mut buf = subject.as_bytes_vec();
    let mut tail = sender.as_bytes_vec();
    buf.append(&mut tail);
    let mut tail = body.as_bytes_vec();
    buf.append(&mut tail);
    let digest = sha256_digest(buf.as_slice());
    let r = to_hex(digest.as_slice());
    proof {
        lemma_hex_of_len(digest@);
    }
    r
}

/// The 64-bit stable identity of a message in the vector store: the first
/// 8 bytes of the SHA-256 digest of `store_id || entry_id`, little-endian.
pub open spec fn stable_vector_id_of(store_id: Seq<u8>, entry_id: Seq<u8>) -> u64 {
    spec_u64_from_le_bytes(sha256_of(store_id + entry_id).subrange(0, 8))
}

/// Derives the stable numeric identity used to key a message's vector record.
pub fn stable_vector_id(store_id: &str, entry_id: &str) -> (r: u64)
    ensures
        r == stable_vector_id_of(store_id.spec_bytes(), entry_id.spec_bytes()),
{
    let mut buf = store_id.as_bytes_vec();
    let mut tail = entry_id.as_bytes_vec();
    buf.append(&mut tail);
    let digest = sha256_digest(buf.as_slice());
    let head = slice_subrange(digest.as_slice(), 0, 8);
    u64_from_le_bytes(head)
}

/// Law: the stable vector identity is a pure function of `(store_id,
/// entry_id)` — equal inputs give the identical 64-bit key, in any process.
pub proof fn lemma_stable_vector_id_pure(s1: Seq<u8>, e1: Seq<u8>, s2: Seq<u8>, e2: Seq<u8>)
    requires
        s1 == s2,
        e1 == e2,
    ensures
        stable_vector_id_of(s1, e1) == stable_vector_id_of(s2, e2),
{
}

/// Law: the content fingerprint is unchanged while subject, sender and body
/// are unchanged. (The converse — that a change in one of the fields always
/// changes the fingerprint — is a collision-freedom property of the digest
/// and is not provable.)
pub proof fn lemma_fingerprint_stable(
    subj1: Seq<u8>,
    from1: Seq<u8>,
    body1: Seq<u8>,
    subj2: Seq<u8>,
    from2: Seq<u8>,
    body2: Seq<u8>,
)
    requires
        subj1 == subj2,
        from1 == from2,
        body1 == body2,
    ensures
        fingerprint_of(subj1, from1, body1) == fingerprint_of(subj2, from2, body2),
{
}

} // verus!
