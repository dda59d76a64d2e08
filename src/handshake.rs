//! The content-type fingerprint that both peers exchange before any command:
//! the lowercase hex of the BLAKE2b-512 digest of the content-type name,
//! followed by a newline.
use vstd::prelude::*;
use vstd::string::StringSliceAdditionalSpecFns;

verus! {

/// The 64-byte BLAKE2b digest of `data`.
pub uninterp spec fn blake2b_of(data: Seq<u8>) -> Seq<u8>;

/// Relies on `blake2::Blake2b::digest` (blake2 0.9): the BLAKE2b hash with a
/// fixed 64-byte output, a function of the input bytes alone.
#[verifier::external_body]
fn blake2b_digest(data: &[u8]) -> (r: Vec<u8>)
    ensures
        r@ == blake2b_of(data@),
        r@.len() == 64,
{
    <blake2::Blake2b as blake2::Digest>::digest(data).to_vec()
}

/// The ASCII character of the lowercase hex digit `d` (below 16).
pub open spec fn hex_digit(d: nat) -> u8 {
    if d < 10 {
        (48 + d) as u8
    } else {
        (87 + d) as u8
    }
}

/// Each byte of `s` as two lowercase hex digits, high nibble first.
pub open spec fn hex_of(s: Seq<u8>) -> Seq<u8>
    decreases s.len(),
{
    if s.len() == 0 {
        seq![]
    } else {
        let b = s.last() as nat;
        hex_of(s.drop_last()).push(hex_digit(b / 16)).push(hex_digit(b % 16))
    }
}

/// The line a peer sends for the content type whose name is spelt by `name`.
pub open spec fn fingerprint_line(name: Seq<u8>) -> Seq<u8> {
    hex_of(blake2b_of(name)).push(10u8)
}

fn hex_char(d: u8) -> (r: u8)
    requires
        d < 16,
    ensures
        r == hex_digit(d as nat),
{
    if d < 10 {
        48 + d
    } else {
        87 + d
    }
}

/// Lowercase hex of `bytes`, two digits per byte.
pub fn hex_lower(bytes: &[u8]) -> (r: Vec<u8>)
    requires
        bytes@.len() <= usize::MAX / 2,
    ensures
        r@ == hex_of(bytes@),
{
    let mut out: Vec<u8> = Vec::new();
    let mut i: usize = 0;
    while i < bytes.len()
        invariant
            0 <= i <= bytes@.len(),
            out@ == hex_of(bytes@.subrange(0, i as int)),
        decreases bytes@.len() - i,
    {
        let b = bytes[i];
        out.push(hex_char(b / 16));
        out.push(hex_char(b % 16));
        i = i + 1;
        assert(bytes@.subrange(0, i as int).drop_last() =~= bytes@.subrange(0, i - 1));
    }
    assert(bytes@.subrange(0, i as int) =~= bytes@);
    out
}

/// The handshake line for the content type `content_name`.
pub fn handshake_line(content_name: &str) -> (r: Vec<u8>)
    ensures
        r@ == fingerprint_line(content_name.spec_bytes()),
{
    let digest = blake2b_digest(content_name.as_bytes());
    let mut line = hex_lower(digest.as_slice());
    line.push(10u8);
    line
}

pub proof fn lemma_hex_len(s: Seq<u8>)
    ensures
        hex_of(s).len() == 2 * s.len(),
    decreases s.len(),
{
    if s.len() > 0 {
        lemma_hex_len(s.drop_last());
    }
}

proof fn lemma_hex_digit_injective(a: nat, b: nat)
    requires
        a < 16,
        b < 16,
        hex_digit(a) == hex_digit(b),
    ensures
        a == b,
{
}

/// Distinct byte strings have distinct hex spellings.
pub proof fn lemma_hex_injective(s: Seq<u8>, t: Seq<u8>)
    requires
        hex_of(s) == hex_of(t),
    ensures
        s == t,
    decreases s.len(),
{
    lemma_hex_len(s);
    lemma_hex_len(t);
    if s.len() > 0 {
        let hs = hex_of(s);
        let a = s.last() as nat;
        let b = t.last() as nat;
        assert(hs[hs.len() - 1] == hex_digit(a % 16));
        assert(hs[hs.len() - 2] == hex_digit(a / 16));
        assert(hex_of(t)[hs.len() - 1] == hex_digit(b % 16));
        assert(hex_of(t)[hs.len() - 2] == hex_digit(b / 16));
        lemma_hex_digit_injective(a % 16, b % 16);
        lemma_hex_digit_injective(a / 16, b / 16);
        assert(hex_of(s.drop_last()) =~= hs.subrange(0, hs.len() - 2));
        assert(hex_of(t.drop_last()) =~= hex_of(t).subrange(0, hs.len() - 2));
        lemma_hex_injective(s.drop_last(), t.drop_last());
        assert(s =~= s.drop_last().push(s.last()));
        assert(t =~= t.drop_last().push(t.last()));
    } else {
        assert(t.len() == 0);
        assert(s =~= t);
    }
}

/// Content types whose digests differ have different handshake lines.
pub proof fn lemma_fingerprints_differ(a: Seq<u8>, b: Seq<u8>)
    requires
        blake2b_of(a) != blake2b_of(b),
    ensures
        fingerprint_line(a) != fingerprint_line(b),
{
    if fingerprint_line(a) == fingerprint_line(b) {
        assert(hex_of(blake2b_of(a)) =~= fingerprint_line(a).drop_last());
        assert(hex_of(blake2b_of(b)) =~= fingerprint_line(b).drop_last());
        lemma_hex_injective(blake2b_of(a), blake2b_of(b));
    }
}

} // verus!
