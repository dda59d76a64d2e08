//! Length-prefixed framing: an 8-byte big-endian signed length followed by
//! exactly that many payload bytes.
use vstd::prelude::*;

verus! {

/// Largest payload length that a frame's signed 64-bit prefix can declare.
pub const MAX_FRAME_LEN: u64 = 0x7fff_ffff_ffff_ffff;

/// Number of bytes in a frame's length prefix.
pub const HEADER_LEN: usize = 8;

/// `256` raised to the power `k`.
pub open spec fn pow256(k: nat) -> nat
    decreases k,
{
    if k == 0 {
        1
    } else {
        256 * pow256((k - 1) as nat)
    }
}

/// The `k` low-order bytes of `n`, most significant first.
pub open spec fn be_bytes(n: nat, k: nat) -> Seq<u8>
    decreases k,
{
    if k == 0 {
        seq![]
    } else {
        be_bytes(n / 256, (k - 1) as nat).push((n % 256) as u8)
    }
}

/// The unsigned number that `s` spells, most significant byte first.
pub open spec fn be_value(s: Seq<u8>) -> nat
    decreases s.len(),
{
    if s.len() == 0 {
        0
    } else {
        be_value(s.drop_last()) * 256 + s.last() as nat
    }
}

/// The signed length that an 8-byte prefix declares (two's complement).
pub open spec fn declared_len(h: Seq<u8>) -> int {
    let v = be_value(h.subrange(0, 8));
    if v <= MAX_FRAME_LEN {
        v as int
    } else {
        v as int - pow256(8) as int
    }
}

/// The bytes of one frame carrying `p`.
pub open spec fn frame_of(p: Seq<u8>) -> Seq<u8> {
    be_bytes(p.len(), 8) + p
}

/// Why a frame could not be read.
#[derive(Debug, Clone, Copy, PartialEq, Eq, Structural)]
pub enum FrameError {
    /// The bytes end before the prefix or the declared payload does.
    Incomplete,
    /// The prefix declares a negative length.
    NegativeLength,
}

/// What reading a frame from the start of `buf` gives: the payload and the
/// number of bytes the frame takes, or why there is none.
pub open spec fn frame_read(buf: Seq<u8>) -> Result<(Seq<u8>, nat), FrameError> {
    if buf.len() < 8 {
        Err(FrameError::Incomplete)
    } else if declared_len(buf) < 0 {
        Err(FrameError::NegativeLength)
    } else if buf.len() - 8 < declared_len(buf) {
        Err(FrameError::Incomplete)
    } else {
        let n = declared_len(buf);
        Ok((buf.subrange(8, 8 + n), (8 + n) as nat))
    }
}

pub proof fn lemma_be_value_bound(s: Seq<u8>)
    ensures
        be_value(s) < pow256(s.len()),
    decreases s.len(),
{
    if s.len() > 0 {
        lemma_be_value_bound(s.drop_last());
        let v = be_value(s.drop_last());
        let p = pow256((s.len() - 1) as nat);
        let b = s.last() as nat;
        assert(v * 256 + b < 256 * p) by (nonlinear_arith)
            requires
                v < p,
                b < 256,
        ;
    }
}

pub proof fn lemma_be_round_trip(n: nat, k: nat)
    requires
        n < pow256(k),
    ensures
        be_value(be_bytes(n, k)) == n,
        be_bytes(n, k).len() == k,
    decreases k,
{
    if k > 0 {
        let p = pow256((k - 1) as nat);
        assert(n / 256 < p) by (nonlinear_arith)
            requires
                n < 256 * p,
        ;
        lemma_be_round_trip(n / 256, (k - 1) as nat);
        let s = be_bytes(n, k);
        assert(s.drop_last() =~= be_bytes(n / 256, (k - 1) as nat));
        assert((n / 256) * 256 + n % 256 == n) by (nonlinear_arith);
    }
}

/// Appends the `k` low-order bytes of `n` to `out`, most significant first.
fn push_be(out: &mut Vec<u8>, n: u64, k: usize)
    ensures
        final(out)@ == old(out)@ + be_bytes(n as nat, k as nat),
    decreases k,
{
    if k > 0 {
        push_be(out, n / 256, k - 1);
        out.push((n % 256) as u8);
    }
    assert(final(out)@ =~= old(out)@ + be_bytes(n as nat, k as nat));
}

/// Encodes `payload` as one frame.
pub fn encode_frame(payload: &[u8]) -> (r: Vec<u8>)
    requires
        payload@.len() <= MAX_FRAME_LEN,
    ensures
        r@ == frame_of(payload@),
{
    let mut out: Vec<u8> = Vec::new();
    write_frame(&mut out, payload);
    out
}

/// Appends one frame carrying `payload` to `out`.
pub fn write_frame(out: &mut Vec<u8>, payload: &[u8])
    requires
        payload@.len() <= MAX_FRAME_LEN,
    ensures
        final(out)@ == old(out)@ + frame_of(payload@),
{
    push_be(out, payload.len() as u64, HEADER_LEN);
    let ghost mid = out@;
    let mut i: usize = 0;
    while i < payload.len()
        invariant
            0 <= i <= payload@.len(),
            out@ == mid + payload@.subrange(0, i as int),
        decreases payload@.len() - i,
    {
        out.push(payload[i]);
        i = i + 1;
        assert(out@ =~= mid + payload@.subrange(0, i as int));
    }
    assert(payload@.subrange(0, i as int) =~= payload@);
    assert(final(out)@ =~= old(out)@ + frame_of(payload@));
}

/// The length that a frame's prefix declares: the first 8 bytes of
/// `header`, read as a big-endian signed integer.
pub fn frame_length(header: &[u8]) -> (r: Result<u64, FrameError>)
    ensures
        header@.len() < 8 ==> r == Err::<u64, FrameError>(FrameError::Incomplete),
        header@.len() >= 8 && declared_len(header@) < 0 ==> r == Err::<u64, FrameError>(
            FrameError::NegativeLength,
        ),
        header@.len() >= 8 && declared_len(header@) >= 0 ==> r is Ok && r->Ok_0 as int
            == declared_len(header@),
{
    if header.len() < HEADER_LEN {
        return Err(FrameError::Incomplete);
    }
    let mut v: u64 = 0;
    let mut i: usize = 0;
    while i < HEADER_LEN
        invariant
            8 <= header@.len(),
            0 <= i <= 8,
            v as nat == be_value(header@.subrange(0, i as int)),
        decreases 8 - i,
    {
        proof {
            lemma_be_value_bound(header@.subrange(0, i as int));
            assert(pow256(i as nat) <= pow256(7)) by {
                lemma_pow256_mono(i as nat, 7);
            }
            lemma_pow256_values();
        }
        v = v * 256 + header[i] as u64;
        i = i + 1;
        assert(header@.subrange(0, i as int).drop_last() =~= header@.subrange(0, i - 1));
    }
    if v <= MAX_FRAME_LEN {
        Ok(v)
    } else {
        proof {
            lemma_pow256_values();
        }
        Err(FrameError::NegativeLength)
    }
}

proof fn lemma_pow256_values()
    ensures
        pow256(7) == 0x100_0000_0000_0000nat,
        pow256(8) == 0x1_0000_0000_0000_0000nat,
{
    reveal_with_fuel(pow256, 9);
}

proof fn lemma_pow256_mono(a: nat, b: nat)
    requires
        a <= b,
    ensures
        pow256(a) <= pow256(b),
    decreases b - a,
{
    if a < b {
        lemma_pow256_mono(a, (b - 1) as nat);
        lemma_pow256_pos((b - 1) as nat);
    }
}

proof fn lemma_pow256_pos(k: nat)
    ensures
        pow256(k) >= 1,
    decreases k,
{
    if k > 0 {
        lemma_pow256_pos((k - 1) as nat);
    }
}

/// Reads one frame from the start of `buf`: its payload and the number of
/// bytes it takes.
pub fn decode_frame(buf: &[u8]) -> (r: Result<(Vec<u8>, usize), FrameError>)
    ensures
        match (r, frame_read(buf@)) {
            (Ok((p, n)), Ok((q, m))) => p@ == q && n as nat == m,
            (Err(e), Err(f)) => e == f,
            _ => false,
        },
{
    let len = match frame_length(buf) {
        Ok(len) => len,
        Err(e) => return Err(e),
    };
    if ((buf.len() - HEADER_LEN) as u64) < len {
        return Err(FrameError::Incomplete);
    }
    let end: usize = HEADER_LEN + len as usize;
    let mut payload: Vec<u8> = Vec::new();
    let mut i: usize = HEADER_LEN;
    while i < end
        invariant
            8 <= i <= end <= buf@.len(),
            payload@ == buf@.subrange(8, i as int),
        decreases end - i,
    {
        payload.push(buf[i]);
        i = i + 1;
        assert(payload@ =~= buf@.subrange(8, i as int));
    }
    assert(frame_read(buf@) == Ok::<(Seq<u8>, nat), FrameError>((payload@, end as nat)));
    Ok((payload, end))
}

/// Reading back a frame that was written for `p` gives `p` again and takes
/// the whole frame, whatever follows it.
pub proof fn lemma_frame_round_trip(p: Seq<u8>, rest: Seq<u8>)
    requires
        p.len() <= MAX_FRAME_LEN,
    ensures
        frame_read(frame_of(p) + rest) == Ok::<(Seq<u8>, nat), FrameError>(
            (p, (8 + p.len()) as nat),
        ),
{
    lemma_pow256_values();
    lemma_be_round_trip(p.len(), 8);
    let buf = frame_of(p) + rest;
    assert(buf.subrange(0, 8) =~= be_bytes(p.len(), 8));
    assert(buf.subrange(8, 8 + p.len() as int) =~= p);
}

/// A frame whose declared payload runs past the end of the bytes at hand is
/// never read.
pub proof fn lemma_short_frame_fails(p: Seq<u8>, k: nat)
    requires
        p.len() <= MAX_FRAME_LEN,
        k < frame_of(p).len(),
    ensures
        frame_read(frame_of(p).subrange(0, k as int)) == Err::<(Seq<u8>, nat), FrameError>(
            FrameError::Incomplete,
        ),
{
    lemma_pow256_values();
    lemma_be_round_trip(p.len(), 8);
    let buf = frame_of(p).subrange(0, k as int);
    if k >= 8 {
        assert(buf.subrange(0, 8) =~= be_bytes(p.len(), 8));
    }
}

} // verus!
