//! The wire frame: one relative-motion sample as 20 little-endian bytes.
//!
//! Layout: bytes 0..4 hold the time in milliseconds (truncated to 32 bits),
//! bytes 4..12 the IEEE-754 bit pattern of `dx`, bytes 12..20 that of `dy`.
//! Displacements travel as their `u64` bit patterns, so every double,
//! NaN and the infinities included, is carried exactly.
use vstd::prelude::*;

verus! {

/// Size in bytes of every wire frame.
pub const FRAME_LEN: usize = 20;

/// Byte `i` (0 is least significant) of `x`.
pub open spec fn byte_of(x: u64, i: nat) -> u8 {
    ((x >> (8 * i)) & 0xff) as u8
}

/// The `n` least significant bytes of `x`, least significant first.
pub open spec fn le_bytes(x: u64, n: nat) -> Seq<u8> {
    Seq::new(n, |i: int| byte_of(x, i as nat))
}

/// The unsigned integer whose little-endian encoding is `b`.
pub open spec fn le_value(b: Seq<u8>) -> nat
    decreases b.len(),
{
    if b.len() == 0 {
        0
    } else {
        b[0] as nat + 256 * le_value(b.drop_first())
    }
}

/// The 20 bytes that carry a sample taken at `time_ms` with displacement
/// bit patterns `dx_bits` and `dy_bits`.
pub open spec fn frame_bytes(time_ms: u32, dx_bits: u64, dy_bits: u64) -> Seq<u8> {
    le_bytes(time_ms as u64, 4) + le_bytes(dx_bits, 8) + le_bytes(dy_bits, 8)
}

/// What a 20-byte frame decodes to: `(time_ms, dx_bits, dy_bits)`.
pub open spec fn frame_fields(b: Seq<u8>) -> Option<(u32, u64, u64)> {
    if b.len() == FRAME_LEN {
        Some((
            le_value(b.subrange(0, 4)) as u32,
            le_value(b.subrange(4, 12)) as u64,
            le_value(b.subrange(12, 20)) as u64,
        ))
    } else {
        None
    }
}

/// `256` to the power `n`.
pub open spec fn pow256(n: nat) -> nat
    decreases n,
{
    if n == 0 {
        1
    } else {
        256 * pow256((n - 1) as nat)
    }
}

proof fn lemma_le_value_bound(b: Seq<u8>)
    ensures
        le_value(b) < pow256(b.len()),
    decreases b.len(),
{
    if b.len() > 0 {
        lemma_le_value_bound(b.drop_first());
        let r = le_value(b.drop_first());
        let p = pow256((b.len() - 1) as nat);
        assert(b[0] as nat + 256 * r < 256 * p) by (nonlinear_arith)
            requires
                r < p,
                b[0] < 256,
        ;
    }
}

proof fn lemma_le_round_trip(x: u64, n: nat)
    requires
        n <= 8,
        x < pow256(n),
    ensures
        le_value(le_bytes(x, n)) == x,
    decreases n,
{
    if n == 0 {
        assert(x == 0);
    } else {
        let y: u64 = x >> 8u64;
        assert(x & 0xff == x % 256 && x >> 8u64 == x / 256) by (bit_vector);
        let p = pow256((n - 1) as nat);
        assert(x / 256 < p) by (nonlinear_arith)
            requires
                x < 256 * p,
        ;
        lemma_le_round_trip(y, (n - 1) as nat);
        assert forall|i: int| 0 <= i < n - 1 implies le_bytes(x, n).drop_first()[i] == le_bytes(
            y,
            (n - 1) as nat,
        )[i] by {
            let k: u64 = (8 * i) as u64;
            assert((x >> ((k + 8) as u64)) & 0xff == ((x >> 8u64) >> k) & 0xff) by (bit_vector)
                requires
                    k <= 48,
            ;
        }
        assert(le_bytes(x, n).drop_first() =~= le_bytes(y, (n - 1) as nat));
        assert((x >> 0u64) & 0xff == x % 256) by (bit_vector);
        assert(le_bytes(x, n)[0] == (x % 256) as u8);
        assert(x == x % 256 + 256 * (x / 256)) by (nonlinear_arith);
    }
}

fn push_le(out: &mut Vec<u8>, x: u64, n: usize)
    requires
        n <= 8,
    ensures
        final(out)@ == old(out)@ + le_bytes(x, n as nat),
{
    let ghost start = old(out)@;
    let mut i: usize = 0;
    let mut rest: u64 = x;
    assert(x >> 0u64 == x) by (bit_vector);
    while i < n
        invariant
            i <= n <= 8,
            out@ == start + le_bytes(x, i as nat),
            rest == x >> (8 * i) as u64,
        decreases n - i,
    {
        assert(rest & 0xff <= 0xff) by (bit_vector);
        let b: u8 = (rest & 0xff) as u8;
        assert(b == byte_of(x, i as nat));
        out.push(b);
        let ghost k: u64 = (8 * i) as u64;
        assert((x >> k) >> 8u64 == x >> ((k + 8) as u64)) by (bit_vector)
            requires k <= 56;
        rest = rest >> 8;
        i = i + 1;
        assert(out@ =~= start + le_bytes(x, i as nat));
    }
}

/// Encodes one motion sample into its wire frame.
pub fn encode_frame(time_ms: u32, dx_bits: u64, dy_bits: u64) -> (r: Vec<u8>)
    ensures
        r@ == frame_bytes(time_ms, dx_bits, dy_bits),
        r@.len() == FRAME_LEN,
{
    let mut out: Vec<u8> = Vec::with_capacity(FRAME_LEN);
    push_le(&mut out, time_ms as u64, 4);
    push_le(&mut out, dx_bits, 8);
    push_le(&mut out, dy_bits, 8);
    assert(out@ =~= frame_bytes(time_ms, dx_bits, dy_bits));
    out
}

fn read_le(b: &[u8], start: usize, n: usize) -> (r: u64)
    requires
        n <= 8,
        start + n <= b@.len() <= FRAME_LEN,
    ensures
        r == le_value(b@.subrange(start as int, start + n)),
{
    let end: usize = start + n;
    let mut j: usize = end;
    let mut acc: u64 = 0;
    assert(b@.subrange(end as int, end as int).len() == 0);
    while j > start
        invariant
            start <= j <= end,
            end == start + n,
            n <= 8,
            end <= b@.len(),
            acc == le_value(b@.subrange(j as int, end as int)),
        decreases j,
    {
        j = j - 1;
        let ghost tail = b@.subrange(j + 1, end as int);
        proof {
            lemma_le_value_bound(tail);
            lemma_pow256_mono(tail.len(), 7);
        }
        let ghost byte = b@[j as int];
        assert(acc * 256 + byte <= 0xffff_ffff_ffff_ffff) by (nonlinear_arith)
            requires
                byte < 256,
                acc < pow256(tail.len()),
                pow256(tail.len()) <= pow256(7),
                pow256(7) == 0x100_0000_0000_0000,
        ;
        assert(b@.subrange(j as int, end as int).drop_first() =~= tail);
        acc = acc * 256 + b[j] as u64;
    }
    acc
}

proof fn lemma_pow256_mono(m: nat, n: nat)
    requires
        m <= n,
    ensures
        pow256(m) <= pow256(n),
        pow256(7) == 0x100_0000_0000_0000,
    decreases n,
{
    reveal_with_fuel(pow256, 8);
    if m < n {
        lemma_pow256_mono(m, (n - 1) as nat);
    }
}

/// The microsecond count whose high and low 32-bit halves are given.
pub open spec fn micros_of(utime_hi: u32, utime_lo: u32) -> nat {
    utime_hi as nat * 0x1_0000_0000 + utime_lo as nat
}

/// The wire time of a sample taken `micros` microseconds after the
/// compositor's epoch: whole milliseconds, truncated to 32 bits.
pub open spec fn wire_time(micros: nat) -> u32 {
    ((micros / 1000) % 0x1_0000_0000) as u32
}

/// Joins the two halves of a relative-motion timestamp into microseconds.
pub fn join_micros(utime_hi: u32, utime_lo: u32) -> (r: u64)
    ensures
        r == micros_of(utime_hi, utime_lo),
{
    let hi: u64 = utime_hi as u64;
    let lo: u64 = utime_lo as u64;
    let r: u64 = (hi << 32u64) | lo;
    assert(r == hi * 0x1_0000_0000 + lo) by (bit_vector)
        requires
            r == (hi << 32u64) | lo,
            hi < 0x1_0000_0000,
            lo < 0x1_0000_0000,
    ;
    r
}

/// Milliseconds from microseconds, truncated to the 32 bits of the wire.
pub fn wire_time_of(micros: u64) -> (r: u32)
    ensures
        r == wire_time(micros as nat),
{
    let ms: u64 = micros / 1000;
    (ms % 0x1_0000_0000) as u32
}

/// Encodes the relative-motion sample with the given timestamp halves and
/// unaccelerated displacement bit patterns.
pub fn motion_frame(utime_hi: u32, utime_lo: u32, dx_bits: u64, dy_bits: u64) -> (r: Vec<u8>)
    ensures
        r@ == frame_bytes(wire_time(micros_of(utime_hi, utime_lo)), dx_bits, dy_bits),
        r@.len() == FRAME_LEN,
{
    let micros = join_micros(utime_hi, utime_lo);
    encode_frame(wire_time_of(micros), dx_bits, dy_bits)
}

/// Decodes a wire frame into `(time_ms, dx_bits, dy_bits)`; `None` unless
/// the input is exactly one frame long.
pub fn decode_frame(b: &[u8]) -> (r: Option<(u32, u64, u64)>)
    ensures
        r == frame_fields(b@),
{
    if b.len() != FRAME_LEN {
        return None;
    }
    proof {
        lemma_le_value_bound(b@.subrange(0, 4));
        reveal_with_fuel(pow256, 5);
    }
    let time_ms = read_le(b, 0, 4);
    let dx_bits = read_le(b, 4, 8);
    let dy_bits = read_le(b, 12, 8);
    Some((time_ms as u32, dx_bits, dy_bits))
}

/// Decoding an encoded frame gives back the time and both displacement bit
/// patterns exactly, whatever their values.
pub proof fn lemma_frame_round_trip(time_ms: u32, dx_bits: u64, dy_bits: u64)
    ensures
        frame_fields(frame_bytes(time_ms, dx_bits, dy_bits)) == Some((time_ms, dx_bits, dy_bits)),
{
    let f = frame_bytes(time_ms, dx_bits, dy_bits);
    reveal_with_fuel(pow256, 9);
    assert(f.subrange(0, 4) =~= le_bytes(time_ms as u64, 4));
    assert(f.subrange(4, 12) =~= le_bytes(dx_bits, 8));
    assert(f.subrange(12, 20) =~= le_bytes(dy_bits, 8));
    lemma_le_round_trip(time_ms as u64, 4);
    lemma_le_round_trip(dx_bits, 8);
    lemma_le_round_trip(dy_bits, 8);
}

} // verus!
