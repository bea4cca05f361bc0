//! Little-endian integer fields inside byte regions.
//!
//! The wire format fixes little-endian order: it matches the in-memory layout of the
//! kernel structures on little-endian hosts, and differs from it on big-endian ones.
use vstd::prelude::*;

verus! {

/// `256` raised to the `n`th power.
pub open spec fn byte_pow(n: nat) -> nat
    decreases n,
{
    if n == 0 {
        1
    } else {
        256 * byte_pow((n - 1) as nat)
    }
}

/// The unsigned value of the `n` bytes of `s` starting at `off`, least significant first.
pub open spec fn le_value(s: Seq<u8>, off: int, n: nat) -> nat
    decreases n,
{
    if n == 0 {
        0
    } else {
        s[off] as nat + 256 * le_value(s, off + 1, (n - 1) as nat)
    }
}

/// The `n` least significant bytes of `v`, least significant first.
pub open spec fn le_bytes(v: nat, n: nat) -> Seq<u8> {
    Seq::new(n, |i: int| ((v / byte_pow(i as nat)) % 256) as u8)
}

/// The two's complement bits of a signed value of `bits` bits.
pub open spec fn twos_complement(v: int, bits: nat) -> nat {
    if v >= 0 {
        v as nat
    } else {
        (v + pow2_bits(bits)) as nat
    }
}

/// The signed value whose two's complement bits of width `bits` are `u`.
pub open spec fn from_twos_complement(u: nat, bits: nat) -> int {
    if u < pow2_bits(bits) / 2 {
        u as int
    } else {
        u - pow2_bits(bits)
    }
}

pub open spec fn pow2_bits(bits: nat) -> nat {
    if bits == 32 {
        0x1_0000_0000
    } else {
        0x1_0000_0000_0000_0000
    }
}

pub proof fn lemma_byte_pow_values()
    ensures
        byte_pow(0) == 1,
        byte_pow(1) == 0x100,
        byte_pow(2) == 0x1_0000,
        byte_pow(4) == 0x1_0000_0000,
        byte_pow(7) == 0x100_0000_0000_0000,
        byte_pow(8) == 0x1_0000_0000_0000_0000,
{
    reveal_with_fuel(byte_pow, 9);
}

pub proof fn lemma_byte_pow_positive(n: nat)
    ensures
        byte_pow(n) > 0,
    decreases n,
{
    if n > 0 {
        lemma_byte_pow_positive((n - 1) as nat);
    }
}

pub proof fn lemma_byte_pow_mono(a: nat, b: nat)
    requires
        a <= b,
    ensures
        byte_pow(a) <= byte_pow(b),
    decreases b,
{
    if a < b {
        lemma_byte_pow_mono(a, (b - 1) as nat);
    }
}

pub proof fn lemma_le_value_bound(s: Seq<u8>, off: int, n: nat)
    ensures
        le_value(s, off, n) < byte_pow(n),
    decreases n,
{
    if n > 0 {
        lemma_le_value_bound(s, off + 1, (n - 1) as nat);
        let x = s[off] as nat;
        let y = le_value(s, off + 1, (n - 1) as nat);
        let p = byte_pow((n - 1) as nat);
        assert(x + 256 * y < 256 * p) by (nonlinear_arith)
            requires
                x < 256,
                y < p,
        ;
    }
}

/// A little-endian value depends on its own bytes only.
pub proof fn lemma_le_value_ext(s1: Seq<u8>, s2: Seq<u8>, off: int, n: nat)
    requires
        forall|i: int| off <= i < off + n ==> s1[i] == s2[i],
    ensures
        le_value(s1, off, n) == le_value(s2, off, n),
    decreases n,
{
    if n > 0 {
        lemma_le_value_ext(s1, s2, off + 1, (n - 1) as nat);
    }
}

/// Reads the `n` bytes of `b` at `off` as a little-endian unsigned integer.
pub fn read_le(b: &[u8], off: usize, n: usize) -> (r: u64)
    requires
        n <= 8,
        off + n <= b.len(),
    ensures
        r as nat == le_value(b@, off as int, n as nat),
{
    let mut acc: u64 = 0;
    let mut i: usize = n;
    proof {
        lemma_byte_pow_values();
    }
    while i > 0
        invariant
            i <= n <= 8,
            off + n <= b.len(),
            acc as nat == le_value(b@, off + i, (n - i) as nat),
            byte_pow(7) == 0x100_0000_0000_0000,
        decreases i,
    {
        proof {
            lemma_le_value_bound(b@, off + i, (n - i) as nat);
            lemma_byte_pow_mono((n - i) as nat, 7);
        }
        i = i - 1;
        let byte = b[off + i] as u64;
        assert(acc < 0x100_0000_0000_0000);
        acc = byte + 256 * acc;
    }
    acc
}

/// Appends the `n` least significant bytes of `v` to `out`, least significant first.
pub fn push_le(out: &mut Vec<u8>, v: u64, n: usize)
    requires
        n <= 8,
    ensures
        final(out)@ == old(out)@ + le_bytes(v as nat, n as nat),
{
    let mut x: u64 = v;
    let mut i: usize = 0;
    proof {
        lemma_byte_pow_values();
    }
    while i < n
        invariant
            i <= n <= 8,
            x as nat == v as nat / byte_pow(i as nat),
            out@ == old(out)@ + le_bytes(v as nat, i as nat),
        decreases n - i,
    {
        proof {
            lemma_byte_pow_positive(i as nat);
            vstd::arithmetic::div_mod::lemma_div_denominator(v as int, byte_pow(i as nat) as int, 256);
            assert(byte_pow(i as nat) * 256 == byte_pow((i + 1) as nat));
        }
        out.push((x % 256) as u8);
        x = x / 256;
        i = i + 1;
        assert(out@ =~= old(out)@ + le_bytes(v as nat, i as nat));
    }
}

/// The signed 32-bit integer whose two's complement bits are `u`.
pub fn i32_from_bits(u: u32) -> (r: i32)
    ensures
        r as int == from_twos_complement(u as nat, 32),
{
    if u < 0x8000_0000 {
        u as i32
    } else {
        ((u - 0x8000_0000) as i32) - 0x7fff_ffff - 1
    }
}

/// The signed 64-bit integer whose two's complement bits are `u`.
pub fn i64_from_bits(u: u64) -> (r: i64)
    ensures
        r as int == from_twos_complement(u as nat, 64),
{
    if u < 0x8000_0000_0000_0000 {
        u as i64
    } else {
        ((u - 0x8000_0000_0000_0000) as i64) - 0x7fff_ffff_ffff_ffff - 1
    }
}

/// The two's complement bits of `v`.
pub fn bits_of_i32(v: i32) -> (r: u32)
    ensures
        r as nat == twos_complement(v as int, 32),
{
    if v >= 0 {
        v as u32
    } else {
        ((v + 0x7fff_ffff) + 1) as u32 + 0x8000_0000
    }
}

/// The two's complement bits of `v`.
pub fn bits_of_i64(v: i64) -> (r: u64)
    ensures
        r as nat == twos_complement(v as int, 64),
{
    if v >= 0 {
        v as u64
    } else {
        ((v + 0x7fff_ffff_ffff_ffff) + 1) as u64 + 0x8000_0000_0000_0000
    }
}

pub open spec fn u16_at(s: Seq<u8>, off: int) -> u16 {
    le_value(s, off, 2) as u16
}

pub open spec fn u32_at(s: Seq<u8>, off: int) -> u32 {
    le_value(s, off, 4) as u32
}

pub open spec fn u64_at(s: Seq<u8>, off: int) -> u64 {
    le_value(s, off, 8) as u64
}

pub open spec fn i32_at(s: Seq<u8>, off: int) -> i32 {
    from_twos_complement(le_value(s, off, 4), 32) as i32
}

pub open spec fn i64_at(s: Seq<u8>, off: int) -> i64 {
    from_twos_complement(le_value(s, off, 8), 64) as i64
}

pub open spec fn u16_bytes(v: u16) -> Seq<u8> {
    le_bytes(v as nat, 2)
}

pub open spec fn u32_bytes(v: u32) -> Seq<u8> {
    le_bytes(v as nat, 4)
}

pub open spec fn u64_bytes(v: u64) -> Seq<u8> {
    le_bytes(v as nat, 8)
}

pub open spec fn i32_bytes(v: i32) -> Seq<u8> {
    le_bytes(twos_complement(v as int, 32), 4)
}

pub open spec fn i64_bytes(v: i64) -> Seq<u8> {
    le_bytes(twos_complement(v as int, 64), 8)
}

pub fn get_u16(b: &[u8], off: usize) -> (r: u16)
    requires
        off + 2 <= b.len(),
    ensures
        r == u16_at(b@, off as int),
{
    let v = read_le(b, off, 2);
    proof {
        lemma_le_value_bound(b@, off as int, 2);
        lemma_byte_pow_values();
    }
    v as u16
}

pub fn get_u32(b: &[u8], off: usize) -> (r: u32)
    requires
        off + 4 <= b.len(),
    ensures
        r == u32_at(b@, off as int),
{
    let v = read_le(b, off, 4);
    proof {
        lemma_le_value_bound(b@, off as int, 4);
        lemma_byte_pow_values();
    }
    v as u32
}

pub fn get_u64(b: &[u8], off: usize) -> (r: u64)
    requires
        off + 8 <= b.len(),
    ensures
        r == u64_at(b@, off as int),
{
    read_le(b, off, 8)
}

pub fn get_i32(b: &[u8], off: usize) -> (r: i32)
    requires
        off + 4 <= b.len(),
    ensures
        r == i32_at(b@, off as int),
{
    let u = get_u32(b, off);
    proof {
        lemma_le_value_bound(b@, off as int, 4);
        lemma_byte_pow_values();
    }
    i32_from_bits(u)
}

pub fn get_i64(b: &[u8], off: usize) -> (r: i64)
    requires
        off + 8 <= b.len(),
    ensures
        r == i64_at(b@, off as int),
{
    let u = get_u64(b, off);
    proof {
        lemma_le_value_bound(b@, off as int, 8);
        lemma_byte_pow_values();
    }
    i64_from_bits(u)
}

pub fn put_u16(out: &mut Vec<u8>, v: u16)
    ensures
        final(out)@ == old(out)@ + u16_bytes(v),
{
    push_le(out, v as u64, 2);
}

pub fn put_u32(out: &mut Vec<u8>, v: u32)
    ensures
        final(out)@ == old(out)@ + u32_bytes(v),
{
    push_le(out, v as u64, 4);
}

pub fn put_u64(out: &mut Vec<u8>, v: u64)
    ensures
        final(out)@ == old(out)@ + u64_bytes(v),
{
    push_le(out, v, 8);
}

pub fn put_i32(out: &mut Vec<u8>, v: i32)
    ensures
        final(out)@ == old(out)@ + i32_bytes(v),
{
    push_le(out, bits_of_i32(v) as u64, 4);
}

pub fn put_i64(out: &mut Vec<u8>, v: i64)
    ensures
        final(out)@ == old(out)@ + i64_bytes(v),
{
    push_le(out, bits_of_i64(v), 8);
}

} // verus!
