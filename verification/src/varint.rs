//! The variable-width integer encoding used by the compact line tables.
//!
//! Each byte contributes its low six bits to the value, least significant
//! chunk first; bit 6 set on a byte means another byte follows. A signed
//! value is carried as an unsigned one whose low bit is the sign flag: odd
//! means "negate the value shifted right by one".

use vstd::prelude::*;

verus! {

/// Longest varint accepted, in bytes. Ten six-bit chunks keep every value
/// below 2^60, so the running total never overflows a 64-bit word.
pub const VARINT_MAX_BYTES: usize = 10;

/// Index of the final byte of the varint starting at `i`: the first byte at
/// or after `i` whose continuation bit is clear; `-1` if the table ends
/// before the varint does.
pub open spec fn varint_last(t: Seq<u8>, i: int) -> int
    decreases t.len() - i,
{
    if i < 0 || i >= t.len() {
        -1
    } else if t[i] & 64 == 0 {
        i
    } else {
        varint_last(t, i + 1)
    }
}

/// A varint is well formed at `i` when it terminates inside the table and
/// spans at most [`VARINT_MAX_BYTES`] bytes.
pub open spec fn varint_wf(t: Seq<u8>, i: int) -> bool {
    &&& 0 <= i
    &&& i <= varint_last(t, i)
    &&& varint_last(t, i) + 1 - i <= VARINT_MAX_BYTES
}

/// Unsigned value of the varint starting at `i`: six bits per byte,
/// least significant chunk first.
pub open spec fn varint_val(t: Seq<u8>, i: int) -> nat
    decreases t.len() - i,
{
    if i < 0 || i >= t.len() {
        0
    } else if t[i] & 64 == 0 {
        (t[i] & 63) as nat
    } else {
        ((t[i] & 63) as nat) + varint_val(t, i + 1) * 64
    }
}

/// Signed reading of the varint starting at `i`: the low bit of the unsigned
/// value flags a negative number, the remaining bits are its magnitude.
pub open spec fn signed_varint_val(t: Seq<u8>, i: int) -> int {
    let u = varint_val(t, i);
    if u % 2 == 1 {
        -((u / 2) as int)
    } else {
        (u / 2) as int
    }
}

/// 64 raised to `k`: the weight of the `k`-th six-bit chunk.
pub open spec fn pow64(k: nat) -> nat
    decreases k,
{
    if k == 0 {
        1
    } else {
        64 * pow64((k - 1) as nat)
    }
}

pub proof fn lemma_pow64_values()
    ensures
        pow64(6) == 0x1000000000,
        pow64(10) == 0x1000000000000000,
{
    assert(pow64(0) == 1);
    assert(pow64(1) == 64);
    assert(pow64(2) == 0x1000);
    assert(pow64(3) == 0x40000);
    assert(pow64(4) == 0x1000000);
    assert(pow64(5) == 0x40000000);
    assert(pow64(6) == 0x1000000000);
    assert(pow64(7) == 0x40000000000);
    assert(pow64(8) == 0x1000000000000);
    assert(pow64(9) == 0x40000000000000);
    assert(pow64(10) == 0x1000000000000000);
}

pub proof fn lemma_pow64_increases(a: nat, b: nat)
    requires
        a <= b,
    ensures
        pow64(a) <= pow64(b),
    decreases b,
{
    if a < b {
        lemma_pow64_increases(a, (b - 1) as nat);
    }
}

/// The terminator of a varint, when it exists, lies at or after the varint's
/// first byte and inside the table.
pub proof fn lemma_varint_last_bounds(t: Seq<u8>, i: int)
    ensures
        varint_last(t, i) == -1 || (i <= varint_last(t, i) < t.len()),
    decreases t.len() - i,
{
    if 0 <= i < t.len() && t[i] & 64 != 0 {
        lemma_varint_last_bounds(t, i + 1);
    }
}

/// A varint of `n` bytes has a value below `64^n`.
pub proof fn lemma_varint_val_bound(t: Seq<u8>, i: int)
    requires
        0 <= i <= varint_last(t, i),
    ensures
        varint_val(t, i) < pow64((varint_last(t, i) + 1 - i) as nat),
    decreases t.len() - i,
{
    lemma_varint_last_bounds(t, i);
    let b = t[i];
    assert(b & 63 < 64) by (bit_vector);
    assert(pow64(0) == 1);
    assert(pow64(1) == 64);
    if b & 64 == 0 {
        assert(varint_last(t, i) == i);
        assert(varint_val(t, i) == (b & 63) as nat);
    }
    if b & 64 != 0 {
        lemma_varint_last_bounds(t, i + 1);
        assert(varint_last(t, i) == varint_last(t, i + 1));
        lemma_varint_val_bound(t, i + 1);
        let l2 = (varint_last(t, i + 1) + 1 - (i + 1)) as nat;
        assert(pow64(l2 + 1) == 64 * pow64(l2));
        assert(varint_val(t, i) == ((b & 63) as nat) + varint_val(t, i + 1) * 64);
        assert(varint_val(t, i + 1) * 64 <= (pow64(l2) - 1) * 64);
        assert((varint_last(t, i) + 1 - i) as nat == l2 + 1);
    }
}

/// Reports whether a well-formed varint starts at `index`: terminated inside
/// the table and no longer than [`VARINT_MAX_BYTES`].
pub fn varint_fits(table: &[u8], index: usize) -> (b: bool)
    ensures
        b == varint_wf(table@, index as int),
{
    let ghost t = table@;
    let mut j = index;
    while j < table.len() && j - index < VARINT_MAX_BYTES
        invariant
            index <= j,
            j - index <= VARINT_MAX_BYTES,
            t == table@,
            varint_last(t, index as int) == varint_last(t, j as int),
        decreases index + VARINT_MAX_BYTES - j,
    {
        if table[j] & 64 == 0 {
            assert(varint_last(t, j as int) == j);
            return true;
        }
        j = j + 1;
    }
    proof {
        lemma_varint_last_bounds(t, j as int);
    }
    false
}

/// Reads the varint starting at `*index` and advances `*index` past it.
pub fn read_varint(index: &mut usize, table: &[u8]) -> (r: u64)
    requires
        varint_wf(table@, *old(index) as int),
    ensures
        r == varint_val(table@, *old(index) as int),
        *final(index) == varint_last(table@, *old(index) as int) + 1,
        r < pow64((varint_last(table@, *old(index) as int) + 1 - *old(index)) as nat),
    decreases table@.len() - *old(index),
{
    proof {
        lemma_varint_last_bounds(table@, *index as int);
        lemma_varint_val_bound(table@, *index as int);
        lemma_pow64_values();
        lemma_pow64_increases(
            (varint_last(table@, *index as int) + 1 - *index) as nat,
            VARINT_MAX_BYTES as nat,
        );
    }
    let byte = table[*index];
    let low = (byte & 63) as u64;
    if byte & 64 != 0 {
        proof {
            lemma_varint_last_bounds(table@, *index as int + 1);
        }
        *index = *index + 1;
        let rest = read_varint(index, table);
        low + rest * 64
    } else {
        *index = *index + 1;
        low
    }
}

/// Reads the varint starting at `*index` with the sign-flag convention and
/// advances `*index` past it.
pub fn read_signed_varint(index: &mut usize, table: &[u8]) -> (r: i64)
    requires
        varint_wf(table@, *old(index) as int),
    ensures
        r == signed_varint_val(table@, *old(index) as int),
        *final(index) == varint_last(table@, *old(index) as int) + 1,
        -0x800_0000_0000_0000 < r < 0x800_0000_0000_0000,
    decreases table@.len() - *old(index),
{
    proof {
        lemma_pow64_values();
        lemma_pow64_increases(
            (varint_last(table@, *index as int) + 1 - *index) as nat,
            VARINT_MAX_BYTES as nat,
        );
    }
    let unsigned_val = read_varint(index, table);
    assert(unsigned_val & 1 == unsigned_val % 2) by (bit_vector);
    assert(unsigned_val >> 1 == unsigned_val / 2) by (bit_vector);
    if unsigned_val & 1 != 0 {
        -((unsigned_val >> 1) as i64)
    } else {
        (unsigned_val >> 1) as i64
    }
}

/// The byte sequence that carries `v` in the six-bit-chunk encoding.
pub open spec fn varint_encoding(v: nat) -> Seq<u8>
    decreases v,
{
    if v < 64 {
        seq![v as u8]
    } else {
        seq![(64 + v % 64) as u8] + varint_encoding(v / 64)
    }
}

/// The byte sequence that carries `v` with the sign-flag convention.
pub open spec fn signed_varint_encoding(v: int) -> Seq<u8> {
    if v < 0 {
        varint_encoding((2 * -v + 1) as nat)
    } else {
        varint_encoding((2 * v) as nat)
    }
}

/// Encodes `v` in the six-bit-chunk encoding.
pub fn encode_varint(v: u64) -> (r: Vec<u8>)
    ensures
        r@ == varint_encoding(v as nat),
    decreases v,
{
    let mut out: Vec<u8> = Vec::new();
    if v < 64 {
        out.push(v as u8);
    } else {
        out.push(64 + (v % 64) as u8);
        let mut rest = encode_varint(v / 64);
        out.append(&mut rest);
    }
    proof {
        assert(out@ =~= varint_encoding(v as nat));
    }
    out
}

/// Encodes `v` with the sign-flag convention.
pub fn encode_signed_varint(v: i64) -> (r: Vec<u8>)
    requires
        v > i64::MIN,
    ensures
        r@ == signed_varint_encoding(v as int),
{
    if v < 0 {
        let magnitude = (-v) as u64;
        encode_varint(2 * magnitude + 1)
    } else {
        encode_varint(2 * (v as u64))
    }
}

/// Any value below `64^k` encodes in at most `k` bytes.
pub proof fn lemma_varint_encoding_len(v: nat, k: nat)
    requires
        1 <= k,
        v < pow64(k),
    ensures
        varint_encoding(v).len() <= k,
    decreases k,
{
    if v >= 64 {
        assert(v / 64 < pow64((k - 1) as nat));
        lemma_varint_encoding_len(v / 64, (k - 1) as nat);
    }
}

/// Decoding recovers exactly the value that was encoded, wherever the
/// encoding sits inside a larger table.
pub proof fn lemma_varint_round_trip(t: Seq<u8>, i: int, v: nat)
    requires
        0 <= i,
        i + varint_encoding(v).len() <= t.len(),
        t.subrange(i, i + varint_encoding(v).len() as int) == varint_encoding(v),
    ensures
        varint_last(t, i) == i + varint_encoding(v).len() - 1,
        varint_val(t, i) == v,
    decreases v,
{
    let e = varint_encoding(v);
    assert(t[i] == t.subrange(i, i + e.len() as int)[0]);
    if v < 64 {
        let b = t[i];
        assert(b == v as u8);
        assert((v as u8) as nat == v);
        assert(b < 64 ==> (b & 64 == 0 && b & 63 == b)) by (bit_vector);
    } else {
        let b = t[i];
        let m = (v % 64) as u8;
        assert(b == (64 + v % 64) as u8);
        assert(b == 64 + m);
        assert(b & 64 != 0 && b & 63 == m) by (bit_vector)
            requires
                b == 64 + m,
                m < 64,
        ;
        let e2 = varint_encoding(v / 64);
        assert forall|j: int| 0 <= j < e2.len() implies t.subrange(
            i + 1,
            i + 1 + e2.len() as int,
        )[j] == e2[j] by {
            assert(t.subrange(i, i + e.len() as int)[j + 1] == e[j + 1]);
        }
        assert(t.subrange(i + 1, i + 1 + e2.len() as int) =~= e2);
        lemma_varint_round_trip(t, i + 1, v / 64);
        assert(varint_val(t, i) == (v % 64) + (v / 64) * 64);
        assert(v == 64 * (v / 64) + v % 64) by (nonlinear_arith);
    }
}

/// Encoding then decoding any value in `[-2^30, 2^30)` with the sign-flag
/// scheme returns the original value, and the encoding is well formed.
pub proof fn lemma_signed_varint_round_trip(v: int)
    requires
        -0x4000_0000 <= v < 0x4000_0000,
    ensures
        varint_wf(signed_varint_encoding(v), 0),
        signed_varint_val(signed_varint_encoding(v), 0) == v,
{
    let u: nat = if v < 0 {
        (2 * -v + 1) as nat
    } else {
        (2 * v) as nat
    };
    let e = varint_encoding(u);
    assert(signed_varint_encoding(v) == e);
    lemma_pow64_values();
    lemma_varint_encoding_len(u, 6);
    assert(e.subrange(0, e.len() as int) =~= e);
    lemma_varint_round_trip(e, 0, u);
    if v < 0 {
        assert(u % 2 == 1 && u / 2 == -v) by (nonlinear_arith)
            requires
                u == 2 * -v + 1,
                v < 0,
        ;
    } else {
        assert(u % 2 == 0 && u / 2 == v) by (nonlinear_arith)
            requires
                u == 2 * v,
                v >= 0,
        ;
    }
}

} // verus!
