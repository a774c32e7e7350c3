//! A cursor that reads bit fields, most significant bit first, out of a byte buffer.
use crate::NmeaError;
use vstd::arithmetic::power2::{
    lemma2_to64, lemma_pow2_adds, lemma_pow2_strictly_increases, lemma_pow2_unfold, pow2,
};
use vstd::bits::lemma_u32_shr_is_div;
use vstd::prelude::*;

verus! {

/// Bit `i` of `data`, counting from the most significant bit of byte 0.
pub open spec fn bit_at(data: Seq<u8>, i: int) -> nat {
    (data[i / 8] as nat / pow2((7 - i % 8) as nat)) % 2
}

/// The `n` bits of `data` from bit `start` on, read as an unsigned number,
/// the first bit read being the most significant.
pub open spec fn bits_value(data: Seq<u8>, start: int, n: nat) -> nat
    decreases n,
{
    if n == 0 {
        0
    } else {
        2 * bits_value(data, start, (n - 1) as nat) + bit_at(data, start + n - 1)
    }
}

/// `k` whole bytes read from bit `start` on, the first byte read being the least significant.
pub open spec fn le_value(data: Seq<u8>, start: int, k: nat) -> nat
    decreases k,
{
    if k == 0 {
        0
    } else {
        bits_value(data, start, 8) + 256 * le_value(data, start + 8, (k - 1) as nat)
    }
}

/// The value of an `n`-bit field at bit `start`: fields of whole bytes are sent
/// with their bytes in little-endian order, narrower fields as they stand.
pub open spec fn field_value(data: Seq<u8>, start: int, n: nat) -> nat {
    if n % 8 == 0 {
        le_value(data, start, n / 8)
    } else {
        bits_value(data, start, n)
    }
}

/// The two's-complement reading of an `n`-bit unsigned value.
pub open spec fn signed_value(v: nat, n: nat) -> int {
    if v >= pow2((n - 1) as nat) {
        v - pow2(n)
    } else {
        v as int
    }
}

/// A read position in a byte buffer, in bits from its start.
pub struct BitReader<'a> {
    pub data: &'a [u8],
    pub pos: usize,
}

impl<'a> BitReader<'a> {
    /// A cursor at the first bit of `data`.
    pub fn new(data: &'a [u8]) -> (r: BitReader<'a>)
        ensures
            r.data@ == data@,
            r.pos == 0,
    {
        BitReader { data, pos: 0 }
    }
}

impl<'a> BitReader<'a> {
    /// Whether `n` more bits can be read.
    pub open spec fn has_bits(&self, n: nat) -> bool {
        self.pos + n <= 8 * self.data@.len()
    }

    /// The next `n` bits as an unsigned field (see `field_value`); fails with
    /// `ParseError`, reading nothing, when fewer than `n` bits are left.
    pub fn take_bits(&mut self, n: usize) -> (r: Result<u32, NmeaError>)
        requires
            1 <= n <= 32,
            old(self).pos + 32 <= usize::MAX,
        ensures
            final(self).data == old(self).data,
            match r {
                Ok(v) => {
                    &&& old(self).has_bits(n as nat)
                    &&& v == field_value(old(self).data@, old(self).pos as int, n as nat)
                    &&& v < pow2(n as nat)
                    &&& final(self).pos == old(self).pos + n
                },
                Err(e) => {
                    &&& !old(self).has_bits(n as nat)
                    &&& e == NmeaError::ParseError
                    &&& final(self).pos == old(self).pos
                },
            },
    {
        let end = self.pos + n;
        if end / 8 > self.data.len() || (end / 8 == self.data.len() && end % 8 != 0) {
            return Err(NmeaError::ParseError);
        }
        let v = if n % 8 == 0 {
            read_le(self.data, self.pos, n / 8)
        } else {
            read_bits(self.data, self.pos, n)
        };
        self.pos = end;
        Ok(v)
    }

    /// The next `n` bits as a two's-complement field; fails as `take_bits` does.
    pub fn take_signed_bits(&mut self, n: usize) -> (r: Result<i32, NmeaError>)
        requires
            1 <= n <= 32,
            old(self).pos + 32 <= usize::MAX,
        ensures
            final(self).data == old(self).data,
            match r {
                Ok(v) => {
                    &&& old(self).has_bits(n as nat)
                    &&& v == signed_value(
                        field_value(old(self).data@, old(self).pos as int, n as nat),
                        n as nat,
                    )
                    &&& -pow2((n - 1) as nat) <= v < pow2((n - 1) as nat)
                    &&& final(self).pos == old(self).pos + n
                },
                Err(e) => {
                    &&& !old(self).has_bits(n as nat)
                    &&& e == NmeaError::ParseError
                    &&& final(self).pos == old(self).pos
                },
            },
    {
        let u = self.take_bits(n)?;
        let half = pow2_of(n - 1);
        let full = pow2_of(n);
        proof {
            lemma2_to64();
            lemma_pow2_unfold(n as nat);
            if n < 32 {
                lemma_pow2_strictly_increases((n - 1) as nat, 31);
            }
        }
        if u as u64 >= half {
            Ok((u as i64 - full as i64) as i32)
        } else {
            Ok(u as i32)
        }
    }
}

/// The `n`-bit field at the reader's position.
pub open spec fn field_at(rd: BitReader, n: nat) -> nat {
    field_value(rd.data@, rd.pos as int, n)
}

/// How a read of `n` bits moves the cursor: on by `n` when it succeeds, not at all when
/// too few bits were left.
pub open spec fn advanced(before: BitReader, after: BitReader, n: nat, ok: bool) -> bool {
    &&& after.data == before.data
    &&& ok == before.has_bits(n)
    &&& after.pos == (if ok { before.pos + n } else { before.pos as int })
}

/// The next 32 bits as a signed field, bytes least significant first.
pub fn take_i32(i: &mut BitReader) -> (r: Result<i32, NmeaError>)
    requires
        old(i).pos + 32 <= usize::MAX,
    ensures
        advanced(*old(i), *final(i), 32, r is Ok),
        r is Ok ==> r->Ok_0 == signed_value(field_at(*old(i), 32), 32),
        r is Err ==> r->Err_0 == NmeaError::ParseError,
{
    let v = i.take_signed_bits(32)?;
    Ok(v)
}

/// The next 16 bits as a signed field, bytes least significant first.
pub fn take_i16(i: &mut BitReader) -> (r: Result<i16, NmeaError>)
    requires
        old(i).pos + 32 <= usize::MAX,
    ensures
        advanced(*old(i), *final(i), 16, r is Ok),
        r is Ok ==> r->Ok_0 == signed_value(field_at(*old(i), 16), 16),
        r is Err ==> r->Err_0 == NmeaError::ParseError,
{
    let v = i.take_signed_bits(16)?;
    proof {
        lemma2_to64();
        lemma_pow2_unfold(16);
    }
    Ok(v as i16)
}

/// The next 32 bits as an unsigned field, bytes least significant first.
pub fn take_u32(i: &mut BitReader) -> (r: Result<u32, NmeaError>)
    requires
        old(i).pos + 32 <= usize::MAX,
    ensures
        advanced(*old(i), *final(i), 32, r is Ok),
        r is Ok ==> r->Ok_0 == field_at(*old(i), 32),
        r is Err ==> r->Err_0 == NmeaError::ParseError,
{
    let v = i.take_bits(32)?;
    Ok(v)
}

/// The next 16 bits as an unsigned field, bytes least significant first.
pub fn take_u16(i: &mut BitReader) -> (r: Result<u16, NmeaError>)
    requires
        old(i).pos + 32 <= usize::MAX,
    ensures
        advanced(*old(i), *final(i), 16, r is Ok),
        r is Ok ==> r->Ok_0 == field_at(*old(i), 16),
        r is Err ==> r->Err_0 == NmeaError::ParseError,
{
    let v = i.take_bits(16)?;
    proof {
        lemma2_to64();
    }
    Ok(v as u16)
}

/// The next 8 bits.
pub fn take_byte(i: &mut BitReader) -> (r: Result<u8, NmeaError>)
    requires
        old(i).pos + 32 <= usize::MAX,
    ensures
        advanced(*old(i), *final(i), 8, r is Ok),
        r is Ok ==> r->Ok_0 == field_at(*old(i), 8),
        r is Err ==> r->Err_0 == NmeaError::ParseError,
{
    let v = i.take_bits(8)?;
    proof {
        lemma2_to64();
    }
    Ok(v as u8)
}

/// The next 4 bits.
pub fn take_nibble(i: &mut BitReader) -> (r: Result<u8, NmeaError>)
    requires
        old(i).pos + 32 <= usize::MAX,
    ensures
        advanced(*old(i), *final(i), 4, r is Ok),
        r is Ok ==> r->Ok_0 == field_at(*old(i), 4),
        r is Err ==> r->Err_0 == NmeaError::ParseError,
{
    let v = i.take_bits(4)?;
    proof {
        lemma2_to64();
    }
    Ok(v as u8)
}

/// The next 2 bits.
pub fn take_two_bits(i: &mut BitReader) -> (r: Result<u8, NmeaError>)
    requires
        old(i).pos + 32 <= usize::MAX,
    ensures
        advanced(*old(i), *final(i), 2, r is Ok),
        r is Ok ==> r->Ok_0 == field_at(*old(i), 2),
        r is Err ==> r->Err_0 == NmeaError::ParseError,
{
    let v = i.take_bits(2)?;
    proof {
        lemma2_to64();
    }
    Ok(v as u8)
}

/// The next 5 bits.
pub fn take_five_bits(i: &mut BitReader) -> (r: Result<u8, NmeaError>)
    requires
        old(i).pos + 32 <= usize::MAX,
    ensures
        advanced(*old(i), *final(i), 5, r is Ok),
        r is Ok ==> r->Ok_0 == field_at(*old(i), 5),
        r is Err ==> r->Err_0 == NmeaError::ParseError,
{
    let v = i.take_bits(5)?;
    proof {
        lemma2_to64();
    }
    Ok(v as u8)
}

/// The next 3 bits.
pub fn take_three_bits(i: &mut BitReader) -> (r: Result<u8, NmeaError>)
    requires
        old(i).pos + 32 <= usize::MAX,
    ensures
        advanced(*old(i), *final(i), 3, r is Ok),
        r is Ok ==> r->Ok_0 == field_at(*old(i), 3),
        r is Err ==> r->Err_0 == NmeaError::ParseError,
{
    let v = i.take_bits(3)?;
    proof {
        lemma2_to64();
    }
    Ok(v as u8)
}

/// The next bit, set or not.
pub fn take_bit(i: &mut BitReader) -> (r: Result<bool, NmeaError>)
    requires
        old(i).pos + 32 <= usize::MAX,
    ensures
        advanced(*old(i), *final(i), 1, r is Ok),
        r is Ok ==> r->Ok_0 == (field_at(*old(i), 1) == 1),
        r is Err ==> r->Err_0 == NmeaError::ParseError,
{
    let v = i.take_bits(1)?;
    Ok(v == 1)
}

/// The eight bits of byte `j` read as a field are that byte.
pub proof fn lemma_aligned_byte(data: Seq<u8>, j: int)
    requires
        0 <= j < data.len(),
    ensures
        bits_value(data, 8 * j, 8) == data[j],
{
    let x = data[j];
    lemma2_to64();
    reveal_with_fuel(bits_value, 9);
    assert(8 * j / 8 == j && (8 * j + 1) / 8 == j && (8 * j + 2) / 8 == j && (8 * j + 3) / 8 == j
        && (8 * j + 4) / 8 == j && (8 * j + 5) / 8 == j && (8 * j + 6) / 8 == j && (8 * j + 7) / 8
        == j);
    assert(8 * j % 8 == 0 && (8 * j + 1) % 8 == 1 && (8 * j + 2) % 8 == 2 && (8 * j + 3) % 8 == 3
        && (8 * j + 4) % 8 == 4 && (8 * j + 5) % 8 == 5 && (8 * j + 6) % 8 == 6 && (8 * j + 7) % 8
        == 7);
    assert(x == ((((((((x / 128) % 2) * 2 + (x / 64) % 2) * 2 + (x / 32) % 2) * 2 + (x / 16) % 2)
        * 2 + (x / 8) % 2) * 2 + (x / 4) % 2) * 2 + (x / 2) % 2) * 2 + x % 2) by (bit_vector);
    assert(bit_at(data, 8 * j) == (x / 128) % 2);
    assert(bit_at(data, 8 * j + 1) == (x / 64) % 2);
    assert(bit_at(data, 8 * j + 2) == (x / 32) % 2);
    assert(bit_at(data, 8 * j + 3) == (x / 16) % 2);
    assert(bit_at(data, 8 * j + 4) == (x / 8) % 2);
    assert(bit_at(data, 8 * j + 5) == (x / 4) % 2);
    assert(bit_at(data, 8 * j + 6) == (x / 2) % 2);
    assert(pow2(0) == 1 && x as nat / 1 == x);
    assert(bit_at(data, 8 * j + 7) == x % 2);
}

/// A field of whole bytes that starts at byte `j` is those bytes, least significant first.
pub proof fn lemma_aligned_le(data: Seq<u8>, j: int, k: nat)
    requires
        0 <= j,
        j + k <= data.len(),
    ensures
        le_value(data, 8 * j, k) == (if k == 0 {
            0
        } else {
            data[j] + 256 * le_value(data, 8 * (j + 1), (k - 1) as nat)
        }),
{
    if k > 0 {
        lemma_aligned_byte(data, j);
        assert(8 * j + 8 == 8 * (j + 1));
    }
}

/// A field within the first `len` bytes reads the same in two buffers that share them.
pub proof fn lemma_fields_agree(a: Seq<u8>, b: Seq<u8>, len: int, s: int, n: nat)
    requires
        a.len() >= len,
        b.len() >= len,
        a.subrange(0, len) == b.subrange(0, len),
        0 <= s,
        s + n <= 8 * len,
    ensures
        field_value(a, s, n) == field_value(b, s, n),
{
    if n % 8 == 0 {
        lemma_le_agree(a, b, len, s, n / 8);
    } else {
        lemma_bits_agree(a, b, len, s, n);
    }
}

proof fn lemma_bits_agree(a: Seq<u8>, b: Seq<u8>, len: int, s: int, n: nat)
    requires
        a.len() >= len,
        b.len() >= len,
        a.subrange(0, len) == b.subrange(0, len),
        0 <= s,
        s + n <= 8 * len,
    ensures
        bits_value(a, s, n) == bits_value(b, s, n),
    decreases n,
{
    if n > 0 {
        lemma_bits_agree(a, b, len, s, (n - 1) as nat);
        let i = s + n - 1;
        assert(a[i / 8] == a.subrange(0, len)[i / 8]);
        assert(b[i / 8] == b.subrange(0, len)[i / 8]);
    }
}

proof fn lemma_le_agree(a: Seq<u8>, b: Seq<u8>, len: int, s: int, k: nat)
    requires
        a.len() >= len,
        b.len() >= len,
        a.subrange(0, len) == b.subrange(0, len),
        0 <= s,
        s + 8 * k <= 8 * len,
    ensures
        le_value(a, s, k) == le_value(b, s, k),
    decreases k,
{
    if k > 0 {
        lemma_bits_agree(a, b, len, s, 8);
        lemma_le_agree(a, b, len, s + 8, (k - 1) as nat);
    }
}

/// `2^k`, for `k` up to 32.
fn pow2_of(k: usize) -> (r: u64)
    requires
        k <= 32,
    ensures
        r == pow2(k as nat),
{
    let mut r: u64 = 1;
    let mut i: usize = 0;
    proof {
        lemma2_to64();
    }
    while i < k
        invariant
            i <= k <= 32,
            r == pow2(i as nat),
        decreases k - i,
    {
        proof {
            lemma2_to64();
            lemma_pow2_unfold((i + 1) as nat);
            lemma_pow2_strictly_increases((i + 1) as nat, 33);
        }
        r = r * 2;
        i = i + 1;
    }
    r
}

/// The `n` bits of `data` from bit `start` on, most significant first.
fn read_bits(data: &[u8], start: usize, n: usize) -> (r: u32)
    requires
        n <= 32,
        start + n <= 8 * data@.len(),
        start + n <= usize::MAX,
    ensures
        r == bits_value(data@, start as int, n as nat),
        r < pow2(n as nat),
{
    let mut v: u64 = 0;
    let mut k: usize = 0;
    proof {
        lemma2_to64();
    }
    while k < n
        invariant
            k <= n <= 32,
            start + n <= 8 * data@.len(),
            start + n <= usize::MAX,
            v == bits_value(data@, start as int, k as nat),
            v < pow2(k as nat),
        decreases n - k,
    {
        proof {
            lemma2_to64();
            if k < 32 {
                lemma_pow2_strictly_increases(k as nat, 32);
            }
        }
        let i = start + k;
        let byte = data[i / 8] as u32;
        let shift = (7 - i % 8) as u32;
        let bit = (byte >> shift) % 2;
        proof {
            lemma_u32_shr_is_div(byte, shift);
            lemma_pow2_unfold((k + 1) as nat);
            lemma_pow2_strictly_increases((k + 1) as nat, 33);
            assert(bits_value(data@, start as int, (k + 1) as nat) == 2 * bits_value(
                data@,
                start as int,
                k as nat,
            ) + bit_at(data@, start + k));
        }
        v = v * 2 + bit as u64;
        k = k + 1;
    }
    proof {
        if n < 32 {
            lemma_pow2_strictly_increases(n as nat, 32);
        }
    }
    v as u32
}

/// `k` whole bytes from bit `start` on, the first byte read being the least significant.
fn read_le(data: &[u8], start: usize, k: usize) -> (r: u32)
    requires
        1 <= k <= 4,
        start + 8 * k <= 8 * data@.len(),
        start + 8 * k <= usize::MAX,
    ensures
        r == le_value(data@, start as int, k as nat),
        r < pow2(8 * k as nat),
{
    let mut v: u64 = 0;
    let mut j: usize = k;
    proof {
        lemma2_to64();
    }
    while j > 0
        invariant
            j <= k <= 4,
            start + 8 * k <= 8 * data@.len(),
            start + 8 * k <= usize::MAX,
            v == le_value(data@, start + 8 * j, (k - j) as nat),
            v < pow2((8 * (k - j)) as nat),
        decreases j,
    {
        j = j - 1;
        let b = read_bits(data, start + 8 * j, 8);
        proof {
            lemma2_to64();
            if 8 * (k - j - 1) < 24 {
                lemma_pow2_strictly_increases((8 * (k - j - 1)) as nat, 24);
            }
            lemma_pow2_adds((8 * (k - j - 1)) as nat, 8);
            lemma_pow2_strictly_increases((8 * (k - j)) as nat, 33);
            assert(le_value(data@, start + 8 * j, (k - j) as nat) == bits_value(
                data@,
                start + 8 * j,
                8,
            ) + 256 * le_value(data@, start + 8 * j + 8, (k - j - 1) as nat));
        }
        v = b as u64 + 256 * v;
    }
    proof {
        if k < 4 {
            lemma_pow2_strictly_increases((8 * k) as nat, 32);
        }
    }
    v as u32
}

} // verus!
