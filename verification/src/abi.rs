//! The argument codec: decoding of ABI-encoded primitives from a call's
//! argument buffer, and encoding of the one value the bridge returns.
//!
//! The wire format is the fixed EVM-style ABI: every static argument is a
//! 32-byte big-endian word; an unsigned integer of width `w` bytes must fit
//! its declared width; an address occupies the low 20 bytes of its word; a
//! dynamic byte string is reached through an offset word and consists of a
//! length word followed by the data. Decoding is pure, rejects malformed or
//! truncated buffers deterministically, and scopes every failure to the
//! field being read.

use vstd::prelude::*;

use crate::domain::EvmAddress;
use crate::revert::{Field, Revert};

verus! {

/// The maximum length a dynamic byte-string argument may declare.
pub const MAX_BYTES_LEN: u64 = 65536;

/// `256^e`: the number of values a big-endian byte string of length `e`
/// can take.
pub open spec fn pow256(e: nat) -> nat
    decreases e,
{
    if e == 0 {
        1
    } else {
        256 * pow256((e - 1) as nat)
    }
}

/// The value of a byte string read as a big-endian unsigned integer.
pub open spec fn be_val(s: Seq<u8>) -> nat
    decreases s.len(),
{
    if s.len() == 0 {
        0
    } else {
        (be_val(s.drop_last()) * 256 + s.last()) as nat
    }
}

/// The 32-byte word starting at `off`.
pub open spec fn word_at(s: Seq<u8>, off: int) -> Seq<u8> {
    s.subrange(off, off + 32)
}

pub proof fn lemma_pow256_pos(e: nat)
    ensures
        pow256(e) >= 1,
    decreases e,
{
    if e > 0 {
        lemma_pow256_pos((e - 1) as nat);
    }
}

pub proof fn lemma_pow256_mono(a: nat, b: nat)
    requires
        a <= b,
    ensures
        pow256(a) <= pow256(b),
    decreases b,
{
    if a < b {
        lemma_pow256_mono(a, (b - 1) as nat);
        lemma_pow256_pos((b - 1) as nat);
    }
}

/// The concrete word sizes the codec works with.
pub proof fn lemma_pow256_values()
    ensures
        pow256(1) == 0x100,
        pow256(2) == 0x10000,
        pow256(4) == 0x1_0000_0000,
        pow256(8) == 0x1_0000_0000_0000_0000,
        pow256(16) == 0x1_0000_0000_0000_0000_0000_0000_0000_0000,
{
    assert(pow256(0) == 1);
    assert(pow256(1) == 0x100);
    assert(pow256(2) == 0x10000);
    assert(pow256(3) == 0x100_0000);
    assert(pow256(4) == 0x1_0000_0000);
    assert(pow256(5) == 0x100_0000_0000);
    assert(pow256(6) == 0x1_0000_0000_0000);
    assert(pow256(7) == 0x100_0000_0000_0000);
    assert(pow256(8) == 0x1_0000_0000_0000_0000);
    assert(pow256(9) == 0x100_0000_0000_0000_0000);
    assert(pow256(10) == 0x1_0000_0000_0000_0000_0000);
    assert(pow256(11) == 0x100_0000_0000_0000_0000_0000);
    assert(pow256(12) == 0x1_0000_0000_0000_0000_0000_0000);
    assert(pow256(13) == 0x100_0000_0000_0000_0000_0000_0000);
    assert(pow256(14) == 0x1_0000_0000_0000_0000_0000_0000_0000);
    assert(pow256(15) == 0x100_0000_0000_0000_0000_0000_0000_0000);
    assert(pow256(16) == 0x1_0000_0000_0000_0000_0000_0000_0000_0000);
}

/// A byte string's value is bounded by the size of its domain.
pub proof fn lemma_be_val_bound(s: Seq<u8>)
    ensures
        be_val(s) < pow256(s.len()),
    decreases s.len(),
{
    if s.len() > 0 {
        lemma_be_val_bound(s.drop_last());
    }
}

/// Big-endian reading splits over concatenation.
pub proof fn lemma_be_val_append(a: Seq<u8>, b: Seq<u8>)
    ensures
        be_val(a + b) == be_val(a) * pow256(b.len()) + be_val(b),
    decreases b.len(),
{
    if b.len() == 0 {
        assert(a + b =~= a);
        assert(pow256(0) == 1);
    } else {
        let b0 = b.drop_last();
        lemma_be_val_append(a, b0);
        assert((a + b).drop_last() =~= a + b0);
        assert((a + b).last() == b.last());
        assert(be_val(a + b) == be_val(a + b0) * 256 + b.last());
        assert(pow256(b.len()) == 256 * pow256(b0.len()));
        assert((be_val(a) * pow256(b0.len()) + be_val(b0)) * 256 == be_val(a) * (256 * pow256(
            b0.len(),
        )) + be_val(b0) * 256) by (nonlinear_arith);
        assert(be_val(b) == be_val(b0) * 256 + b.last());
    }
}

/// A byte string reads as zero exactly when every byte is zero.
pub proof fn lemma_be_val_zero(s: Seq<u8>)
    ensures
        (be_val(s) == 0) <==> (forall|i: int| 0 <= i < s.len() ==> s[i] == 0),
    decreases s.len(),
{
    if s.len() > 0 {
        lemma_be_val_zero(s.drop_last());
        if be_val(s) == 0 {
            assert(forall|i: int|
                0 <= i < s.len() ==> s[i] == (if i < s.len() - 1 {
                    s.drop_last()[i]
                } else {
                    s.last()
                }));
        } else {
            if forall|i: int| 0 <= i < s.len() ==> s[i] == 0 {
                assert(forall|i: int| 0 <= i < s.len() - 1 ==> s.drop_last()[i] == s[i]);
                assert(be_val(s.drop_last()) == 0);
                assert(s.last() == s[s.len() - 1]);
            }
        }
    }
}

/// Assembles the big-endian value of `width` bytes starting at `off`.
fn be_bytes_value(input: &Vec<u8>, off: usize, width: usize) -> (v: u128)
    requires
        off + width <= input@.len(),
        width <= 16,
    ensures
        v == be_val(input@.subrange(off as int, off + width)),
{
    let n = input.len();
    let mut v: u128 = 0;
    let mut k: usize = 0;
    while k < width
        invariant
            n == input@.len(),
            off + width <= n,
            width <= 16,
            k <= width,
            v == be_val(input@.subrange(off as int, off + k)),
        decreases width - k,
    {
        proof {
            let cur = input@.subrange(off as int, off + k);
            let nxt = input@.subrange(off as int, off + k + 1);
            assert(nxt.drop_last() =~= cur);
            assert(nxt.last() == input@[off + k]);
            lemma_be_val_bound(cur);
            assert(pow256((k + 1) as nat) == 256 * pow256(k as nat));
            lemma_pow256_mono((k + 1) as nat, 16);
            lemma_pow256_values();
            assert(v * 256 + 255 < pow256((k + 1) as nat));
        }
        v = v * 256 + (input[off + k] as u128);
        k += 1;
    }
    proof {
        assert(input@.subrange(off as int, off + width) =~= input@.subrange(
            off as int,
            off + k,
        ));
    }
    v
}

/// Reads the 32-byte word at `off` as an unsigned value, if it fits 128
/// bits; reports a value at or above `2^128` as `None`.
fn word_u128(input: &Vec<u8>, off: usize) -> (r: Option<u128>)
    requires
        off + 32 <= input@.len(),
    ensures
        r matches Some(v) ==> v == be_val(word_at(input@, off as int)),
        (r is Some) <==> be_val(word_at(input@, off as int)) <= u128::MAX,
{
    let n = input.len();
    let ghost w = word_at(input@, off as int);
    let ghost hi = input@.subrange(off as int, off + 16);
    let ghost lo = input@.subrange(off + 16, off + 32);
    let mut i: usize = 0;
    while i < 16
        invariant
            n == input@.len(),
            off + 32 <= n,
            i <= 16,
            hi == input@.subrange(off as int, off + 16),
            lo == input@.subrange(off + 16, off + 32),
            w == word_at(input@, off as int),
            forall|j: int| 0 <= j < i ==> hi[j] == 0,
        decreases 16 - i,
    {
        if input[off + i] != 0 {
            proof {
                assert(w =~= hi + lo);
                lemma_be_val_append(hi, lo);
                lemma_pow256_values();
                assert(hi[i as int] == input@[off + i]);
                assert(hi[i as int] != 0);
                assert(be_val(hi) >= 1) by {
                    lemma_be_val_zero(hi);
                }
                assert(be_val(hi) * pow256(16) >= pow256(16)) by (nonlinear_arith)
                    requires
                        be_val(hi) >= 1,
                        pow256(16) >= 0,
                ;
            }
            return None;
        }
        i += 1;
    }
    proof {
        assert(w =~= hi + lo);
        lemma_be_val_append(hi, lo);
        lemma_be_val_bound(lo);
        lemma_pow256_values();
        assert(forall|j: int| 0 <= j < 16 ==> hi[j] == 0);
        assert(be_val(hi) == 0) by {
            lemma_be_val_zero(hi);
        }
    }
    let v = be_bytes_value(input, off + 16, 16);
    Some(v)
}

/// The decoded value of an unsigned integer argument of `width` bytes whose
/// word starts at `off`: out-of-bounds and over-width values are rejected,
/// scoped to `field`.
pub open spec fn read_uint_spec(s: Seq<u8>, off: int, width: nat, field: Field) -> Result<
    nat,
    Revert,
> {
    if off + 32 > s.len() {
        Err(Revert::ReadOutOfBounds(field))
    } else if be_val(word_at(s, off)) >= pow256(width) {
        Err(Revert::ValueTooLarge(field))
    } else {
        Ok(be_val(word_at(s, off)))
    }
}

/// Decodes a `uint8` argument.
pub fn read_u8(input: &Vec<u8>, off: usize, field: Field) -> (r: Result<u8, Revert>)
    ensures
        r matches Ok(v) ==> read_uint_spec(input@, off as int, 1, field) == Ok::<nat, Revert>(
            v as nat,
        ),
        r matches Err(e) ==> read_uint_spec(input@, off as int, 1, field) == Err::<nat, Revert>(e),
{
    proof {
        lemma_pow256_values();
    }
    if input.len() < 32 || off > input.len() - 32 {
        return Err(Revert::ReadOutOfBounds(field));
    }
    match word_u128(input, off) {
        None => Err(Revert::ValueTooLarge(field)),
        Some(v) => {
            if v > u8::MAX as u128 {
                Err(Revert::ValueTooLarge(field))
            } else {
                Ok(v as u8)
            }
        },
    }
}

/// Decodes a `uint64` argument.
pub fn read_u64(input: &Vec<u8>, off: usize, field: Field) -> (r: Result<u64, Revert>)
    ensures
        r matches Ok(v) ==> read_uint_spec(input@, off as int, 8, field) == Ok::<nat, Revert>(
            v as nat,
        ),
        r matches Err(e) ==> read_uint_spec(input@, off as int, 8, field) == Err::<nat, Revert>(e),
{
    proof {
        lemma_pow256_values();
    }
    if input.len() < 32 || off > input.len() - 32 {
        return Err(Revert::ReadOutOfBounds(field));
    }
    match word_u128(input, off) {
        None => Err(Revert::ValueTooLarge(field)),
        Some(v) => {
            if v > u64::MAX as u128 {
                Err(Revert::ValueTooLarge(field))
            } else {
                Ok(v as u64)
            }
        },
    }
}

/// Decodes a `uint128` argument.
pub fn read_u128(input: &Vec<u8>, off: usize, field: Field) -> (r: Result<u128, Revert>)
    ensures
        r matches Ok(v) ==> read_uint_spec(input@, off as int, 16, field) == Ok::<nat, Revert>(
            v as nat,
        ),
        r matches Err(e) ==> read_uint_spec(input@, off as int, 16, field) == Err::<nat, Revert>(
            e,
        ),
{
    proof {
        lemma_pow256_values();
    }
    if input.len() < 32 || off > input.len() - 32 {
        return Err(Revert::ReadOutOfBounds(field));
    }
    match word_u128(input, off) {
        None => Err(Revert::ValueTooLarge(field)),
        Some(v) => Ok(v),
    }
}

/// The decoded value of an address argument whose word starts at `off`:
/// the low 20 bytes of the word.
pub open spec fn read_address_spec(s: Seq<u8>, off: int, field: Field) -> Result<Seq<u8>, Revert> {
    if off + 32 > s.len() {
        Err(Revert::ReadOutOfBounds(field))
    } else {
        Ok(s.subrange(off + 12, off + 32))
    }
}

/// Decodes an address argument.
pub fn read_address(input: &Vec<u8>, off: usize, field: Field) -> (r: Result<EvmAddress, Revert>)
    ensures
        r matches Ok(a) ==> read_address_spec(input@, off as int, field) == Ok::<Seq<u8>, Revert>(
            a@,
        ),
        r matches Err(e) ==> read_address_spec(input@, off as int, field) == Err::<
            Seq<u8>,
            Revert,
        >(e),
{
    if input.len() < 32 || off > input.len() - 32 {
        return Err(Revert::ReadOutOfBounds(field));
    }
    let n = input.len();
    let mut a = [0u8; 20];
    let mut i: usize = 0;
    while i < 20
        invariant
            n == input@.len(),
            off + 32 <= n,
            i <= 20,
            a@.len() == 20,
            forall|j: int| 0 <= j < i ==> a@[j] == input@[off + 12 + j],
        decreases 20 - i,
    {
        a[i] = input[off + 12 + i];
        i += 1;
    }
    proof {
        assert(a@ =~= input@.subrange(off + 12, off + 32));
    }
    Ok(EvmAddress(a))
}

/// The decoded content of a length-bounded dynamic byte-string argument:
/// `head_off` is the position of its offset word, and the offset counts
/// from `base`, the start of the argument section. A declared length over
/// [`MAX_BYTES_LEN`] is rejected as oversized; an offset or a data range
/// outside the buffer is rejected; all failures are scoped to `field`.
pub open spec fn read_bytes_spec(s: Seq<u8>, base: int, head_off: int, field: Field) -> Result<
    Seq<u8>,
    Revert,
> {
    if head_off + 32 > s.len() {
        Err(Revert::ReadOutOfBounds(field))
    } else {
        let ptr = be_val(word_at(s, head_off));
        if base + ptr + 32 > s.len() {
            Err(Revert::PointerOutOfBounds(field))
        } else {
            let len = be_val(word_at(s, base + ptr));
            if len > MAX_BYTES_LEN {
                Err(Revert::OversizedBytes(field))
            } else if base + ptr + 32 + len > s.len() {
                Err(Revert::ReadOutOfBounds(field))
            } else {
                Ok(s.subrange(base + ptr + 32, base + ptr + 32 + len))
            }
        }
    }
}

/// Decodes a length-bounded dynamic byte-string argument.
pub fn read_bytes(input: &Vec<u8>, base: usize, head_off: usize, field: Field) -> (r: Result<
    Vec<u8>,
    Revert,
>)
    ensures
        r matches Ok(v) ==> read_bytes_spec(input@, base as int, head_off as int, field) == Ok::<
            Seq<u8>,
            Revert,
        >(v@),
        r matches Err(e) ==> read_bytes_spec(input@, base as int, head_off as int, field) == Err::<
            Seq<u8>,
            Revert,
        >(e),
{
    proof {
        lemma_pow256_values();
    }
    if input.len() < 32 || head_off > input.len() - 32 {
        return Err(Revert::ReadOutOfBounds(field));
    }
    let ptr128 = match word_u128(input, head_off) {
        None => {
            // the offset is at least `2^128`, far beyond any buffer
            return Err(Revert::PointerOutOfBounds(field));
        },
        Some(p) => p,
    };
    if ptr128 > u64::MAX as u128 {
        return Err(Revert::PointerOutOfBounds(field));
    }
    let ptr = ptr128 as u64;
    if (base as u128) + (ptr as u128) + 32 > input.len() as u128 {
        return Err(Revert::PointerOutOfBounds(field));
    }
    let data_off: usize = base + (ptr as usize);
    let len128 = match word_u128(input, data_off) {
        None => {
            // the declared length is at least `2^128`, over any bound
            return Err(Revert::OversizedBytes(field));
        },
        Some(l) => l,
    };
    if len128 > MAX_BYTES_LEN as u128 {
        return Err(Revert::OversizedBytes(field));
    }
    let len: usize = len128 as usize;
    let start: usize = data_off + 32;
    if (start as u128) + (len as u128) > input.len() as u128 {
        return Err(Revert::ReadOutOfBounds(field));
    }
    let n = input.len();
    let mut out: Vec<u8> = Vec::new();
    let mut i: usize = 0;
    while i < len
        invariant
            n == input@.len(),
            start + len <= n,
            i <= len,
            out@ =~= input@.subrange(start as int, start + i),
        decreases len - i,
    {
        out.push(input[start + i]);
        i += 1;
    }
    proof {
        assert(out@ =~= input@.subrange(start as int, start + len));
    }
    Ok(out)
}

/// The selector of a call input: the value of its first four bytes.
pub open spec fn selector_spec(s: Seq<u8>) -> Result<u32, Revert> {
    if s.len() < 4 {
        Err(Revert::ReadOutOfBounds(Field::Selector))
    } else {
        Ok(be_val(s.subrange(0, 4)) as u32)
    }
}

/// Reads the four-byte selector in front of a call's arguments.
pub fn parse_selector(input: &Vec<u8>) -> (r: Result<u32, Revert>)
    ensures
        r == selector_spec(input@),
{
    if input.len() < 4 {
        return Err(Revert::ReadOutOfBounds(Field::Selector));
    }
    proof {
        lemma_be_val_bound(input@.subrange(0, 4));
        lemma_pow256_values();
    }
    let v = be_bytes_value(input, 0, 4);
    Ok(v as u32)
}

/// The 32-byte word encoding of an address: twelve zero bytes followed by
/// the address itself.
pub open spec fn address_word(a: Seq<u8>) -> Seq<u8> {
    Seq::new(12, |i: int| 0u8) + a
}

/// Encodes the bridge's one read-only output: an address, as one word.
pub fn encode_address(a: &EvmAddress) -> (out: Vec<u8>)
    ensures
        out@ == address_word(a@),
        out@.len() == 32,
{
    let mut out: Vec<u8> = Vec::new();
    let mut i: usize = 0;
    while i < 12
        invariant
            i <= 12,
            out@.len() == i,
            forall|j: int| 0 <= j < i ==> out@[j] == 0u8,
        decreases 12 - i,
    {
        out.push(0u8);
        i += 1;
    }
    let mut k: usize = 0;
    while k < 20
        invariant
            k <= 20,
            out@.len() == 12 + k,
            forall|j: int| 0 <= j < 12 ==> out@[j] == 0u8,
            forall|j: int| 12 <= j < 12 + k ==> out@[j] == a@[j - 12],
        decreases 20 - k,
    {
        out.push(a.0[k]);
        k += 1;
    }
    proof {
        assert(out@ =~= address_word(a@));
    }
    out
}

} // verus!
