use vstd::prelude::*;

use crate::exceptions::Exception;

verus! {

/// The word whose big-endian bytes are `b0 b1 b2 b3`.
pub open spec fn be_u32(b0: u8, b1: u8, b2: u8, b3: u8) -> u32 {
    ((b0 as u32) << 24u32) | ((b1 as u32) << 16u32) | ((b2 as u32) << 8u32) | (b3 as u32)
}

/// The big-endian word stored in `s` at `loc .. loc + 4`.
pub open spec fn word_at(s: Seq<u8>, loc: int) -> u32 {
    be_u32(s[loc], s[loc + 1], s[loc + 2], s[loc + 3])
}

/// `s` with the big-endian bytes of `v` stored at `loc .. loc + 4`.
pub open spec fn store_word_at(s: Seq<u8>, loc: int, v: u32) -> Seq<u8> {
    s.update(loc, (v >> 24u32) as u8).update(loc + 1, (v >> 16u32) as u8).update(
        loc + 2,
        (v >> 8u32) as u8,
    ).update(loc + 3, v as u8)
}

/// The value of a 16-bit field read as a two's-complement number.
pub open spec fn sign_extend_16(v: u16) -> int {
    if v < 0x8000 {
        v as int
    } else {
        v as int - 0x10000
    }
}

/// `x` reduced into the 32-bit unsigned range.
pub open spec fn wrap32(x: int) -> u32 {
    (x % 0x1_0000_0000) as u32
}

pub proof fn lemma_word_round_trip(v: u32)
    ensures
        be_u32((v >> 24u32) as u8, (v >> 16u32) as u8, (v >> 8u32) as u8, v as u8) == v,
{
    assert(((((v >> 24u32) as u8) as u32) << 24u32) | ((((v >> 16u32) as u8) as u32) << 16u32)
        | ((((v >> 8u32) as u8) as u32) << 8u32) | ((v as u8) as u32) == v) by (bit_vector);
}

/// Copies `v[start .. end]` into a new vector.
pub fn copy_range(v: &Vec<u8>, start: usize, end: usize) -> (r: Vec<u8>)
    requires
        start <= end <= v.len(),
    ensures
        r@ == v@.subrange(start as int, end as int),
{
    let mut r: Vec<u8> = Vec::new();
    let mut i: usize = start;
    while i < end
        invariant
            start <= i <= end <= v.len(),
            r@ == v@.subrange(start as int, i as int),
        decreases end - i,
    {
        r.push(v[i]);
        i = i + 1;
        assert(r@ =~= v@.subrange(start as int, i as int));
    }
    r
}

pub fn u8_slice_to_u32(u8_slice: Vec<u8>) -> (r: u32)
    requires
        u8_slice.len() == 4,
    ensures
        r == word_at(u8_slice@, 0),
{
    (u8_slice[0] as u32) << 24u32 | (u8_slice[1] as u32) << 16u32 | (u8_slice[2] as u32) << 8u32
        | (u8_slice[3] as u32)
}

pub fn u8_slice_to_u16(u8_slice: Vec<u8>) -> (r: u16)
    requires
        u8_slice.len() == 2,
    ensures
        r == ((u8_slice@[0] as u16) << 8u16) | (u8_slice@[1] as u16),
{
    (u8_slice[0] as u16) << 8u16 | (u8_slice[1] as u16)
}

pub fn u8_vector_to_u32_vector(u8_vec: Vec<u8>) -> (r: Vec<u32>)
    requires
        u8_vec.len() % 4 == 0,
        u8_vec.len() != 0,
    ensures
        r.len() == u8_vec.len() / 4,
        forall|i: int| 0 <= i < r.len() ==> #[trigger] r@[i] == word_at(u8_vec@, 4 * i),
{
    let n: usize = u8_vec.len() / 4;
    let mut r: Vec<u32> = Vec::new();
    let mut i: usize = 0;
    while i < n
        invariant
            n == u8_vec.len() / 4,
            i <= n,
            r.len() == i,
            forall|k: int| 0 <= k < i ==> #[trigger] r@[k] == word_at(u8_vec@, 4 * k),
        decreases n - i,
    {
        let word = copy_range(&u8_vec, i * 4, (i + 1) * 4);
        r.push(u8_slice_to_u32(word));
        i = i + 1;
    }
    r
}

pub fn u32_to_u8_vector_by_loc(value: u32, loc: usize, u8_vec: &mut Vec<u8>)
    requires
        old(u8_vec).len() >= 4,
        loc <= old(u8_vec).len() - 4,
    ensures
        final(u8_vec)@ == store_word_at(old(u8_vec)@, loc as int, value),
{
    u8_vec.set(loc, (value >> 24u32) as u8);
    u8_vec.set(loc + 1, (value >> 16u32) as u8);
    u8_vec.set(loc + 2, (value >> 8u32) as u8);
    u8_vec.set(loc + 3, value as u8);
}

/// Adds a 16-bit two's-complement displacement to a word, wrapping at 32 bits.
pub fn add_u16_to_u32_as_i16_overflow(u32_val: u32, u16_val: u16) -> (r: u32)
    ensures
        r == wrap32(u32_val + sign_extend_16(u16_val)),
{
    let ext: i64 = if u16_val < 0x8000 {
        u16_val as i64
    } else {
        u16_val as i64 - 0x10000
    };
    let sum: i64 = u32_val as i64 + ext;
    if sum < 0 {
        (sum + 0x1_0000_0000) as u32
    } else if sum >= 0x1_0000_0000 {
        (sum - 0x1_0000_0000) as u32
    } else {
        sum as u32
    }
}

/// Adds a 16-bit two's-complement displacement to a word; a sum outside the
/// unsigned 32-bit range is an overflow.
pub fn add_u16_to_u32_as_i16_trap(u32_val: u32, u16_val: u16) -> (r: Result<u32, Exception>)
    ensures
        0 <= u32_val + sign_extend_16(u16_val) < 0x1_0000_0000 ==> r == Ok::<u32, Exception>(
            (u32_val + sign_extend_16(u16_val)) as u32,
        ),
        !(0 <= u32_val + sign_extend_16(u16_val) < 0x1_0000_0000) ==> r == Err::<u32, Exception>(
            Exception::INTEGER_OVERFLOW,
        ),
{
    let ext: i64 = if u16_val < 0x8000 {
        u16_val as i64
    } else {
        u16_val as i64 - 0x10000
    };
    let sum: i64 = u32_val as i64 + ext;
    if 0 <= sum && sum < 0x1_0000_0000 {
        Ok(sum as u32)
    } else {
        Err(Exception::INTEGER_OVERFLOW)
    }
}

/// Adds two words; a sum that does not fit in 32 bits is an overflow.
pub fn add_u32_trap(l_val: u32, r_val: u32) -> (r: Result<u32, Exception>)
    ensures
        l_val + r_val < 0x1_0000_0000 ==> r == Ok::<u32, Exception>((l_val + r_val) as u32),
        l_val + r_val >= 0x1_0000_0000 ==> r == Err::<u32, Exception>(Exception::INTEGER_OVERFLOW),
{
    match l_val.checked_add(r_val) {
        Some(v) => Ok(v),
        None => Err(Exception::INTEGER_OVERFLOW),
    }
}

/// Adds two words modulo 2^32.
pub fn add_u32_overflow(l_val: u32, r_val: u32) -> (r: u32)
    ensures
        r == wrap32(l_val + r_val),
{
    l_val.wrapping_add(r_val)
}

/// Subtracts two words modulo 2^32.
pub fn sub_u32_overflow(l_val: u32, r_val: u32) -> (r: u32)
    ensures
        r == wrap32(l_val - r_val),
{
    l_val.wrapping_sub(r_val)
}

/// The full 64-bit product of two words read as unsigned numbers.
pub fn multiply_u32_as_unsigned(l_val: u32, r_val: u32) -> (r: u64)
    ensures
        r == l_val * r_val,
{
    proof {
        vstd::arithmetic::mul::lemma_mul_upper_bound(
            l_val as int,
            0xFFFF_FFFF,
            r_val as int,
            0xFFFF_FFFF,
        );
    }
    (l_val as u64) * (r_val as u64)
}

} // verus!
