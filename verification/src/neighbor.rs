//! The packed five-cell neighborhood key: a cell's own state and its four
//! orthogonal neighbors' states, five bits each, 25 bits in all. The packing
//! order — center, north, east, south, west, from the low bits up — is the
//! single addressing scheme shared by the table builder and the step pass.

use vstd::prelude::*;
use crate::valid_state;

verus! {

/// Number of distinct neighborhood keys: 2^25.
pub const KEY_COUNT: u32 = 0x2000000;

/// The key that addresses the transition-table slot for the neighborhood
/// (center, north, east, south, west).
pub open spec fn key_of(c: u8, n: u8, e: u8, s: u8, w: u8) -> int {
    c + n * 0x20 + e * 0x400 + s * 0x8000 + w * 0x100000
}

/// The center state packed into key `k`.
pub open spec fn key_center(k: int) -> u8 {
    (k % 0x20) as u8
}

/// The north state packed into key `k`.
pub open spec fn key_north(k: int) -> u8 {
    ((k / 0x20) % 0x20) as u8
}

/// The east state packed into key `k`.
pub open spec fn key_east(k: int) -> u8 {
    ((k / 0x400) % 0x20) as u8
}

/// The south state packed into key `k`.
pub open spec fn key_south(k: int) -> u8 {
    ((k / 0x8000) % 0x20) as u8
}

/// The west state packed into key `k`.
pub open spec fn key_west(k: int) -> u8 {
    ((k / 0x100000) % 0x20) as u8
}

/// Packs a neighborhood of state codes into its table key.
pub fn pack_neighbor_key(c: u8, n: u8, e: u8, s: u8, w: u8) -> (k: u32)
    requires
        valid_state(c),
        valid_state(n),
        valid_state(e),
        valid_state(s),
        valid_state(w),
    ensures
        k == key_of(c, n, e, s, w),
        k < KEY_COUNT,
{
    c as u32 + n as u32 * 0x20 + e as u32 * 0x400 + s as u32 * 0x8000 + w as u32 * 0x100000
}

/// Unpacks a table key into the neighborhood (center, north, east, south,
/// west) it addresses.
pub fn unpack_neighbor_key(k: u32) -> (t: (u8, u8, u8, u8, u8))
    requires
        k < KEY_COUNT,
    ensures
        t.0 == key_center(k as int) && valid_state(t.0),
        t.1 == key_north(k as int) && valid_state(t.1),
        t.2 == key_east(k as int) && valid_state(t.2),
        t.3 == key_south(k as int) && valid_state(t.3),
        t.4 == key_west(k as int) && valid_state(t.4),
{
    (
        (k % 0x20) as u8,
        ((k / 0x20) % 0x20) as u8,
        ((k / 0x400) % 0x20) as u8,
        ((k / 0x8000) % 0x20) as u8,
        ((k / 0x100000) % 0x20) as u8,
    )
}

/// Packing then unpacking returns the five states unchanged: distinct
/// neighborhoods never share a table slot.
pub proof fn lemma_unpack_of_pack(c: u8, n: u8, e: u8, s: u8, w: u8)
    requires
        valid_state(c),
        valid_state(n),
        valid_state(e),
        valid_state(s),
        valid_state(w),
    ensures
        0 <= key_of(c, n, e, s, w) < KEY_COUNT,
        key_center(key_of(c, n, e, s, w)) == c,
        key_north(key_of(c, n, e, s, w)) == n,
        key_east(key_of(c, n, e, s, w)) == e,
        key_south(key_of(c, n, e, s, w)) == s,
        key_west(key_of(c, n, e, s, w)) == w,
{
    let cc = c as u32;
    let nn = n as u32;
    let ee = e as u32;
    let ss = s as u32;
    let ww = w as u32;
    assert({
        let k = cc + nn * 0x20 + ee * 0x400 + ss * 0x8000 + ww * 0x100000;
        k < 0x2000000 && k % 0x20 == cc && (k / 0x20) % 0x20 == nn && (k / 0x400) % 0x20 == ee && (
        k / 0x8000) % 0x20 == ss && (k / 0x100000) % 0x20 == ww
    }) by (bit_vector)
        requires
            cc < 0x20 && nn < 0x20 && ee < 0x20 && ss < 0x20 && ww < 0x20,
    ;
}

/// Unpacking then packing returns the key unchanged: every table slot is
/// addressed by exactly one neighborhood.
pub proof fn lemma_pack_of_unpack(k: u32)
    requires
        k < KEY_COUNT,
    ensures
        key_of(key_center(k as int), key_north(k as int), key_east(k as int), key_south(k as int),
            key_west(k as int)) == k,
{
    assert(k % 0x20 + ((k / 0x20) % 0x20) * 0x20 + ((k / 0x400) % 0x20) * 0x400 + ((k / 0x8000)
        % 0x20) * 0x8000 + ((k / 0x100000) % 0x20) * 0x100000 == k) by (bit_vector)
        requires
            k < 0x2000000,
    ;
}

} // verus!
