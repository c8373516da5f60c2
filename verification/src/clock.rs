//! The guest's millisecond clock, as far as it is arithmetic.

use vstd::prelude::*;

verus! {

/// The number of values that a 32-bit tick count can take.
pub open spec fn tick_modulus() -> int {
    0x1_0000_0000
}

/// The tick count that the guest reads after `millis` milliseconds: the count
/// wraps round every `2^32` milliseconds.
pub open spec fn ticks_after(millis: nat) -> int {
    millis as int % tick_modulus()
}

/// The tick count that the guest reads after `millis` milliseconds.
pub fn wrap_millis(millis: u128) -> (ticks: u32)
    ensures
        ticks as int == ticks_after(millis as nat),
{
    let low: u128 = millis & 0xffff_ffff;
    assert(low == millis % 0x1_0000_0000) by (bit_vector)
        requires
            low == millis & 0xffff_ffff,
    ;
    low as u32
}

/// A guest measures time as the difference of two readings. Taken modulo
/// `2^32`, that difference is the time that passed, however often the clock
/// wrapped before or between the readings; and a clock that has not yet
/// wrapped shows the milliseconds themselves.
pub proof fn lemma_elapsed_survives_wrap(earlier: nat, later: nat)
    requires
        earlier <= later,
    ensures
        (ticks_after(later) - ticks_after(earlier)) % tick_modulus() == (later - earlier)
            % tick_modulus(),
        later < tick_modulus() ==> ticks_after(later) == later,
{
    vstd::arithmetic::div_mod::lemma_sub_mod_noop(later as int, earlier as int, tick_modulus());
}

/// The signed reading of a tick count: the same 32 bits, taken in two's
/// complement, for an engine whose host functions return signed integers.
pub open spec fn signed_reading(ticks: u32) -> int {
    if ticks < 0x8000_0000 {
        ticks as int
    } else {
        ticks - tick_modulus()
    }
}

/// Hands a tick count to a guest through a signed 32-bit result. The guest
/// sees the bits of `ticks` unchanged.
pub fn signed_ticks(ticks: u32) -> (signed: i32)
    ensures
        signed as int == signed_reading(ticks),
{
    if ticks < 0x8000_0000 {
        ticks as i32
    } else {
        let below: u32 = u32::MAX - ticks;
        -1i32 - (below as i32)
    }
}

/// The signed reading loses nothing: two tick counts with the same signed
/// reading are the same count, and the count is the reading taken modulo
/// `2^32`.
pub proof fn lemma_signed_reading_keeps_ticks(a: u32, b: u32)
    ensures
        signed_reading(a) == signed_reading(b) ==> a == b,
        signed_reading(a) % tick_modulus() == a,
        -0x8000_0000 <= signed_reading(a) < 0x8000_0000,
{
}

} // verus!
