use vstd::prelude::*;

use crate::types::ErrorCode;

verus! {

/// Lowest joining stake accepted against an opening stake (truncating).
pub open spec fn min_wager(starting: int) -> int {
    starting * 99 / 100
}

/// Highest joining stake accepted against an opening stake (truncating).
pub open spec fn max_wager(starting: int) -> int {
    starting * 101 / 100
}

/// Whether computing the bounds of `starting` stays within 64 bits.
pub open spec fn bounds_fit(starting: int) -> bool {
    starting * 101 <= u64::MAX
}

/// The accepted range `[min, max]` for a joining stake; fails where
/// `starting * 101` would overflow.
pub fn wager_bounds(starting_wager: u64) -> (r: Result<(u64, u64), ErrorCode>)
    ensures
        r is Ok <==> bounds_fit(starting_wager as int),
        r is Ok ==> r->Ok_0.0 == min_wager(starting_wager as int)
            && r->Ok_0.1 == max_wager(starting_wager as int),
        r is Err ==> r->Err_0 == ErrorCode::ArithmeticOverflow,
{
    let low = match starting_wager.checked_mul(99) {
        Some(v) => v / 100,
        None => return Err(ErrorCode::ArithmeticOverflow),
    };
    let high = match starting_wager.checked_mul(101) {
        Some(v) => v / 100,
        None => return Err(ErrorCode::ArithmeticOverflow),
    };
    Ok((low, high))
}

/// Every positive opening stake lies within its own accepted range.
pub proof fn lemma_stake_within_own_bounds(starting: int)
    requires
        starting > 0,
    ensures
        min_wager(starting) <= starting <= max_wager(starting),
{
    assert(starting * 99 / 100 <= starting) by (nonlinear_arith)
        requires starting > 0;
    assert(starting <= starting * 101 / 100) by (nonlinear_arith)
        requires starting > 0;
}

/// The wrapping seed of the resolution source: timestamp plus slot plus the
/// joiner's first address byte, reduced into the signed 64-bit range.
pub open spec fn resolution_seed_spec(unix_timestamp: i64, slot: u64, first_byte: u8) -> int {
    let sum = unix_timestamp + slot + first_byte;
    let m = (sum - i64::MIN) % 0x1_0000_0000_0000_0000int;
    m + i64::MIN
}

/// The outcome of a flip: `0` means the opener wins, `1` the joiner.
pub open spec fn resolution_result_spec(unix_timestamp: i64, slot: u64, first_byte: u8) -> int {
    (unix_timestamp + slot + first_byte) % 2
}

/// Seed of the resolution source, computed with wrapping additions. It is
/// public and predictable, so it offers no protection against a joiner who
/// chooses the moment or the address of the Join.
pub fn resolution_seed(unix_timestamp: i64, slot: u64, first_byte: u8) -> (r: i64)
    ensures
        r == resolution_seed_spec(unix_timestamp, slot, first_byte),
{
    let s1 = unix_timestamp.wrapping_add_unsigned(slot);
    let s2 = s1.wrapping_add_unsigned(first_byte as u64);
    let ghost sum: int = unix_timestamp + slot + first_byte;
    let ghost t: int = 0x1_0000_0000_0000_0000int;
    assert(s2 == resolution_seed_spec(unix_timestamp, slot, first_byte)) by {
        assert(s1 == unix_timestamp + slot || s1 == unix_timestamp + slot - t);
        assert(s2 == sum || s2 == sum - t || s2 == sum - 2 * t || s2 == sum + t);
        assert((s2 - i64::MIN) % t == (sum - i64::MIN) % t);
        assert(0 <= s2 - i64::MIN < t);
        assert((s2 - i64::MIN) % t == s2 - i64::MIN);
    }
    s2
}

/// The two-outcome result of the resolution source: the seed modulo two.
pub fn resolution_result(unix_timestamp: i64, slot: u64, first_byte: u8) -> (r: u8)
    ensures
        r == resolution_result_spec(unix_timestamp, slot, first_byte),
        r == 0 || r == 1,
{
    let seed = resolution_seed(unix_timestamp, slot, first_byte);
    let ghost sum: int = unix_timestamp + slot + first_byte;
    let ghost t: int = 0x1_0000_0000_0000_0000int;
    let rem: i64 = seed % 2;
    assert(seed - i64::MIN == (sum - i64::MIN) % t);
    if rem == 0 {
        0
    } else {
        1
    }
}

/// The resolution result is always `0` or `1`, whatever the clock and
/// address byte.
pub proof fn lemma_resolution_is_binary(unix_timestamp: i64, slot: u64, first_byte: u8)
    ensures
        resolution_result_spec(unix_timestamp, slot, first_byte) == 0
            || resolution_result_spec(unix_timestamp, slot, first_byte) == 1,
{
}

} // verus!
