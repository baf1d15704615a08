use vstd::prelude::*;
use crate::errors::ErrorCode;

verus! {

/// Lamports in one whole unit of the base currency.
pub const LAMPORTS_PER_SOL_U64: u64 = 1_000_000_000;

pub open spec fn pow10(e: nat) -> int
    decreases e,
{
    if e == 0 {
        1
    } else {
        10 * pow10((e - 1) as nat)
    }
}

pub proof fn lemma_pow10_pos(e: nat)
    ensures
        pow10(e) >= 1,
    decreases e,
{
    if e > 0 {
        lemma_pow10_pos((e - 1) as nat);
    }
}

pub proof fn lemma_pow10_increases(e1: nat, e2: nat)
    requires
        e1 <= e2,
    ensures
        pow10(e1) <= pow10(e2),
    decreases e2,
{
    if e1 < e2 {
        lemma_pow10_increases(e1, (e2 - 1) as nat);
        lemma_pow10_pos((e2 - 1) as nat);
    }
}

/// Truncation of a non-negative mathematical integer to 64 bits, the
/// effect of the narrowing casts the arithmetic below ends with.
pub open spec fn trunc_u64(x: int) -> u64 {
    (x % 0x1_0000_0000_0000_0000) as u64
}

/// A value scaled by at most 10 000 bps and divided back by 10 000 never
/// grows.
pub proof fn lemma_bps_fraction_le(value: int, factor: int)
    requires
        0 <= value,
        0 <= factor <= 10_000,
    ensures
        0 <= value * factor,
        value * factor / 10_000 <= value,
{
    vstd::arithmetic::mul::lemma_mul_upper_bound(value, value, factor, 10_000);
    vstd::arithmetic::mul::lemma_mul_nonnegative(value, factor);
    vstd::arithmetic::div_mod::lemma_div_is_ordered(value * factor, value * 10_000, 10_000);
    vstd::arithmetic::div_mod::lemma_div_by_multiple(value, 10_000);
}

/// `10^exp` as a signed 128-bit value; fails once the power leaves the
/// 128-bit range.
pub fn pow10_i128(exp: u32) -> (r: Result<i128, ErrorCode>)
    ensures
        pow10(exp as nat) <= i128::MAX ==> r == Ok::<i128, ErrorCode>(pow10(exp as nat) as i128),
        pow10(exp as nat) > i128::MAX ==> r == Err::<i128, ErrorCode>(ErrorCode::MathOverflow),
{
    let mut value: i128 = 1;
    let mut i: u32 = 0;
    while i < exp
        invariant
            0 <= i <= exp,
            value == pow10(i as nat),
            1 <= value <= i128::MAX,
        decreases exp - i,
    {
        value = match value.checked_mul(10) {
            Some(v) => v,
            None => {
                proof {
                    lemma_pow10_increases((i + 1) as nat, exp as nat);
                }
                return Err(ErrorCode::MathOverflow);
            },
        };
        i = i + 1;
    }
    Ok(value)
}

/// `expected_out` reduced by the slippage cap: the least outcome the
/// program will accept from the external swap.
pub open spec fn spec_apply_max_slippage(expected_out: u64, max_slippage_bps: u16) -> Result<
    u64,
    ErrorCode,
> {
    if max_slippage_bps > 10_000 {
        Err(ErrorCode::InvalidFeeBps)
    } else {
        Ok((expected_out * (10_000 - max_slippage_bps) / 10_000) as u64)
    }
}

pub fn apply_max_slippage(expected_out: u64, max_slippage_bps: u16) -> (r: Result<u64, ErrorCode>)
    ensures
        r == spec_apply_max_slippage(expected_out, max_slippage_bps),
{
    if max_slippage_bps > 10_000 {
        return Err(ErrorCode::InvalidFeeBps);
    }
    let factor: u128 = 10_000u128 - (max_slippage_bps as u128);
    proof {
        lemma_bps_fraction_le(expected_out as int, factor as int);
        vstd::arithmetic::mul::lemma_mul_upper_bound(
            expected_out as int,
            u64::MAX as int,
            factor as int,
            10_000,
        );
    }
    let min_expected: u128 = (expected_out as u128) * factor / 10_000u128;
    Ok(min_expected as u64)
}

/// The fee taken from `amount` at `fee_bps` basis points, rounded down.
pub open spec fn spec_fee(amount: u64, fee_bps: u16) -> u64 {
    (amount * fee_bps / 10_000) as u64
}

pub fn fee_of(amount: u64, fee_bps: u16) -> (r: u64)
    requires
        fee_bps <= 10_000,
    ensures
        r == spec_fee(amount, fee_bps),
        r <= amount,
{
    proof {
        lemma_bps_fraction_le(amount as int, fee_bps as int);
        vstd::arithmetic::mul::lemma_mul_upper_bound(
            amount as int,
            u64::MAX as int,
            fee_bps as int,
            10_000,
        );
    }
    let fee: u128 = (amount as u128) * (fee_bps as u128) / 10_000u128;
    fee as u64
}

/// Absolute value of a signed 128-bit quantity; the one value without a
/// representable absolute value fails.
pub fn abs_i128(value: i128) -> (r: Result<i128, ErrorCode>)
    ensures
        value == i128::MIN ==> r == Err::<i128, ErrorCode>(ErrorCode::MathOverflow),
        value != i128::MIN ==> r == Ok::<i128, ErrorCode>(
            if value >= 0 {
                value
            } else {
                (-(value as int)) as i128
            },
        ),
{
    if value >= 0 {
        Ok(value)
    } else if value == i128::MIN {
        Err(ErrorCode::MathOverflow)
    } else {
        Ok(-value)
    }
}

/// Value of `amount` token minor units in lamports at the quoted token
/// and base-currency prices:
///
///     amount · token_price · LAMPORTS_PER_SOL · 10^(token_expo − decimals − sol_expo) / sol_price
///
/// with the power of ten applied to the numerator or the denominator
/// according to the sign of the exponent, every intermediate held in
/// signed 128 bits, and the quotient truncated to 64 bits.  Fails with
/// `InvalidOracle` on a non-positive price and `MathOverflow` when an
/// intermediate leaves the 128-bit range.
pub open spec fn spec_token_to_sol(
    amount: u64,
    decimals: u8,
    token_price: i64,
    token_expo: i32,
    sol_price: i64,
    sol_expo: i32,
) -> Result<u64, ErrorCode> {
    if token_price <= 0 || sol_price <= 0 {
        Err(ErrorCode::InvalidOracle)
    } else {
        let exp = token_expo - decimals - sol_expo;
        let num0 = amount * token_price * LAMPORTS_PER_SOL_U64;
        if num0 > i128::MAX {
            Err(ErrorCode::MathOverflow)
        } else if exp >= 0 {
            if pow10(exp as nat) > i128::MAX || num0 * pow10(exp as nat) > i128::MAX {
                Err(ErrorCode::MathOverflow)
            } else {
                Ok(trunc_u64(num0 * pow10(exp as nat) / (sol_price as int)))
            }
        } else {
            if pow10((-exp) as nat) > i128::MAX || sol_price * pow10((-exp) as nat) > i128::MAX {
                Err(ErrorCode::MathOverflow)
            } else {
                Ok(trunc_u64(num0 / (sol_price * pow10((-exp) as nat))))
            }
        }
    }
}

/// Expected token minor units bought with `sol_lamports` at the quoted
/// prices:
///
///     sol_lamports · sol_price · 10^decimals · 10^(sol_expo − token_expo) / (token_price · LAMPORTS_PER_SOL)
///
/// under the same 128-bit and truncation discipline as
/// `spec_token_to_sol`.
pub open spec fn spec_sol_to_token(
    sol_lamports: u64,
    decimals: u8,
    token_price: i64,
    token_expo: i32,
    sol_price: i64,
    sol_expo: i32,
) -> Result<u64, ErrorCode> {
    if token_price <= 0 || sol_price <= 0 {
        Err(ErrorCode::InvalidOracle)
    } else {
        let exp = sol_expo - token_expo;
        let den0 = token_price * LAMPORTS_PER_SOL_U64;
        if pow10(decimals as nat) > i128::MAX || sol_lamports * sol_price * pow10(decimals as nat)
            > i128::MAX || den0 > i128::MAX {
            Err(ErrorCode::MathOverflow)
        } else {
            let num0 = sol_lamports * sol_price * pow10(decimals as nat);
            if exp >= 0 {
                if pow10(exp as nat) > i128::MAX || num0 * pow10(exp as nat) > i128::MAX {
                    Err(ErrorCode::MathOverflow)
                } else {
                    Ok(trunc_u64(num0 * pow10(exp as nat) / den0))
                }
            } else {
                if pow10((-exp) as nat) > i128::MAX || den0 * pow10((-exp) as nat) > i128::MAX {
                    Err(ErrorCode::MathOverflow)
                } else {
                    Ok(trunc_u64(num0 / (den0 * pow10((-exp) as nat))))
                }
            }
        }
    }
}

/// Lamport value of a token position, as the NAV engine and the sell
/// sides of order execution expect it.
pub fn expected_sol_out_from_token(
    amount: u64,
    decimals: u8,
    token_price: i64,
    token_expo: i32,
    sol_price: i64,
    sol_expo: i32,
) -> (r: Result<u64, ErrorCode>)
    ensures
        r == spec_token_to_sol(amount, decimals, token_price, token_expo, sol_price, sol_expo),
{
    if token_price <= 0 || sol_price <= 0 {
        return Err(ErrorCode::InvalidOracle);
    }
    proof {
        vstd::arithmetic::mul::lemma_mul_upper_bound(
            amount as int,
            u64::MAX as int,
            token_price as int,
            i64::MAX as int,
        );
        vstd::arithmetic::mul::lemma_mul_nonnegative(amount as int, token_price as int);
        vstd::arithmetic::mul::lemma_mul_nonnegative(
            (amount as int) * (token_price as int),
            LAMPORTS_PER_SOL_U64 as int,
        );
    }
    let num_a: i128 = (amount as i128) * (token_price as i128);
    let mut numerator: i128 = match num_a.checked_mul(LAMPORTS_PER_SOL_U64 as i128) {
        Some(v) => v,
        None => { return Err(ErrorCode::MathOverflow) },
    };
    let mut denominator: i128 = sol_price as i128;
    let exp: i64 = (token_expo as i64) - (decimals as i64) - (sol_expo as i64);
    if exp >= 0 {
        let scale = match pow10_i128_of_i64(exp) {
            Ok(v) => v,
            Err(e) => { return Err(e) },
        };
        proof {
            lemma_pow10_pos(exp as nat);
            vstd::arithmetic::mul::lemma_mul_nonnegative(numerator as int, scale as int);
        }
        numerator = match numerator.checked_mul(scale) {
            Some(v) => v,
            None => { return Err(ErrorCode::MathOverflow) },
        };
    } else {
        let scale = match pow10_i128_of_i64(-exp) {
            Ok(v) => v,
            Err(e) => { return Err(e) },
        };
        proof {
            lemma_pow10_pos((-exp) as nat);
            vstd::arithmetic::mul::lemma_mul_strictly_positive(denominator as int, scale as int);
        }
        denominator = match denominator.checked_mul(scale) {
            Some(v) => v,
            None => { return Err(ErrorCode::MathOverflow) },
        };
    }
    let q: u128 = (numerator as u128) / (denominator as u128);
    Ok((q % 0x1_0000_0000_0000_0000u128) as u64)
}

/// Expected token minor units for a lamport spend, as the buy sides of
/// order execution and the rebalance engine expect it.
pub fn expected_token_out_from_sol(
    sol_lamports: u64,
    decimals: u8,
    token_price: i64,
    token_expo: i32,
    sol_price: i64,
    sol_expo: i32,
) -> (r: Result<u64, ErrorCode>)
    ensures
        r == spec_sol_to_token(sol_lamports, decimals, token_price, token_expo, sol_price, sol_expo),
{
    if token_price <= 0 || sol_price <= 0 {
        return Err(ErrorCode::InvalidOracle);
    }
    let dec_scale = match pow10_i128(decimals as u32) {
        Ok(v) => v,
        Err(e) => { return Err(e) },
    };
    proof {
        vstd::arithmetic::mul::lemma_mul_upper_bound(
            sol_lamports as int,
            u64::MAX as int,
            sol_price as int,
            i64::MAX as int,
        );
        vstd::arithmetic::mul::lemma_mul_nonnegative(sol_lamports as int, sol_price as int);
        lemma_pow10_pos(decimals as nat);
        vstd::arithmetic::mul::lemma_mul_nonnegative(
            (sol_lamports as int) * (sol_price as int),
            dec_scale as int,
        );
        vstd::arithmetic::mul::lemma_mul_strictly_positive(
            token_price as int,
            LAMPORTS_PER_SOL_U64 as int,
        );
    }
    let num_a: i128 = (sol_lamports as i128) * (sol_price as i128);
    let mut numerator: i128 = match num_a.checked_mul(dec_scale) {
        Some(v) => v,
        None => { return Err(ErrorCode::MathOverflow) },
    };
    let mut denominator: i128 = match (token_price as i128).checked_mul(
        LAMPORTS_PER_SOL_U64 as i128,
    ) {
        Some(v) => v,
        None => { return Err(ErrorCode::MathOverflow) },
    };
    let exp: i64 = (sol_expo as i64) - (token_expo as i64);
    if exp >= 0 {
        let scale = match pow10_i128_of_i64(exp) {
            Ok(v) => v,
            Err(e) => { return Err(e) },
        };
        proof {
            lemma_pow10_pos(exp as nat);
            vstd::arithmetic::mul::lemma_mul_nonnegative(numerator as int, scale as int);
        }
        numerator = match numerator.checked_mul(scale) {
            Some(v) => v,
            None => { return Err(ErrorCode::MathOverflow) },
        };
    } else {
        let scale = match pow10_i128_of_i64(-exp) {
            Ok(v) => v,
            Err(e) => { return Err(e) },
        };
        proof {
            lemma_pow10_pos((-exp) as nat);
            vstd::arithmetic::mul::lemma_mul_strictly_positive(denominator as int, scale as int);
        }
        denominator = match denominator.checked_mul(scale) {
            Some(v) => v,
            None => { return Err(ErrorCode::MathOverflow) },
        };
    }
    let q: u128 = (numerator as u128) / (denominator as u128);
    Ok((q % 0x1_0000_0000_0000_0000u128) as u64)
}

/// `pow10_i128` for a non-negative exponent held in 64 bits; exponents
/// past the 32-bit range overflow 128 bits anyway.
fn pow10_i128_of_i64(exp: i64) -> (r: Result<i128, ErrorCode>)
    requires
        exp >= 0,
    ensures
        pow10(exp as nat) <= i128::MAX ==> r == Ok::<i128, ErrorCode>(pow10(exp as nat) as i128),
        pow10(exp as nat) > i128::MAX ==> r == Err::<i128, ErrorCode>(ErrorCode::MathOverflow),
{
    if exp > 0xffff_ffff {
        proof {
            lemma_pow10_increases(39, exp as nat);
            assert(pow10(39) > i128::MAX) by {
                reveal_with_fuel(pow10, 40);
            }
        }
        Err(ErrorCode::MathOverflow)
    } else {
        pow10_i128(exp as u32)
    }
}

/// A price re-expressed at another decimal exponent: scaled up by
/// `10^(expo − target_expo)` when the exponent shrinks, scaled down (with
/// truncation) when it grows.
pub open spec fn spec_scale_price(price: i64, expo: i32, target_expo: i32) -> Result<
    i128,
    ErrorCode,
> {
    if expo == target_expo {
        Ok(price as i128)
    } else if expo > target_expo {
        if pow10((expo - target_expo) as nat) > i128::MAX || price * pow10(
            (expo - target_expo) as nat,
        ) > i128::MAX {
            Err(ErrorCode::MathOverflow)
        } else {
            Ok((price * pow10((expo - target_expo) as nat)) as i128)
        }
    } else {
        if pow10((target_expo - expo) as nat) > i128::MAX {
            Err(ErrorCode::MathOverflow)
        } else {
            Ok(((price as int) / pow10((target_expo - expo) as nat)) as i128)
        }
    }
}

pub fn scale_price(price: i64, expo: i32, target_expo: i32) -> (r: Result<i128, ErrorCode>)
    requires
        price > 0,
    ensures
        r == spec_scale_price(price, expo, target_expo),
{
    if expo == target_expo {
        return Ok(price as i128);
    }
    if expo > target_expo {
        let diff: i64 = (expo as i64) - (target_expo as i64);
        let scale = match pow10_i128_of_i64(diff) {
            Ok(v) => v,
            Err(e) => { return Err(e) },
        };
        proof {
            lemma_pow10_pos(diff as nat);
            vstd::arithmetic::mul::lemma_mul_nonnegative(price as int, scale as int);
        }
        match (price as i128).checked_mul(scale) {
            Some(v) => Ok(v),
            None => Err(ErrorCode::MathOverflow),
        }
    } else {
        let diff: i64 = (target_expo as i64) - (expo as i64);
        let scale = match pow10_i128_of_i64(diff) {
            Ok(v) => v,
            Err(e) => { return Err(e) },
        };
        proof {
            lemma_pow10_pos(diff as nat);
            vstd::arithmetic::div_mod::lemma_div_is_ordered_by_denominator(
                price as int,
                1,
                scale as int,
            );
        }
        let q: u128 = (price as u128) / (scale as u128);
        Ok(q as i128)
    }
}

} // verus!
