use crate::error::ObricError;
use crate::math::{dist, lemma_output_bounded_by_reserve};
use crate::state::{Quote, SSTradingPair};
use vstd::prelude::*;

verus! {

/// A floor division `k / d` places `(d, k / d)` on the hyperbola `x * y == k`
/// up to less than one unit of the divisor.
pub proof fn lemma_floor_division_on_curve(k: int, d: int)
    requires
        k >= 0,
        d > 0,
    ensures
        d * (k / d) <= k < d * (k / d) + d,
{
    vstd::arithmetic::div_mod::lemma_fundamental_div_mod(k, d);
    vstd::arithmetic::div_mod::lemma_mod_bound(k, d);
}

/// The target split keeps the total value of the reserves: `target_x` and
/// `target_y` are together worth the reserves, less a rounding loss smaller
/// than the value of one unit of Y.
pub proof fn lemma_value_conservation(pair: SSTradingPair, current_x: u64, current_y: u64)
    requires
        pair.target_solvable(current_x, current_y),
    ensures
        pair.target_x * pair.mult_x + pair.target_y_of(current_x, current_y) * pair.mult_y
            <= pair.value_total(current_x, current_y),
        pair.value_total(current_x, current_y) < pair.target_x * pair.mult_x + pair.target_y_of(
            current_x,
            current_y,
        ) * pair.mult_y + pair.mult_y,
{
    let rest = pair.value_total(current_x, current_y) - pair.target_x_value();
    lemma_floor_division_on_curve(rest, pair.mult_y as int);
    let ty = pair.target_y_of(current_x, current_y);
    assert(ty == rest / (pair.mult_y as int));
    assert(ty * (pair.mult_y as int) == (pair.mult_y as int) * ty) by (nonlinear_arith);
}

/// For a trade of X in, the current and the new curve points both lie on the
/// invariant curve up to the loss of one floor division: each product of
/// coordinates is at most `big_k` and falls short of it by less than the X
/// coordinate.
pub proof fn lemma_curve_invariant_x_to_y(pair: SSTradingPair, input_x: u64, current_x: u64)
    requires
        pair.curve_placed(current_x),
    ensures
        pair.current_x_k(current_x) * pair.current_y_k(current_x) <= pair.big_k,
        pair.big_k < pair.current_x_k(current_x) * pair.current_y_k(current_x) + pair.current_x_k(
            current_x,
        ),
        pair.new_x_k(input_x, current_x) * pair.new_y_k_after_x(input_x, current_x) <= pair.big_k,
        pair.big_k < pair.new_x_k(input_x, current_x) * pair.new_y_k_after_x(input_x, current_x)
            + pair.new_x_k(input_x, current_x),
{
    lemma_floor_division_on_curve(pair.big_k as int, pair.current_x_k(current_x));
    lemma_floor_division_on_curve(pair.big_k as int, pair.new_x_k(input_x, current_x));
}

/// For a trade of Y in, the current and the new curve points both lie on the
/// invariant curve up to the loss of one floor division: each product of
/// coordinates is at most `big_k` and falls short of it by less than the
/// coordinate that was divided by.
pub proof fn lemma_curve_invariant_y_to_x(pair: SSTradingPair, input_y: u64, current_x: u64)
    requires
        pair.curve_placed(current_x),
        input_y > 0,
    ensures
        pair.current_x_k(current_x) * pair.current_y_k(current_x) <= pair.big_k,
        pair.big_k < pair.current_x_k(current_x) * pair.current_y_k(current_x) + pair.current_x_k(
            current_x,
        ),
        pair.new_y_k(input_y, current_x) * pair.new_x_k_after_y(input_y, current_x) <= pair.big_k,
        pair.big_k < pair.new_y_k(input_y, current_x) * pair.new_x_k_after_y(input_y, current_x)
            + pair.new_y_k(input_y, current_x),
{
    lemma_floor_division_on_curve(pair.big_k as int, pair.current_x_k(current_x));
    vstd::arithmetic::div_mod::lemma_div_pos_is_pos(pair.big_k as int, pair.current_x_k(current_x));
    lemma_floor_division_on_curve(pair.big_k as int, pair.new_y_k(input_y, current_x));
}

/// Whenever a trade of X is quoted, output and fee add up to the pre-fee
/// output exactly, the fee is that output's share rounded down, and the
/// output stays below the Y reserve.
pub proof fn lemma_fee_exact_x_to_y(
    pair: SSTradingPair,
    input_x: u64,
    current_x: u64,
    current_y: u64,
)
    ensures
        match pair.x_to_y_outcome(input_x, current_x, current_y) {
            Ok(Quote::Quoted { output, fee }) => {
                &&& output + fee == pair.output_before_fee_y(input_x, current_x)
                &&& fee == pair.fee_of(pair.output_before_fee_y(input_x, current_x))
                &&& output + fee < current_y
            },
            _ => true,
        },
{
    if pair.x_to_y_outcome(input_x, current_x, current_y) is Ok && pair.curve_placed(current_x)
        && pair.new_x_k(input_x, current_x) <= u128::MAX {
        vstd::arithmetic::div_mod::lemma_div_is_ordered_by_denominator(
            pair.big_k as int,
            pair.current_x_k(current_x),
            pair.new_x_k(input_x, current_x),
        );
        let out = pair.output_before_fee_y(input_x, current_x);
        if out >= 0 {
            vstd::arithmetic::div_mod::lemma_div_pos_is_pos(
                out * pair.fee_millionth,
                1_000_000,
            );
        }
    }
}

/// Whenever a trade of Y is quoted, output and fee add up to the pre-fee
/// output exactly, the fee is that output's share rounded down, and the
/// output stays below the X reserve.
pub proof fn lemma_fee_exact_y_to_x(
    pair: SSTradingPair,
    input_y: u64,
    current_x: u64,
    current_y: u64,
)
    ensures
        match pair.y_to_x_outcome(input_y, current_x, current_y) {
            Ok(Quote::Quoted { output, fee }) => {
                &&& output + fee == pair.output_before_fee_x(input_y, current_x)
                &&& fee == pair.fee_of(pair.output_before_fee_x(input_y, current_x))
                &&& output + fee < current_x
            },
            _ => true,
        },
{
    if pair.y_to_x_outcome(input_y, current_x, current_y) is Ok && pair.curve_placed(current_x)
        && input_y > 0 {
        lemma_output_bounded_by_reserve(
            pair.big_k as int,
            pair.current_x_k(current_x),
            input_y as int,
        );
        let out = pair.output_before_fee_x(input_y, current_x);
        if out >= 0 {
            vstd::arithmetic::div_mod::lemma_div_pos_is_pos(
                out * pair.fee_millionth,
                1_000_000,
            );
        }
    }
}

/// A zero input is a no-op in both directions, whatever the reserves, and
/// reads as `(0, 0)`.
pub proof fn lemma_zero_input(pair: SSTradingPair, current_x: u64, current_y: u64)
    ensures
        pair.x_to_y_outcome(0, current_x, current_y) == Ok::<Quote, ObricError>(Quote::NoOp),
        pair.y_to_x_outcome(0, current_x, current_y) == Ok::<Quote, ObricError>(Quote::NoOp),
        Quote::NoOp.pair() == (0u64, 0u64),
{
}

/// Where the curve would pay out at least the whole Y reserve, a trade of X
/// never gets a quote with an output: it reads as `(0, 0)` or fails, and
/// without the lock and with a solvable target it is refused for liquidity.
pub proof fn lemma_liquidity_guard_x_to_y(
    pair: SSTradingPair,
    input_x: u64,
    current_x: u64,
    current_y: u64,
)
    requires
        pair.curve_placed(current_x),
        pair.new_x_k(input_x, current_x) <= u128::MAX,
        pair.output_before_fee_y(input_x, current_x) >= current_y,
    ensures
        match pair.x_to_y_outcome(input_x, current_x, current_y) {
            Ok(q) => q.pair() == (0u64, 0u64),
            Err(_) => true,
        },
        input_x > 0 && !pair.target_y_based_lock && pair.target_solvable(current_x, current_y)
            ==> pair.x_to_y_outcome(input_x, current_x, current_y) == Ok::<Quote, ObricError>(
            Quote::InsufficientLiquidity,
        ),
{
}

/// Where the curve would pay out at least the whole X reserve, a trade of Y
/// never gets a quote with an output: it reads as `(0, 0)` or fails, and
/// without the lock and with a solvable target it is refused for liquidity.
pub proof fn lemma_liquidity_guard_y_to_x(
    pair: SSTradingPair,
    input_y: u64,
    current_x: u64,
    current_y: u64,
)
    requires
        pair.curve_placed(current_x),
        pair.new_y_k(input_y, current_x) <= u128::MAX,
        pair.output_before_fee_x(input_y, current_x) >= current_x,
    ensures
        match pair.y_to_x_outcome(input_y, current_x, current_y) {
            Ok(q) => q.pair() == (0u64, 0u64),
            Err(_) => true,
        },
        input_y > 0 && !pair.target_y_based_lock && pair.target_solvable(current_x, current_y)
            ==> pair.y_to_x_outcome(input_y, current_x, current_y) == Ok::<Quote, ObricError>(
            Quote::InsufficientLiquidity,
        ),
{
}

/// With the lock on, a trade of X that moves the X reserve strictly further
/// from its target is locked out, reading as `(0, 0)`, or fails where the
/// target split cannot be computed.
pub proof fn lemma_lock_monotone_x_to_y(
    pair: SSTradingPair,
    input_x: u64,
    current_x: u64,
    current_y: u64,
)
    requires
        pair.target_y_based_lock,
        current_x + input_x <= u64::MAX,
        dist(current_x + input_x, pair.target_x as int) > dist(
            current_x as int,
            pair.target_x as int,
        ),
    ensures
        pair.target_solvable(current_x, current_y) ==> pair.x_to_y_outcome(
            input_x,
            current_x,
            current_y,
        ) == Ok::<Quote, ObricError>(Quote::Locked),
        !pair.target_solvable(current_x, current_y) ==> pair.x_to_y_outcome(
            input_x,
            current_x,
            current_y,
        ) is Err,
        Quote::Locked.pair() == (0u64, 0u64),
{
}

/// With the lock on, a trade of Y that moves the Y reserve strictly further
/// from its target is locked out, reading as `(0, 0)`, or fails where the
/// target split cannot be computed.
pub proof fn lemma_lock_monotone_y_to_x(
    pair: SSTradingPair,
    input_y: u64,
    current_x: u64,
    current_y: u64,
)
    requires
        pair.target_y_based_lock,
        current_y + input_y <= u64::MAX,
        dist(current_y + input_y, pair.target_y_of(current_x, current_y)) > dist(
            current_y as int,
            pair.target_y_of(current_x, current_y),
        ),
    ensures
        pair.target_solvable(current_x, current_y) ==> pair.y_to_x_outcome(
            input_y,
            current_x,
            current_y,
        ) == Ok::<Quote, ObricError>(Quote::Locked),
        !pair.target_solvable(current_x, current_y) ==> pair.y_to_x_outcome(
            input_y,
            current_x,
            current_y,
        ) is Err,
        Quote::Locked.pair() == (0u64, 0u64),
{
}

} // verus!
