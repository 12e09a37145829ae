use crate::error::ObricError;
use crate::math::{
    abs_diff, dist, floor_sqrt, lemma_output_bounded_by_reserve, lemma_wide_product, sqrt_floor,
    ten_pow,
};
use vstd::arithmetic::power::pow;
use vstd::prelude::*;

verus! {

/// Denominator of `fee_millionth`.
pub const MILLION: u64 = 1_000_000;

/// Pool state read by the pricing engine.
#[derive(Clone, Copy, Debug, Default, PartialEq, Eq, Structural)]
pub struct SSTradingPair {
    /// Value of one raw unit of X, on the basis shared with `mult_y`.
    pub mult_x: u64,
    /// Value of one raw unit of Y, on the basis shared with `mult_x`.
    pub mult_y: u64,
    /// Fee rate in parts per million of the pre-fee output.
    pub fee_millionth: u64,
    /// Invariant constant of the curve in curve space.
    pub big_k: u128,
    /// Configured target reserve of X, in raw units.
    pub target_x: u64,
    /// Only trades that bring the reserve closer to its target are quoted.
    pub target_y_based_lock: bool,
}

/// Outcome of a quote that did not fail.
#[derive(Clone, Copy, Debug, PartialEq, Eq, Structural)]
pub enum Quote {
    /// The input amount was zero.
    NoOp,
    /// The curve would drain at least the whole reserve on the output side.
    InsufficientLiquidity,
    /// The directional lock refused a trade that moves away from the target.
    Locked,
    /// Output paid to the trader and fee kept by the pool.
    Quoted { output: u64, fee: u64 },
}

impl Quote {
    /// The `(output, fee)` pair; `(0, 0)` for every outcome without a trade.
    pub open spec fn pair(self) -> (u64, u64) {
        match self {
            Quote::Quoted { output, fee } => (output, fee),
            _ => (0, 0),
        }
    }

    /// The `(output, fee)` pair; `(0, 0)` for every outcome without a trade.
    pub fn amounts(&self) -> (r: (u64, u64))
        ensures
            r == self.pair(),
    {
        match self {
            Quote::Quoted { output, fee } => (*output, *fee),
            _ => (0, 0),
        }
    }
}

/// Factor applied to the price of the asset with `own` decimals so that both
/// prices stand on the basis of the larger number of decimals.
pub open spec fn decimal_scale(own: u8, other: u8) -> int {
    if other > own {
        pow(10, (other - own) as nat)
    } else {
        1
    }
}

/// The multipliers `update_price` sets, if they fit.
pub open spec fn scaled_prices(price_x: u64, price_y: u64, x_decimals: u8, y_decimals: u8) -> (int, int) {
    (
        price_x * decimal_scale(x_decimals, y_decimals),
        price_y * decimal_scale(y_decimals, x_decimals),
    )
}

/// `update_price` succeeds: both scale factors and both products fit in 64 bits.
pub open spec fn prices_fit(price_x: u64, price_y: u64, x_decimals: u8, y_decimals: u8) -> bool {
    let (mx, my) = scaled_prices(price_x, price_y, x_decimals, y_decimals);
    decimal_scale(x_decimals, y_decimals) <= u64::MAX && decimal_scale(y_decimals, x_decimals)
        <= u64::MAX && mx <= u64::MAX && my <= u64::MAX
}

impl SSTradingPair {
    /// Total value of the reserves on the common basis.
    pub open spec fn value_total(self, current_x: u64, current_y: u64) -> int {
        current_x * self.mult_x + current_y * self.mult_y
    }

    /// Value of the configured target reserve of X.
    pub open spec fn target_x_value(self) -> int {
        self.target_x * self.mult_x
    }

    /// Reserve of Y that, beside `target_x`, keeps the total value (rounded down).
    pub open spec fn target_y_of(self, current_x: u64, current_y: u64) -> int {
        (self.value_total(current_x, current_y) - self.target_x_value()) / (self.mult_y as int)
    }

    /// The target split can be computed within 128-bit intermediates and its
    /// Y part fits in 64 bits.
    pub open spec fn target_solvable(self, current_x: u64, current_y: u64) -> bool {
        &&& self.mult_y > 0
        &&& self.value_total(current_x, current_y) <= u128::MAX
        &&& self.target_x_value() <= self.value_total(current_x, current_y)
        &&& self.target_y_of(current_x, current_y) <= u64::MAX
    }

    /// Sets the multipliers from two oracle prices, scaling the price of the
    /// asset with fewer decimals by ten to the difference. On failure the
    /// state is left as it was.
    pub fn update_price(&mut self, price_x: u64, price_y: u64, x_decimals: u8, y_decimals: u8) -> (r:
        Result<(), ObricError>)
        ensures
            prices_fit(price_x, price_y, x_decimals, y_decimals) <==> r is Ok,
            r is Ok ==> *final(self) == (SSTradingPair {
                mult_x: scaled_prices(price_x, price_y, x_decimals, y_decimals).0 as u64,
                mult_y: scaled_prices(price_x, price_y, x_decimals, y_decimals).1 as u64,
                ..*old(self)
            }),
            r is Err ==> *final(self) == *old(self),
    {
        let (x_deci_mult, y_deci_mult): (Option<u64>, Option<u64>) = if x_decimals > y_decimals {
            (Some(1u64), ten_pow((x_decimals - y_decimals) as usize))
        } else if y_decimals > x_decimals {
            (ten_pow((y_decimals - x_decimals) as usize), Some(1u64))
        } else {
            (Some(1u64), Some(1u64))
        };
        let x_deci_mult: u64 = match x_deci_mult {
            Some(m) => m,
            None => return Err(ObricError::NumOverflowing),
        };
        let y_deci_mult: u64 = match y_deci_mult {
            Some(m) => m,
            None => return Err(ObricError::NumOverflowing),
        };
        let mult_x: u64 = match price_x.checked_mul(x_deci_mult) {
            Some(v) => v,
            None => return Err(ObricError::NumOverflowing),
        };
        let mult_y: u64 = match price_y.checked_mul(y_deci_mult) {
            Some(v) => v,
            None => return Err(ObricError::NumOverflowing),
        };
        self.mult_x = mult_x;
        self.mult_y = mult_y;
        Ok(())
    }

    /// Target split of the reserves: `target_x` as configured, and the Y
    /// reserve that keeps the total value, rounded down.
    pub fn get_target_xy(&self, current_x: u64, current_y: u64) -> (r: Result<(u64, u64), ObricError>)
        ensures
            self.target_solvable(current_x, current_y) <==> r is Ok,
            r is Ok ==> r == Ok::<(u64, u64), ObricError>(
                (self.target_x, self.target_y_of(current_x, current_y) as u64),
            ),
    {
        proof {
            lemma_wide_product(current_x, self.mult_x);
            lemma_wide_product(current_y, self.mult_y);
            lemma_wide_product(self.target_x, self.mult_x);
        }
        let value_x: u128 = current_x as u128 * self.mult_x as u128;
        let value_y: u128 = current_y as u128 * self.mult_y as u128;
        let value_total: u128 = match value_x.checked_add(value_y) {
            Some(v) => v,
            None => return Err(ObricError::NumOverflowing),
        };
        let target_x: u64 = self.target_x;
        let target_x_value: u128 = target_x as u128 * self.mult_x as u128;
        let target_y_value: u128 = match value_total.checked_sub(target_x_value) {
            Some(v) => v,
            None => return Err(ObricError::NumOverflowing),
        };
        let target_y: u128 = match target_y_value.checked_div(self.mult_y as u128) {
            Some(v) => v,
            None => return Err(ObricError::NumOverflowing),
        };
        if target_y > u64::MAX as u128 {
            return Err(ObricError::NumOverflowing);
        }
        Ok((target_x, target_y as u64))
    }

    /// X coordinate in curve space of the target point: the floor of
    /// `sqrt(big_k * mult_y / mult_x)`.
    pub open spec fn target_x_k(self) -> int {
        floor_sqrt((self.big_k * self.mult_y / (self.mult_x as int)) as nat) as int
    }

    /// Current X reserve moved into curve space, so that the target reserve
    /// lands on the target point.
    pub open spec fn current_x_k(self, current_x: u64) -> int {
        self.target_x_k() - self.target_x + current_x
    }

    /// Current Y coordinate on the curve: `big_k / current_x_k`, rounded down.
    pub open spec fn current_y_k(self, current_x: u64) -> int {
        (self.big_k as int) / self.current_x_k(current_x)
    }

    /// The current point on the curve can be placed: every step fits in 128
    /// bits, no division is by zero, and the target point does not lie left of
    /// the target reserve.
    pub open spec fn curve_placed(self, current_x: u64) -> bool {
        &&& self.big_k * self.mult_y <= u128::MAX
        &&& self.mult_x > 0
        &&& self.target_x <= self.target_x_k()
        &&& 0 < self.current_x_k(current_x) <= u128::MAX
    }

    /// Curve-space X after `input_x` of X comes in.
    pub open spec fn new_x_k(self, input_x: u64, current_x: u64) -> int {
        self.current_x_k(current_x) + input_x
    }

    /// Curve-space Y after `input_x` of X comes in.
    pub open spec fn new_y_k_after_x(self, input_x: u64, current_x: u64) -> int {
        (self.big_k as int) / self.new_x_k(input_x, current_x)
    }

    /// Y paid out before the fee when `input_x` of X comes in.
    pub open spec fn output_before_fee_y(self, input_x: u64, current_x: u64) -> int {
        self.current_y_k(current_x) - self.new_y_k_after_x(input_x, current_x)
    }

    /// Curve-space Y after `input_y` of Y comes in.
    pub open spec fn new_y_k(self, input_y: u64, current_x: u64) -> int {
        self.current_y_k(current_x) + input_y
    }

    /// Curve-space X after `input_y` of Y comes in.
    pub open spec fn new_x_k_after_y(self, input_y: u64, current_x: u64) -> int {
        (self.big_k as int) / self.new_y_k(input_y, current_x)
    }

    /// X paid out before the fee when `input_y` of Y comes in.
    pub open spec fn output_before_fee_x(self, input_y: u64, current_x: u64) -> int {
        self.current_x_k(current_x) - self.new_x_k_after_y(input_y, current_x)
    }

    /// Fee on a pre-fee output, rounded down.
    pub open spec fn fee_of(self, output_before_fee: int) -> int {
        output_before_fee * self.fee_millionth / (MILLION as int)
    }

    /// Splits a pre-fee output into what the trader gets and the fee.
    pub open spec fn fee_outcome(self, output_before_fee: int) -> Result<Quote, ObricError> {
        if output_before_fee * self.fee_millionth > u64::MAX {
            Err(ObricError::NumOverflowing)
        } else if self.fee_of(output_before_fee) > output_before_fee {
            Err(ObricError::NumOverflowing)
        } else {
            Ok(
                Quote::Quoted {
                    output: (output_before_fee - self.fee_of(output_before_fee)) as u64,
                    fee: self.fee_of(output_before_fee) as u64,
                },
            )
        }
    }

    /// Outcome of a trade of `input_x` of X for Y.
    pub open spec fn x_to_y_outcome(self, input_x: u64, current_x: u64, current_y: u64) -> Result<
        Quote,
        ObricError,
    > {
        if input_x == 0 {
            Ok(Quote::NoOp)
        } else if !self.target_solvable(current_x, current_y) {
            Err(ObricError::NumOverflowing)
        } else if self.target_y_based_lock && current_x + input_x > u64::MAX {
            Err(ObricError::NumOverflowing)
        } else if self.target_y_based_lock && !(dist(current_x + input_x, self.target_x as int)
            < dist(current_x as int, self.target_x as int)) {
            Ok(Quote::Locked)
        } else if !self.curve_placed(current_x) || self.new_x_k(input_x, current_x) > u128::MAX {
            Err(ObricError::NumOverflowing)
        } else if self.output_before_fee_y(input_x, current_x) >= current_y {
            Ok(Quote::InsufficientLiquidity)
        } else {
            self.fee_outcome(self.output_before_fee_y(input_x, current_x))
        }
    }

    /// Outcome of a trade of `input_y` of Y for X.
    pub open spec fn y_to_x_outcome(self, input_y: u64, current_x: u64, current_y: u64) -> Result<
        Quote,
        ObricError,
    > {
        let target_y = self.target_y_of(current_x, current_y);
        if input_y == 0 {
            Ok(Quote::NoOp)
        } else if !self.target_solvable(current_x, current_y) {
            Err(ObricError::NumOverflowing)
        } else if self.target_y_based_lock && current_y + input_y > u64::MAX {
            Err(ObricError::NumOverflowing)
        } else if self.target_y_based_lock && !(dist(current_y + input_y, target_y) < dist(
            current_y as int,
            target_y,
        )) {
            Ok(Quote::Locked)
        } else if !self.curve_placed(current_x) || self.new_y_k(input_y, current_x) > u128::MAX {
            Err(ObricError::NumOverflowing)
        } else if self.output_before_fee_x(input_y, current_x) >= current_x {
            Ok(Quote::InsufficientLiquidity)
        } else {
            self.fee_outcome(self.output_before_fee_x(input_y, current_x))
        }
    }

    /// Places the current reserve of X in curve space.
    fn checked_current_x_k(&self, current_x: u64) -> (r: Result<u128, ObricError>)
        ensures
            self.curve_placed(current_x) <==> r is Ok,
            r is Ok ==> r == Ok::<u128, ObricError>(self.current_x_k(current_x) as u128),
    {
        let scaled_k: u128 = match self.big_k.checked_mul(self.mult_y as u128) {
            Some(v) => v,
            None => return Err(ObricError::NumOverflowing),
        };
        let ratio: u128 = match scaled_k.checked_div(self.mult_x as u128) {
            Some(v) => v,
            None => return Err(ObricError::NumOverflowing),
        };
        let target_x_k: u128 = sqrt_floor(ratio);
        if target_x_k < self.target_x as u128 {
            return Err(ObricError::NumOverflowing);
        }
        let current_x_k: u128 = match (target_x_k - self.target_x as u128).checked_add(
            current_x as u128,
        ) {
            Some(v) => v,
            None => return Err(ObricError::NumOverflowing),
        };
        if current_x_k == 0 {
            return Err(ObricError::NumOverflowing);
        }
        Ok(current_x_k)
    }

    /// Takes the fee off a pre-fee output.
    fn apply_fee(&self, output_before_fee: u64) -> (r: Result<Quote, ObricError>)
        ensures
            r == self.fee_outcome(output_before_fee as int),
    {
        let fee: u64 = match output_before_fee.checked_mul(self.fee_millionth) {
            Some(v) => v / MILLION,
            None => return Err(ObricError::NumOverflowing),
        };
        match output_before_fee.checked_sub(fee) {
            Some(output) => Ok(Quote::Quoted { output, fee }),
            None => Err(ObricError::NumOverflowing),
        }
    }

    /// Quotes a trade of `input_x` of X for Y against the curve.
    pub fn quote_x_to_y(&self, input_x: u64, current_x: u64, current_y: u64) -> (r: Result<
        Quote,
        ObricError,
    >)
        ensures
            r == self.x_to_y_outcome(input_x, current_x, current_y),
    {
        if input_x == 0 {
            return Ok(Quote::NoOp);
        }
        let (target_x, _target_y): (u64, u64) = self.get_target_xy(current_x, current_y)?;
        if self.target_y_based_lock {
            let moved: u64 = match current_x.checked_add(input_x) {
                Some(v) => v,
                None => return Err(ObricError::NumOverflowing),
            };
            let allow_swap: bool = abs_diff(moved, target_x)? < abs_diff(current_x, target_x)?;
            if !allow_swap {
                return Ok(Quote::Locked);
            }
        }
        let big_k: u128 = self.big_k;
        let current_x_k: u128 = self.checked_current_x_k(current_x)?;
        let current_y_k: u128 = big_k / current_x_k;
        let new_x_k: u128 = match current_x_k.checked_add(input_x as u128) {
            Some(v) => v,
            None => return Err(ObricError::NumOverflowing),
        };
        let new_y_k: u128 = big_k / new_x_k;
        proof {
            vstd::arithmetic::div_mod::lemma_div_is_ordered_by_denominator(
                big_k as int,
                current_x_k as int,
                new_x_k as int,
            );
        }
        let output_before_fee_y: u128 = current_y_k - new_y_k;
        if output_before_fee_y >= current_y as u128 {
            return Ok(Quote::InsufficientLiquidity);
        }
        self.apply_fee(output_before_fee_y as u64)
    }

    /// Quotes a trade of `input_y` of Y for X against the curve.
    pub fn quote_y_to_x(&self, input_y: u64, current_x: u64, current_y: u64) -> (r: Result<
        Quote,
        ObricError,
    >)
        ensures
            r == self.y_to_x_outcome(input_y, current_x, current_y),
    {
        if input_y == 0 {
            return Ok(Quote::NoOp);
        }
        let (_target_x, target_y): (u64, u64) = self.get_target_xy(current_x, current_y)?;
        if self.target_y_based_lock {
            let moved: u64 = match current_y.checked_add(input_y) {
                Some(v) => v,
                None => return Err(ObricError::NumOverflowing),
            };
            let allow_swap: bool = abs_diff(moved, target_y)? < abs_diff(current_y, target_y)?;
            if !allow_swap {
                return Ok(Quote::Locked);
            }
        }
        let big_k: u128 = self.big_k;
        let current_x_k: u128 = self.checked_current_x_k(current_x)?;
        let current_y_k: u128 = big_k / current_x_k;
        let new_y_k: u128 = match current_y_k.checked_add(input_y as u128) {
            Some(v) => v,
            None => return Err(ObricError::NumOverflowing),
        };
        let new_x_k: u128 = big_k / new_y_k;
        proof {
            lemma_output_bounded_by_reserve(big_k as int, current_x_k as int, input_y as int);
        }
        let output_before_fee_x: u128 = current_x_k - new_x_k;
        if output_before_fee_x >= current_x as u128 {
            return Ok(Quote::InsufficientLiquidity);
        }
        self.apply_fee(output_before_fee_x as u64)
    }
}

} // verus!
