//! Constant-product (x * y = k) pricing for the YES and NO pools.
use vstd::prelude::*;
use crate::prediction_market::constants::MAX_SLIPPAGE_BPS;
use crate::prediction_market::errors::PredictionMarketError;

verus! {

/// `r` is the integer square root of `n`: the largest `r` with `r * r <= n`.
pub open spec fn is_integer_sqrt(n: int, r: int) -> bool {
    &&& 0 <= r
    &&& r * r <= n
    &&& n < (r + 1) * (r + 1)
}

/// The integer square root of `n`.
pub open spec fn spec_isqrt(n: int) -> int {
    choose|r: int| is_integer_sqrt(n, r)
}

/// A natural number has exactly one integer square root.
pub proof fn lemma_integer_sqrt_unique(n: int, r1: int, r2: int)
    requires
        is_integer_sqrt(n, r1),
        is_integer_sqrt(n, r2),
    ensures
        r1 == r2,
{
    if r1 < r2 {
        assert((r1 + 1) * (r1 + 1) <= r2 * r2) by (nonlinear_arith)
            requires
                0 <= r1 + 1 <= r2,
        ;
    }
    if r2 < r1 {
        assert((r2 + 1) * (r2 + 1) <= r1 * r1) by (nonlinear_arith)
            requires
                0 <= r2 + 1 <= r1,
        ;
    }
}

/// Whatever root is found is the integer square root.
pub proof fn lemma_is_spec_isqrt(n: int, r: int)
    requires
        is_integer_sqrt(n, r),
    ensures
        spec_isqrt(n) == r,
{
    lemma_integer_sqrt_unique(n, r, spec_isqrt(n));
}

/// One Newton step `y = (x + n / x) / 2` never lands below the square root.
proof fn lemma_newton_step_stays_above(n: int, x: int)
    requires
        n >= 0,
        x >= 1,
    ensures
        n < ((x + n / x) / 2 + 1) * ((x + n / x) / 2 + 1),
{
    let q = n / x;
    let r = n % x;
    vstd::arithmetic::div_mod::lemma_fundamental_div_mod(n, x);
    assert(0 <= r < x) by {
        vstd::arithmetic::div_mod::lemma_mod_bound(n, x);
    }
    assert(q >= 0) by {
        vstd::arithmetic::div_mod::lemma_div_pos_is_pos(n, x);
    }
    let y = (x + q) / 2;
    assert(2 * (y + 1) >= x + q + 1);
    assert((x + q + 1) * (x + q + 1) == (x - q - 1) * (x - q - 1) + 4 * (q * x + x - 1) + 4)
        by (nonlinear_arith);
    assert((x - q - 1) * (x - q - 1) >= 0) by (nonlinear_arith);
    assert(4 * ((y + 1) * (y + 1)) >= (x + q + 1) * (x + q + 1)) by (nonlinear_arith)
        requires
            2 * (y + 1) >= x + q + 1,
            x + q + 1 >= 0,
    ;
    assert(n <= q * x + x - 1) by (nonlinear_arith)
        requires
            n == x * q + r,
            r < x,
    ;
}

/// Integer square root by Newton's method: the largest `r` with `r * r <= n`.
pub fn integer_sqrt(n: u128) -> (r: u128)
    requires
        n < u128::MAX,
    ensures
        is_integer_sqrt(n as int, r as int),
{
    if n == 0 {
        assert(0u128 * 0u128 == 0u128);
        assert((0int + 1) * (0int + 1) == 1);
        return 0;
    }
    let mut x: u128 = n;
    let mut y: u128 = (x + 1) / 2;
    proof {
        lemma_newton_step_stays_above(n as int, n as int);
        assert(n as int / n as int == 1) by {
            vstd::arithmetic::div_mod::lemma_div_by_self(n as int);
        }
        assert(n < (n + 1) * (n + 1)) by (nonlinear_arith)
            requires
                n >= 1,
        ;
    }
    while y < x
        invariant
            1 <= n < u128::MAX,
            1 <= x <= n,
            x == n || x <= (n + 1) / 2,
            n < (x + 1) * (x + 1),
            y as int == (x as int + n as int / x as int) / 2,
            n < (y + 1) * (y + 1),
        decreases x,
    {
        proof {
            if x == n {
                vstd::arithmetic::div_mod::lemma_div_by_self(n as int);
            }
        }
        assert(y <= (n + 1) / 2);
        x = y;
        assert(x >= 1) by (nonlinear_arith)
            requires
                n >= 1,
                n < (x + 1) * (x + 1),
                x >= 0,
        ;
        assert(n as int / x as int <= x + 2) by {
            assert(n <= x * x + 2 * x) by (nonlinear_arith)
                requires
                    n < (x + 1) * (x + 1),
            ;
            assert(n as int / x as int <= (x * x + 2 * x) / x as int) by {
                vstd::arithmetic::div_mod::lemma_div_is_ordered(n as int, x * x + 2 * x, x as int);
            }
            assert((x * x + 2 * x) / x as int == x + 2) by {
                assert(x * x + 2 * x == (x + 2) * x) by (nonlinear_arith);
                vstd::arithmetic::div_mod::lemma_div_multiples_vanish(x + 2, x as int);
                assert(x as int * (x + 2) == (x + 2) * x) by (nonlinear_arith);
            }
        }
        assert(x + n as int / x as int <= n + 1) by {
            let q = n as int / x as int;
            vstd::arithmetic::div_mod::lemma_fundamental_div_mod(n as int, x as int);
            vstd::arithmetic::div_mod::lemma_mod_bound(n as int, x as int);
            vstd::arithmetic::div_mod::lemma_div_is_ordered(x as int, n as int, x as int);
            vstd::arithmetic::div_mod::lemma_div_by_self(x as int);
            assert(x + q <= n + 1) by (nonlinear_arith)
                requires
                    1 <= x,
                    1 <= q,
                    x * q <= n,
            ;
        }
        y = (x + n / x) / 2;
        proof {
            lemma_newton_step_stays_above(n as int, x as int);
        }
    }
    assert(x * x <= n) by {
        let q = n as int / x as int;
        vstd::arithmetic::div_mod::lemma_fundamental_div_mod(n as int, x as int);
        vstd::arithmetic::div_mod::lemma_mod_bound(n as int, x as int);
        assert(q >= x);
        assert(x * x <= x * q) by (nonlinear_arith)
            requires
                q >= x,
                x >= 1,
        ;
    }
    x
}

/// Bounds of a product of two bounded naturals.
pub proof fn lemma_mul_bounds(a: int, b: int, a_max: int, b_max: int)
    requires
        0 <= a <= a_max,
        0 <= b <= b_max,
    ensures
        0 <= a * b <= a_max * b_max,
{
    assert(0 <= a * b <= a_max * b_max) by (nonlinear_arith)
        requires
            0 <= a <= a_max,
            0 <= b <= b_max,
    ;
}

/// Smallest integer `c` with `c * d >= a`.
pub open spec fn ceil_div(a: int, d: int) -> int {
    (a + d - 1) / d
}

/// The fee charged on `amount` at `fee_bps` basis points, truncated to 64 bits
/// as the stored fee is.
pub open spec fn trade_fee(amount: int, fee_bps: int) -> int {
    ((amount * fee_bps) / 10000) as u64 as int
}

/// What leaves the `reserve_out` pool when `amount_net` enters the
/// `reserve_in` pool: the out-pool is brought down to the smallest value whose
/// product with the grown in-pool still covers `reserve_in * reserve_out`.
pub open spec fn curve_out(amount_net: int, reserve_in: int, reserve_out: int) -> int {
    reserve_out - ceil_div(reserve_in * reserve_out, reserve_in + amount_net)
}

/// Price impact of a trade in basis points: the fraction `amount_net /
/// (reserve_in + amount_net)` by which the curve pays less than the spot price.
pub open spec fn price_impact_bps(amount_net: int, reserve_in: int) -> int {
    (10000 * amount_net) / (reserve_in + amount_net)
}

proof fn lemma_ceil_div(a: int, d: int)
    requires
        a >= 0,
        d > 0,
    ensures
        ceil_div(a, d) >= 0,
        ceil_div(a, d) * d >= a,
        ceil_div(a, d) * d < a + d,
{
    let c = ceil_div(a, d);
    let t = a + d - 1;
    vstd::arithmetic::div_mod::lemma_fundamental_div_mod(t, d);
    vstd::arithmetic::div_mod::lemma_mod_bound(t, d);
    vstd::arithmetic::div_mod::lemma_div_pos_is_pos(t, d);
    assert(c * d == d * c) by (nonlinear_arith);
}

proof fn lemma_ceil_div_at_most(a: int, d: int, m: int)
    requires
        a >= 0,
        d > 0,
        m >= 0,
        a <= d * m,
    ensures
        ceil_div(a, d) <= m,
{
    lemma_ceil_div(a, d);
    let c = ceil_div(a, d);
    if c > m {
        assert(d * c >= d * (m + 1)) by (nonlinear_arith)
            requires
                c >= m + 1,
                d > 0,
        ;
        assert(d * (m + 1) == d * m + d) by (nonlinear_arith);
        assert(c * d == d * c) by (nonlinear_arith);
    }
}

/// The pool never pays out more than it holds, and what stays behind keeps
/// the constant product: `(reserve_in + amount_net) * (reserve_out - out)`
/// is at least `reserve_in * reserve_out`.
pub proof fn lemma_curve_out_keeps_product(amount_net: int, reserve_in: int, reserve_out: int)
    requires
        amount_net >= 0,
        reserve_in > 0,
        reserve_out >= 0,
    ensures
        0 <= curve_out(amount_net, reserve_in, reserve_out) <= reserve_out,
        (reserve_in + amount_net) * (reserve_out - curve_out(amount_net, reserve_in, reserve_out))
            >= reserve_in * reserve_out,
{
    let d = reserve_in + amount_net;
    let k = reserve_in * reserve_out;
    assert(k >= 0) by (nonlinear_arith)
        requires
            k == reserve_in * reserve_out,
            reserve_in > 0,
            reserve_out >= 0,
    ;
    lemma_ceil_div(k, d);
    assert(k <= d * reserve_out) by (nonlinear_arith)
        requires
            d >= reserve_in,
            reserve_out >= 0,
            k == reserve_in * reserve_out,
    ;
    let c = ceil_div(k, d);
    lemma_ceil_div_at_most(k, d, reserve_out);
    assert(d * c >= k) by (nonlinear_arith)
        requires
            c * d >= k,
    ;
}

/// Buying and selling straight back never profits: when `amount` is paid,
/// `net <= amount` of it enters the `reserve_in` pool and the shares bought
/// leave the `reserve_out` pool, selling those shares back into what remains
/// of that pool, against the in-pool grown by `amount`, yields at most
/// `amount` before any sale fee. The buy never empties the out-pool.
pub proof fn law_buy_then_sell_never_profits(net: int, amount: int, reserve_in: int, reserve_out: int)
    requires
        0 <= net <= amount,
        reserve_in > 0,
        reserve_out > 0,
    ensures
        curve_out(net, reserve_in, reserve_out) < reserve_out,
        ({
            let s = curve_out(net, reserve_in, reserve_out);
            curve_out(s, reserve_out - s, reserve_in + amount) <= amount
        }),
{
    let d = reserve_in + net;
    let k = reserve_in * reserve_out;
    lemma_curve_out_keeps_product(net, reserve_in, reserve_out);
    let s = curve_out(net, reserve_in, reserve_out);
    let c = reserve_out - s;
    assert(k > 0) by (nonlinear_arith)
        requires
            k == reserve_in * reserve_out,
            reserve_in > 0,
            reserve_out > 0,
    ;
    lemma_ceil_div(k, d);
    assert(c * d >= k);
    assert(c >= 1) by (nonlinear_arith)
        requires
            c * d >= k,
            k > 0,
            d > 0,
    ;
    assert(s * reserve_in <= net * c) by (nonlinear_arith)
        requires
            c * (reserve_in + net) >= reserve_in * reserve_out,
            s == reserve_out - c,
    ;
    assert(s * (reserve_in + amount) <= amount * reserve_out) by (nonlinear_arith)
        requires
            s * reserve_in <= net * c,
            0 <= net <= amount,
            c >= 0,
            s >= 0,
            s == reserve_out - c,
    ;
    let g = reserve_in + amount;
    let k2 = c * g;
    assert(k2 >= 0) by (nonlinear_arith)
        requires
            k2 == c * g,
            c >= 0,
            g >= 0,
    ;
    lemma_ceil_div(k2, c + s);
    let e = ceil_div(k2, c + s);
    assert((g - e) * reserve_out <= amount * reserve_out) by (nonlinear_arith)
        requires
            e * (c + s) >= k2,
            k2 == c * g,
            c + s == reserve_out,
            s * g <= amount * reserve_out,
    ;
    assert(g - e <= amount) by (nonlinear_arith)
        requires
            (g - e) * reserve_out <= amount * reserve_out,
            reserve_out > 0,
    ;
}

/// The more goes in, the worse the price: a larger trade never gets fewer
/// shares out, and its price impact is never smaller.
pub proof fn law_larger_trade_larger_impact(a: int, b: int, reserve_in: int, reserve_out: int)
    requires
        0 <= a <= b,
        reserve_in > 0,
        reserve_out >= 0,
    ensures
        curve_out(a, reserve_in, reserve_out) <= curve_out(b, reserve_in, reserve_out),
        price_impact_bps(a, reserve_in) <= price_impact_bps(b, reserve_in),
{
    let k = reserve_in * reserve_out;
    assert(k >= 0) by (nonlinear_arith)
        requires
            k == reserve_in * reserve_out,
            reserve_in > 0,
            reserve_out >= 0,
    ;
    let da = reserve_in + a;
    let db = reserve_in + b;
    lemma_ceil_div(k, da);
    let ca = ceil_div(k, da);
    assert(k <= db * ca) by (nonlinear_arith)
        requires
            ca * da >= k,
            db >= da,
            ca >= 0,
    ;
    lemma_ceil_div_at_most(k, db, ca);
    let q1 = (10000 * a) / da;
    let q2 = (10000 * b) / db;
    vstd::arithmetic::div_mod::lemma_fundamental_div_mod(10000 * a, da);
    vstd::arithmetic::div_mod::lemma_mod_bound(10000 * a, da);
    vstd::arithmetic::div_mod::lemma_fundamental_div_mod(10000 * b, db);
    vstd::arithmetic::div_mod::lemma_mod_bound(10000 * b, db);
    assert(q1 <= 10000) by (nonlinear_arith)
        requires
            da * q1 <= 10000 * a,
            a < da,
            da > 0,
    ;
    assert(q1 * db <= 10000 * b) by (nonlinear_arith)
        requires
            da * q1 <= 10000 * a,
            q1 <= 10000,
            q1 >= 0,
            db - da == b - a,
            b >= a,
    ;
    assert(q1 <= q2) by (nonlinear_arith)
        requires
            q1 * db <= 10000 * b,
            10000 * b < db * q2 + db,
            db > 0,
    ;
}

/// The shares a purchase of `amount_in` gets, as `calculate_shares_out`
/// computes them; `None` where it refuses.
pub open spec fn purchase_shares(amount_in: int, reserve_in: int, reserve_out: int, fee_bps: int) -> Option<int> {
    if amount_in <= 0 || reserve_in <= 0 || reserve_out <= 0 || trade_fee(amount_in, fee_bps) > amount_in {
        None
    } else {
        Some(curve_out(amount_in - trade_fee(amount_in, fee_bps), reserve_in, reserve_out))
    }
}

/// The currency a sale of `shares_in` brings, as `calculate_amount_out`
/// computes it; `None` where it refuses.
pub open spec fn sale_proceeds(shares_in: int, reserve_in: int, reserve_out: int, fee_bps: int) -> Option<int> {
    if shares_in <= 0 || reserve_in <= 0 || reserve_out <= 0 || trade_fee(
        curve_out(shares_in, reserve_in, reserve_out),
        fee_bps,
    ) > curve_out(shares_in, reserve_in, reserve_out) {
        None
    } else {
        Some(
            curve_out(shares_in, reserve_in, reserve_out) - trade_fee(
                curve_out(shares_in, reserve_in, reserve_out),
                fee_bps,
            ),
        )
    }
}

/// Selling straight back the shares just bought never returns more than was
/// paid: when a purchase of `amount` on pools `reserve_in`, `reserve_out`
/// gets `s` shares, selling `s` into what remains of the out-pool, against
/// the in-pool grown by `amount`, brings at most `amount`, whatever the
/// sizes.
pub proof fn law_sale_after_purchase_never_profits(amount: int, reserve_in: int, reserve_out: int, fee_bps: int)
    requires
        reserve_in > 0,
        reserve_out > 0,
        0 <= fee_bps,
        purchase_shares(amount, reserve_in, reserve_out, fee_bps) is Some,
    ensures
        ({
            let s = purchase_shares(amount, reserve_in, reserve_out, fee_bps)->Some_0;
            &&& 0 <= s < reserve_out
            &&& sale_proceeds(s, reserve_out - s, reserve_in + amount, fee_bps) matches Some(b) ==> b <= amount
        }),
{
    let fee = trade_fee(amount, fee_bps);
    let net = amount - fee;
    assert(fee >= 0);
    lemma_curve_out_keeps_product(net, reserve_in, reserve_out);
    law_buy_then_sell_never_profits(net, amount, reserve_in, reserve_out);
    let s = curve_out(net, reserve_in, reserve_out);
    let gross = curve_out(s, reserve_out - s, reserve_in + amount);
    assert(trade_fee(gross, fee_bps) >= 0);
}

/// Shares a buyer receives for `amount_in`, with the price impact and fee.
///
/// The fee is taken from the input; the rest enters the `reserve_in` pool and
/// the curve decides what leaves `reserve_out`. Fails on a zero amount, an
/// empty pool, or a fee larger than the amount.
pub fn calculate_shares_out(amount_in: u64, reserve_in: u64, reserve_out: u64, fee_bps: u16) -> (r:
    Result<(u64, u16, u64), PredictionMarketError>)
    ensures
        amount_in == 0 ==> r == Err::<(u64, u16, u64), _>(PredictionMarketError::AmountBelowMinimum),
        amount_in > 0 && (reserve_in == 0 || reserve_out == 0) ==> r == Err::<(u64, u16, u64), _>(
            PredictionMarketError::InsufficientLiquidity,
        ),
        amount_in > 0 && reserve_in > 0 && reserve_out > 0 && trade_fee(amount_in as int, fee_bps as int)
            > amount_in ==> r == Err::<(u64, u16, u64), _>(PredictionMarketError::MathOverflow),
        amount_in > 0 && reserve_in > 0 && reserve_out > 0 && trade_fee(amount_in as int, fee_bps as int)
            <= amount_in ==> ({
            let fee = trade_fee(amount_in as int, fee_bps as int);
            let net = amount_in - fee;
            r == Ok::<(u64, u16, u64), PredictionMarketError>(
                (
                    curve_out(net, reserve_in as int, reserve_out as int) as u64,
                    price_impact_bps(net, reserve_in as int) as u16,
                    fee as u64,
                ),
            )
        }),
        r matches Ok((s, _, _)) ==> purchase_shares(amount_in as int, reserve_in as int, reserve_out as int, fee_bps as int)
            == Some(s as int),
{
    if amount_in == 0 {
        return Err(PredictionMarketError::AmountBelowMinimum);
    }
    if !(reserve_in > 0 && reserve_out > 0) {
        return Err(PredictionMarketError::InsufficientLiquidity);
    }
    proof {
        lemma_mul_bounds(amount_in as int, fee_bps as int, u64::MAX as int, u16::MAX as int);
    }
    let fee_wide: u128 = (amount_in as u128) * (fee_bps as u128) / 10000;
    let fee_amount: u64 = fee_wide as u64;
    if fee_amount > amount_in {
        return Err(PredictionMarketError::MathOverflow);
    }
    let amount_in_after_fee: u64 = amount_in - fee_amount;

    // k = reserve_in * reserve_out; the out-pool is rounded up so k never shrinks
    proof {
        lemma_mul_bounds(reserve_in as int, reserve_out as int, u64::MAX as int, u64::MAX as int);
    }
    let k: u128 = (reserve_in as u128) * (reserve_out as u128);
    let new_reserve_in: u128 = (reserve_in as u128) + (amount_in_after_fee as u128);
    assert(k + new_reserve_in - 1 <= u128::MAX) by (nonlinear_arith)
        requires
            k == reserve_in * reserve_out,
            reserve_in <= u64::MAX,
            reserve_out <= u64::MAX,
            new_reserve_in <= 2 * u64::MAX,
    ;
    let new_reserve_out: u128 = (k + new_reserve_in - 1) / new_reserve_in;
    proof {
        lemma_curve_out_keeps_product(amount_in_after_fee as int, reserve_in as int, reserve_out as int);
    }
    let shares_out: u128 = (reserve_out as u128) - new_reserve_out;

    // price impact: how far below the spot price the curve pays
    assert(10000 * (amount_in_after_fee as int) <= 10000 * u64::MAX);
    let impact: u128 = (10000u128 * (amount_in_after_fee as u128)) / new_reserve_in;
    proof {
        assert(impact < 10000) by {
            assert(10000 * (amount_in_after_fee as int) < 10000 * new_reserve_in) by (nonlinear_arith)
                requires
                    amount_in_after_fee < new_reserve_in,
            ;
            vstd::arithmetic::div_mod::lemma_div_is_ordered(
                10000 * (amount_in_after_fee as int),
                10000 * new_reserve_in - 1,
                new_reserve_in as int,
            );
            vstd::arithmetic::div_mod::lemma_fundamental_div_mod(10000 * new_reserve_in - 1, new_reserve_in as int);
            vstd::arithmetic::div_mod::lemma_mod_bound(10000 * new_reserve_in - 1, new_reserve_in as int);
            assert(((10000 * new_reserve_in - 1) / new_reserve_in as int) < 10000) by (nonlinear_arith)
                requires
                    10000 * new_reserve_in - 1 == new_reserve_in * ((10000 * new_reserve_in - 1)
                        / new_reserve_in as int) + (10000 * new_reserve_in - 1) % new_reserve_in as int,
                    0 <= (10000 * new_reserve_in - 1) % new_reserve_in as int,
                    new_reserve_in > 0,
            ;
        }
    }
    Ok((shares_out as u64, impact as u16, fee_amount))
}

/// Currency a seller receives for `shares_in`, and the fee kept.
///
/// The shares enter the `reserve_in` pool, the curve decides what leaves
/// `reserve_out`, and the fee is taken from that. Fails on a zero amount, an
/// empty pool, or a fee larger than the output.
pub fn calculate_amount_out(shares_in: u64, reserve_in: u64, reserve_out: u64, fee_bps: u16) -> (r:
    Result<(u64, u64), PredictionMarketError>)
    ensures
        shares_in == 0 ==> r == Err::<(u64, u64), _>(PredictionMarketError::AmountBelowMinimum),
        shares_in > 0 && (reserve_in == 0 || reserve_out == 0) ==> r == Err::<(u64, u64), _>(
            PredictionMarketError::InsufficientLiquidity,
        ),
        shares_in > 0 && reserve_in > 0 && reserve_out > 0 ==> ({
            let gross = curve_out(shares_in as int, reserve_in as int, reserve_out as int);
            let fee = trade_fee(gross, fee_bps as int);
            &&& fee > gross ==> r == Err::<(u64, u64), _>(PredictionMarketError::MathOverflow)
            &&& fee <= gross ==> r == Ok::<(u64, u64), PredictionMarketError>(
                ((gross - fee) as u64, fee as u64),
            )
        }),
        r matches Ok((b, _)) ==> sale_proceeds(shares_in as int, reserve_in as int, reserve_out as int, fee_bps as int)
            == Some(b as int),
{
    if shares_in == 0 {
        return Err(PredictionMarketError::AmountBelowMinimum);
    }
    if !(reserve_in > 0 && reserve_out > 0) {
        return Err(PredictionMarketError::InsufficientLiquidity);
    }
    proof {
        lemma_mul_bounds(reserve_in as int, reserve_out as int, u64::MAX as int, u64::MAX as int);
    }
    let k: u128 = (reserve_in as u128) * (reserve_out as u128);
    let new_reserve_in: u128 = (reserve_in as u128) + (shares_in as u128);
    assert(k + new_reserve_in - 1 <= u128::MAX) by (nonlinear_arith)
        requires
            k == reserve_in * reserve_out,
            reserve_in <= u64::MAX,
            reserve_out <= u64::MAX,
            new_reserve_in <= 2 * u64::MAX,
    ;
    let new_reserve_out: u128 = (k + new_reserve_in - 1) / new_reserve_in;
    proof {
        lemma_curve_out_keeps_product(shares_in as int, reserve_in as int, reserve_out as int);
    }
    let amount_out: u128 = (reserve_out as u128) - new_reserve_out;
    let amount_out_u64: u64 = amount_out as u64;
    proof {
        lemma_mul_bounds(amount_out_u64 as int, fee_bps as int, u64::MAX as int, u16::MAX as int);
    }
    let fee_amount: u64 = ((amount_out_u64 as u128) * (fee_bps as u128) / 10000) as u64;
    if fee_amount > amount_out_u64 {
        return Err(PredictionMarketError::MathOverflow);
    }
    Ok((amount_out_u64 - fee_amount, fee_amount))
}

/// Liquidity shares minted for a deposit, and the amounts actually taken.
///
/// The first deposit mints the integer square root of `yes_amount *
/// no_amount`; later deposits mint in proportion to the smaller of the two
/// pool ratios, and take only what that share is worth of each pool.
pub fn calculate_lp_shares(
    yes_amount: u64,
    no_amount: u64,
    yes_reserve: u64,
    no_reserve: u64,
    total_supply: u64,
) -> (r: Result<(u64, u64, u64), PredictionMarketError>)
    ensures
        yes_amount == 0 || no_amount == 0 ==> r == Err::<(u64, u64, u64), _>(
            PredictionMarketError::AmountBelowMinimum,
        ),
        yes_amount > 0 && no_amount > 0 && total_supply == 0 ==> (r matches Ok((lp, y, n)) && is_integer_sqrt(
            yes_amount * no_amount,
            lp as int,
        ) && y == yes_amount && n == no_amount),
        yes_amount > 0 && no_amount > 0 && total_supply > 0 && (yes_reserve == 0 || no_reserve == 0)
            ==> r == Err::<(u64, u64, u64), _>(PredictionMarketError::InsufficientLiquidity),
        yes_amount > 0 && no_amount > 0 && total_supply > 0 && yes_reserve > 0 && no_reserve > 0
            ==> ({
            let lp = lp_shares_for_deposit(yes_amount as int, no_amount as int, yes_reserve as int,
                no_reserve as int, total_supply as int);
            &&& lp == 0 ==> r == Err::<(u64, u64, u64), _>(PredictionMarketError::LiquidityTooLow)
            &&& lp > 0 ==> r == Ok::<(u64, u64, u64), PredictionMarketError>(
                (
                    lp as u64,
                    ((lp * yes_reserve) / (total_supply as int)) as u64,
                    ((lp * no_reserve) / (total_supply as int)) as u64,
                ),
            )
        }),
{
    if !(yes_amount > 0 && no_amount > 0) {
        return Err(PredictionMarketError::AmountBelowMinimum);
    }
    if total_supply == 0 {
        proof {
            lemma_mul_bounds(yes_amount as int, no_amount as int, u64::MAX as int, u64::MAX as int);
        }
        let product: u128 = (yes_amount as u128) * (no_amount as u128);
        assert(product <= u128::MAX - 3) by (nonlinear_arith)
            requires
                product == yes_amount * no_amount,
                yes_amount <= u64::MAX,
                no_amount <= u64::MAX,
        ;
        let lp_shares = integer_sqrt(product);
        proof {
            assert(lp_shares <= u64::MAX) by (nonlinear_arith)
                requires
                    lp_shares * lp_shares <= product,
                    product <= u64::MAX * u64::MAX,
                    lp_shares >= 0,
            ;
        }
        Ok((lp_shares as u64, yes_amount, no_amount))
    } else {
        if !(yes_reserve > 0 && no_reserve > 0) {
            return Err(PredictionMarketError::InsufficientLiquidity);
        }
        proof {
            lemma_mul_bounds(yes_amount as int, total_supply as int, u64::MAX as int, u64::MAX as int);
            lemma_mul_bounds(no_amount as int, total_supply as int, u64::MAX as int, u64::MAX as int);
        }
        let yes_share: u64 = ((yes_amount as u128) * (total_supply as u128) / (yes_reserve as u128)) as u64;
        let no_share: u64 = ((no_amount as u128) * (total_supply as u128) / (no_reserve as u128)) as u64;
        let lp_shares: u64 = if yes_share < no_share {
            yes_share
        } else {
            no_share
        };
        proof {
            lemma_mul_bounds(lp_shares as int, yes_reserve as int, u64::MAX as int, u64::MAX as int);
            lemma_mul_bounds(lp_shares as int, no_reserve as int, u64::MAX as int, u64::MAX as int);
        }
        let yes_amount_actual: u64 = ((lp_shares as u128) * (yes_reserve as u128) / (total_supply as u128)) as u64;
        let no_amount_actual: u64 = ((lp_shares as u128) * (no_reserve as u128) / (total_supply as u128)) as u64;
        if lp_shares == 0 {
            return Err(PredictionMarketError::LiquidityTooLow);
        }
        Ok((lp_shares, yes_amount_actual, no_amount_actual))
    }
}

/// Liquidity shares a later deposit is worth: the smaller of the two pool
/// ratios times the supply, each truncated to 64 bits as stored.
pub open spec fn lp_shares_for_deposit(
    yes_amount: int,
    no_amount: int,
    yes_reserve: int,
    no_reserve: int,
    total_supply: int,
) -> int {
    let yes_share = ((yes_amount * total_supply) / yes_reserve) as u64 as int;
    let no_share = ((no_amount * total_supply) / no_reserve) as u64 as int;
    if yes_share < no_share {
        yes_share
    } else {
        no_share
    }
}

/// A later deposit never takes more than is offered on either side: the
/// shares minted are at most what either side alone would mint, they are
/// what one of the two sides mints, and the amounts taken at the pools'
/// ratio stay within the amounts offered. (Shares within 64 bits on both
/// sides.)
pub proof fn law_deposit_takes_at_most_offered(
    yes_amount: int,
    no_amount: int,
    yes_reserve: int,
    no_reserve: int,
    total_supply: int,
)
    requires
        yes_amount >= 0,
        no_amount >= 0,
        yes_reserve > 0,
        no_reserve > 0,
        total_supply > 0,
        (yes_amount * total_supply) / yes_reserve <= u64::MAX,
        (no_amount * total_supply) / no_reserve <= u64::MAX,
    ensures
        ({
            let lp = lp_shares_for_deposit(yes_amount, no_amount, yes_reserve, no_reserve, total_supply);
            &&& 0 <= lp
            &&& lp <= (yes_amount * total_supply) / yes_reserve
            &&& lp <= (no_amount * total_supply) / no_reserve
            &&& lp == (yes_amount * total_supply) / yes_reserve || lp == (no_amount * total_supply) / no_reserve
            &&& (lp * yes_reserve) / total_supply <= yes_amount
            &&& (lp * no_reserve) / total_supply <= no_amount
        }),
{
    let ys = (yes_amount * total_supply) / yes_reserve;
    let ns = (no_amount * total_supply) / no_reserve;
    assert(yes_amount * total_supply >= 0 && no_amount * total_supply >= 0) by (nonlinear_arith)
        requires
            yes_amount >= 0,
            no_amount >= 0,
            total_supply > 0,
    ;
    vstd::arithmetic::div_mod::lemma_div_pos_is_pos(yes_amount * total_supply, yes_reserve);
    vstd::arithmetic::div_mod::lemma_div_pos_is_pos(no_amount * total_supply, no_reserve);
    assert(ys as u64 as int == ys);
    assert(ns as u64 as int == ns);
    let lp = lp_shares_for_deposit(yes_amount, no_amount, yes_reserve, no_reserve, total_supply);
    lemma_taken_within(lp, yes_amount, yes_reserve, total_supply);
    lemma_taken_within(lp, no_amount, no_reserve, total_supply);
}

/// Shares `lp` at most `amount * supply / reserve` are worth at most
/// `amount` of the pool.
proof fn lemma_taken_within(lp: int, amount: int, reserve: int, supply: int)
    requires
        0 <= lp <= (amount * supply) / reserve,
        amount >= 0,
        reserve > 0,
        supply > 0,
    ensures
        (lp * reserve) / supply <= amount,
{
    vstd::arithmetic::div_mod::lemma_fundamental_div_mod(amount * supply, reserve);
    vstd::arithmetic::div_mod::lemma_mod_bound(amount * supply, reserve);
    let q = (amount * supply) / reserve;
    assert(lp * reserve <= amount * supply) by (nonlinear_arith)
        requires
            0 <= lp <= q,
            reserve > 0,
            amount * supply == reserve * q + (amount * supply) % reserve,
            (amount * supply) % reserve >= 0,
    ;
    vstd::arithmetic::div_mod::lemma_div_is_ordered(lp * reserve, amount * supply, supply);
    assert((amount * supply) / supply == amount) by {
        vstd::arithmetic::div_mod::lemma_div_multiples_vanish(amount, supply);
        assert(amount * supply == supply * amount) by (nonlinear_arith);
    }
}

/// What burning `lp_shares` returns: the same fraction of each pool and of the
/// fees accumulated for liquidity providers.
pub fn calculate_lp_withdrawal(
    lp_shares: u64,
    yes_reserve: u64,
    no_reserve: u64,
    total_supply: u64,
    lp_fees_accumulated: u64,
) -> (r: Result<(u64, u64, u64), PredictionMarketError>)
    ensures
        lp_shares == 0 ==> r == Err::<(u64, u64, u64), _>(PredictionMarketError::InvalidLPShares),
        lp_shares > 0 && total_supply == 0 ==> r == Err::<(u64, u64, u64), _>(
            PredictionMarketError::DivisionByZero,
        ),
        lp_shares > 0 && total_supply > 0 && lp_shares > total_supply ==> r == Err::<(u64, u64, u64), _>(
            PredictionMarketError::InvalidLPShares,
        ),
        0 < lp_shares <= total_supply ==> r == Ok::<(u64, u64, u64), PredictionMarketError>(
            (
                ((lp_shares * yes_reserve) / (total_supply as int)) as u64,
                ((lp_shares * no_reserve) / (total_supply as int)) as u64,
                ((lp_shares * lp_fees_accumulated) / (total_supply as int)) as u64,
            ),
        ),
        r matches Ok((y, n, f)) ==> y <= yes_reserve && n <= no_reserve && f <= lp_fees_accumulated,
{
    if lp_shares == 0 {
        return Err(PredictionMarketError::InvalidLPShares);
    }
    if total_supply == 0 {
        return Err(PredictionMarketError::DivisionByZero);
    }
    if lp_shares > total_supply {
        return Err(PredictionMarketError::InvalidLPShares);
    }
    proof {
        lemma_proportional_part(lp_shares as int, yes_reserve as int, total_supply as int);
        lemma_proportional_part(lp_shares as int, no_reserve as int, total_supply as int);
        lemma_proportional_part(lp_shares as int, lp_fees_accumulated as int, total_supply as int);
    }
    proof {
        lemma_mul_bounds(lp_shares as int, yes_reserve as int, u64::MAX as int, u64::MAX as int);
        lemma_mul_bounds(lp_shares as int, no_reserve as int, u64::MAX as int, u64::MAX as int);
        lemma_mul_bounds(lp_shares as int, lp_fees_accumulated as int, u64::MAX as int, u64::MAX as int);
    }
    let yes_amount: u64 = ((lp_shares as u128) * (yes_reserve as u128) / (total_supply as u128)) as u64;
    let no_amount: u64 = ((lp_shares as u128) * (no_reserve as u128) / (total_supply as u128)) as u64;
    let fees_earned: u64 = ((lp_shares as u128) * (lp_fees_accumulated as u128) / (total_supply as u128)) as u64;
    Ok((yes_amount, no_amount, fees_earned))
}

/// A part `part / whole` of `amount` is at most `amount`, and all of it when
/// the part is the whole.
pub proof fn lemma_proportional_part(part: int, amount: int, whole: int)
    requires
        0 <= part <= whole,
        whole > 0,
        amount >= 0,
    ensures
        0 <= (part * amount) / whole <= amount,
        part == whole ==> (part * amount) / whole == amount,
{
    assert(0 <= part * amount <= whole * amount) by (nonlinear_arith)
        requires
            0 <= part <= whole,
            amount >= 0,
    ;
    vstd::arithmetic::div_mod::lemma_div_is_ordered(part * amount, whole * amount, whole);
    vstd::arithmetic::div_mod::lemma_div_pos_is_pos(part * amount, whole);
    assert(whole * amount == amount * whole) by (nonlinear_arith);
    vstd::arithmetic::div_mod::lemma_div_multiples_vanish(amount, whole);
}

/// Slippage of `actual` below `expected`, in basis points.
pub open spec fn slippage_bps(expected: int, actual: int) -> int {
    if actual < expected {
        ((expected - actual) * 10000) / expected
    } else {
        0
    }
}

/// Accepts `actual` when it falls short of `expected` by at most
/// `max_slippage_bps`; the tolerance itself may not exceed the market cap.
pub fn check_slippage(expected: u64, actual: u64, max_slippage_bps: u16) -> (r: Result<(), PredictionMarketError>)
    ensures
        max_slippage_bps > MAX_SLIPPAGE_BPS ==> r == Err::<(), _>(PredictionMarketError::InvalidSlippage),
        max_slippage_bps <= MAX_SLIPPAGE_BPS && expected == 0 ==> r == Ok::<(), PredictionMarketError>(()),
        max_slippage_bps <= MAX_SLIPPAGE_BPS && expected > 0 ==> (r == if slippage_bps(
            expected as int,
            actual as int,
        ) <= max_slippage_bps {
            Ok::<(), PredictionMarketError>(())
        } else {
            Err(PredictionMarketError::SlippageExceeded)
        }),
{
    if max_slippage_bps > MAX_SLIPPAGE_BPS {
        return Err(PredictionMarketError::InvalidSlippage);
    }
    if expected == 0 {
        return Ok(());
    }
    let slippage: u128 = if actual < expected {
        proof {
            lemma_proportional_part((expected - actual) as int, 10000, expected as int);
            assert((expected - actual) * 10000 == ((expected - actual) as int) * 10000);
        }
        ((expected - actual) as u128) * 10000 / (expected as u128)
    } else {
        0
    };
    if slippage > max_slippage_bps as u128 {
        return Err(PredictionMarketError::SlippageExceeded);
    }
    Ok(())
}

} // verus!
