//! The trading strategy: dataset construction, signal generation and the
//! backtest state machine, all over binary64 encodings.

use vstd::prelude::*;
use crate::error::StrategyError;
use crate::fp::{
    F64_ZERO, F64_HUNDRED, F64_SIGN_MASK, f64_sub, f64_mul, f64_div, f64_lt, f64_eq, f64_neg,
    sub_bits, mul_bits, div_bits, lt_bits, eq_bits, neg_bits,
};
use crate::matrix::Matrix;
use crate::model::{PricePredictor, spec_predict_row, spec_train_iters, TRAIN_ITERATIONS};

verus! {

/// A discrete trading decision.
#[derive(Clone, Copy, Debug, PartialEq, Eq, Structural)]
pub enum Signal {
    Buy,
    Sell,
    Hold,
}

/// The action of one logged trade.
#[derive(Clone, Copy, Debug, PartialEq, Eq, Structural)]
pub enum TradeAction {
    Buy,
    Sell,
}

/// The outcome of one backtest run. Every monetary figure is a binary64
/// encoding.
#[derive(Clone, Debug)]
pub struct BacktestResult {
    pub initial_capital: u64,
    pub final_value: u64,
    pub total_return: u64,
    pub num_trades: usize,
    pub trades: Vec<(usize, TradeAction, u64)>,
}

/// Row `i` of the training features: the window `series[i .. i+lookback)`.
/// Consecutive windows overlap by `lookback - 1` elements, deliberately.
pub open spec fn spec_features(series: Seq<u64>, lookback: int) -> Seq<Seq<u64>> {
    Seq::new((series.len() - lookback) as nat, |i: int| series.subrange(i, i + lookback))
}

/// Target `i` of the training set: the price right after window `i`.
pub open spec fn spec_targets(series: Seq<u64>, lookback: int) -> Seq<u64> {
    Seq::new((series.len() - lookback) as nat, |i: int| series[i + lookback])
}

/// The threshold rule: Buy on a relative change strictly above the
/// threshold, Sell strictly below its negation, Hold inside the dead zone.
pub open spec fn spec_decide(change: u64, threshold: u64) -> Signal {
    if f64_lt(threshold, change) {
        Signal::Buy
    } else if f64_lt(change, f64_neg(threshold)) {
        Signal::Sell
    } else {
        Signal::Hold
    }
}

/// The signal of a strategy on a price history: the model's forecast on the
/// trailing lookback window, taken relative to the last price, thresholded.
pub open spec fn spec_signal(s: MLStrategy, recent: Seq<u64>) -> Signal {
    let window = recent.subrange(recent.len() - s.lookback_period, recent.len() as int);
    let forecast = spec_predict_row(s.predictor.coefficients@, s.predictor.intercept, window);
    let current = recent[recent.len() - 1];
    let change = f64_div(f64_sub(forecast, current), current);
    spec_decide(change, s.threshold)
}

/// A strategy: a predictor, the signal dead-zone half-width (a binary64
/// encoding) and the lookback window length.
#[derive(Clone, Debug)]
pub struct MLStrategy {
    pub predictor: PricePredictor,
    pub threshold: u64,
    pub lookback_period: usize,
}

impl MLStrategy {
    /// Well-formedness: the predictor is well-formed and the lookback window
    /// is at least one price wide.
    pub open spec fn wf(&self) -> bool {
        &&& self.predictor.wf()
        &&& self.lookback_period >= 1
    }

    /// A strategy with an untrained predictor.
    pub fn new(threshold: u64, lookback_period: usize) -> (s: MLStrategy)
        requires
            lookback_period >= 1,
        ensures
            s.threshold == threshold,
            s.lookback_period == lookback_period,
            s.predictor.coefficients@.len() == 0,
            s.predictor.intercept == F64_ZERO,
            s.predictor.feature_count == 0,
            s.wf(),
    {
        MLStrategy { predictor: PricePredictor::new(), threshold, lookback_period }
    }

    /// Slices the price series into supervised training examples: one row
    /// per trailing window, the next price as its target, in increasing
    /// index order, without normalization. Fails with `InsufficientData`
    /// exactly when the series is shorter than `lookback_period + 1`.
    pub fn prepare_data(&self, prices: &Vec<u64>) -> (result: Result<
        (Matrix, Vec<u64>),
        StrategyError,
    >)
        ensures
            match result {
                Ok(ft) => {
                    &&& prices@.len() >= self.lookback_period + 1
                    &&& ft.0.wf()
                    &&& ft.0.spec_cols() == self.lookback_period
                    &&& ft.0@ == spec_features(prices@, self.lookback_period as int)
                    &&& ft.1@ == spec_targets(prices@, self.lookback_period as int)
                },
                Err(e) => {
                    &&& e == StrategyError::InsufficientData
                    &&& prices@.len() < self.lookback_period + 1
                },
            },
    {
        let n = prices.len();
        if n <= self.lookback_period {
            return Err(StrategyError::InsufficientData);
        }
        let num_samples = n - self.lookback_period;
        let mut features = Matrix::new(self.lookback_period);
        let mut targets: Vec<u64> = Vec::new();
        let mut i: usize = 0;
        while i < num_samples
            invariant
                i <= num_samples,
                num_samples == n - self.lookback_period,
                n == prices@.len(),
                n > self.lookback_period,
                features.wf(),
                features.spec_cols() == self.lookback_period,
                features@.len() == i,
                forall|k: int|
                    0 <= k < i ==> #[trigger] features@[k] == prices@.subrange(
                        k,
                        k + self.lookback_period,
                    ),
                targets@.len() == i,
                forall|k: int|
                    0 <= k < i ==> #[trigger] targets@[k] == prices@[k + self.lookback_period],
            decreases num_samples - i,
        {
            let mut row: Vec<u64> = Vec::new();
            let mut j: usize = 0;
            while j < self.lookback_period
                invariant
                    j <= self.lookback_period,
                    i + self.lookback_period <= n,
                    n == prices@.len(),
                    row@.len() == j,
                    forall|t: int| 0 <= t < j ==> #[trigger] row@[t] == prices@[i + t],
                decreases self.lookback_period - j,
            {
                row.push(prices[i + j]);
                j = j + 1;
            }
            proof {
                assert(row@ =~= prices@.subrange(i as int, i + self.lookback_period));
            }
            features.push_row(row);
            targets.push(prices[i + self.lookback_period]);
            i = i + 1;
        }
        proof {
            assert(features@ =~= spec_features(prices@, self.lookback_period as int));
            assert(targets@ =~= spec_targets(prices@, self.lookback_period as int));
        }
        Ok((features, targets))
    }

    /// The single feature row for signal generation: the trailing lookback
    /// window of the given prices, as a one-row matrix.
    fn extract_features(&self, prices: &Vec<u64>) -> (m: Matrix)
        requires
            prices@.len() >= self.lookback_period,
        ensures
            m.wf(),
            m.spec_cols() == self.lookback_period,
            m@.len() == 1,
            m@[0] == prices@.subrange(
                prices@.len() - self.lookback_period,
                prices@.len() as int,
            ),
    {
        let start = prices.len() - self.lookback_period;
        let mut row: Vec<u64> = Vec::new();
        let mut k = start;
        while k < prices.len()
            invariant
                start <= k <= prices@.len(),
                start == prices@.len() - self.lookback_period,
                row@ == prices@.subrange(start as int, k as int),
            decreases prices@.len() - k,
        {
            proof {
                assert(prices@.subrange(start as int, (k + 1) as int) =~= prices@.subrange(
                    start as int,
                    k as int,
                ).push(prices@[k as int]));
            }
            row.push(prices[k]);
            k = k + 1;
        }
        let mut m = Matrix::new(self.lookback_period);
        m.push_row(row);
        m
    }

    /// Builds the dataset from the series and fits the predictor to it.
    /// Fails with `InsufficientData` exactly when the series is shorter than
    /// `lookback_period + 1`, and then leaves the strategy untouched.
    pub fn train(&mut self, prices: &Vec<u64>) -> (result: Result<(), StrategyError>)
        requires
            old(self).wf(),
        ensures
            final(self).threshold == old(self).threshold,
            final(self).lookback_period == old(self).lookback_period,
            final(self).wf(),
            match result {
                Ok(()) => {
                    &&& prices@.len() >= old(self).lookback_period + 1
                    &&& final(self).predictor.feature_count == old(self).lookback_period
                    &&& ((final(self).predictor.coefficients@, final(self).predictor.intercept)
                        == spec_train_iters(
                        spec_features(prices@, old(self).lookback_period as int),
                        spec_targets(prices@, old(self).lookback_period as int),
                        old(self).lookback_period as nat,
                        TRAIN_ITERATIONS as nat,
                    ))
                },
                Err(e) => {
                    &&& e == StrategyError::InsufficientData
                    &&& prices@.len() < old(self).lookback_period + 1
                    &&& *final(self) == *old(self)
                },
            },
    {
        let ft = match self.prepare_data(prices) {
            Ok(v) => v,
            Err(e) => {
                return Err(e);
            },
        };
        let (features, targets) = ft;
        match self.predictor.train(&features, &targets) {
            Ok(()) => Ok(()),
            Err(e) => {
                proof {
                    assert(false);
                }
                Err(e)
            },
        }
    }

    /// The strategy's signal on a price history of at least one lookback
    /// window: the threshold rule on the model's one-step-ahead forecast.
    /// Fails with `InsufficientHistory` exactly when the history is shorter
    /// than the lookback window, and with `FeatureCountMismatch` exactly when
    /// the model was not trained for `lookback_period` features.
    pub fn generate_signal(&self, recent_prices: &Vec<u64>) -> (result: Result<
        Signal,
        StrategyError,
    >)
        requires
            self.wf(),
        ensures
            match result {
                Ok(s) => {
                    &&& recent_prices@.len() >= self.lookback_period
                    &&& self.predictor.feature_count == self.lookback_period
                    &&& s == spec_signal(*self, recent_prices@)
                },
                Err(e) => {
                    ||| (e == StrategyError::InsufficientHistory && recent_prices@.len()
                        < self.lookback_period)
                    ||| (e == StrategyError::FeatureCountMismatch && recent_prices@.len()
                        >= self.lookback_period && self.predictor.feature_count
                        != self.lookback_period)
                },
            },
    {
        if recent_prices.len() < self.lookback_period {
            return Err(StrategyError::InsufficientHistory);
        }
        let features = self.extract_features(recent_prices);
        let prediction = match self.predictor.predict(&features) {
            Ok(p) => p,
            Err(e) => {
                return Err(e);
            },
        };
        let current = recent_prices[recent_prices.len() - 1];
        let forecast = prediction[0];
        let change = div_bits(sub_bits(forecast, current), current);
        Ok(decide_signal(change, self.threshold))
    }
}

/// The threshold rule on a computed relative change. The comparisons are
/// strict on both sides: a change exactly at the threshold (or at its
/// negation) falls in the dead zone's edge and does not trade on that side.
pub fn decide_signal(change: u64, threshold: u64) -> (s: Signal)
    ensures
        s == spec_decide(change, threshold),
        change == threshold ==> s != Signal::Buy,
        change == f64_neg(threshold) ==> s != Signal::Sell,
{
    if lt_bits(threshold, change) {
        Signal::Buy
    } else if lt_bits(change, neg_bits(threshold)) {
        Signal::Sell
    } else {
        Signal::Hold
    }
}

/// The portfolio state of a backtest replay: cash balance, position size
/// (both binary64 encodings) and the trade log so far. Specification-level
/// only; the executable replay carries the same three pieces as locals.
pub struct BtState {
    pub capital: u64,
    pub position: u64,
    pub trades: Seq<(usize, TradeAction, u64)>,
}

/// The signal the backtest sees at step `i`: the strategy's signal on the
/// trailing window `prices[i-lookback .. i)`. A signal-generation failure —
/// here only a model trained for a width other than the lookback — degrades
/// to Hold instead of aborting the replay, a deliberate fail-safe.
pub open spec fn spec_step_signal(s: MLStrategy, prices: Seq<u64>, i: int) -> Signal {
    if s.predictor.feature_count != s.lookback_period {
        Signal::Hold
    } else {
        spec_signal(s, prices.subrange(i - s.lookback_period, i))
    }
}

/// One transition of the backtest state machine at step `i`: all-in on Buy
/// while flat, all-out on Sell while invested, otherwise unchanged. The
/// flat/invested tests are the IEEE comparisons of the position against the
/// zero encoding.
pub open spec fn spec_bt_step(s: MLStrategy, prices: Seq<u64>, i: int, st: BtState) -> BtState {
    let sig = spec_step_signal(s, prices, i);
    let price = prices[i];
    if sig == Signal::Buy && f64_eq(st.position, F64_ZERO) {
        BtState {
            capital: F64_ZERO,
            position: f64_div(st.capital, price),
            trades: st.trades.push((i as usize, TradeAction::Buy, price)),
        }
    } else if sig == Signal::Sell && f64_lt(F64_ZERO, st.position) {
        BtState {
            capital: f64_mul(st.position, price),
            position: F64_ZERO,
            trades: st.trades.push((i as usize, TradeAction::Sell, price)),
        }
    } else {
        st
    }
}

/// Every encoding in the sequence is non-negative: its sign bit is clear.
pub open spec fn all_non_negative(prices: Seq<u64>) -> bool {
    forall|k: int| 0 <= k < prices.len() ==> #[trigger] (prices[k] & F64_SIGN_MASK) == 0
}

/// The replay state after the steps `lookback .. i`: all cash, no position
/// and an empty log before the first step, then one transition per step.
pub open spec fn spec_bt_run(s: MLStrategy, prices: Seq<u64>, initial_capital: u64, i: int) -> BtState
    decreases i,
{
    if i <= s.lookback_period {
        BtState { capital: initial_capital, position: F64_ZERO, trades: Seq::empty() }
    } else {
        spec_bt_step(s, prices, i - 1, spec_bt_run(s, prices, initial_capital, i - 1))
    }
}

impl MLStrategy {
    /// Replays the strategy over the whole series: one signal per step from
    /// `lookback_period` to the end, the all-or-nothing transition rules of
    /// [`spec_bt_step`], and a mark-to-market liquidation at the final price
    /// if still invested (not logged as a trade). Returns the initial
    /// capital, the final value, the total return as a percentage, and the
    /// chronological trade log.
    pub fn backtest(&self, prices: &Vec<u64>, initial_capital: u64) -> (r: BacktestResult)
        requires
            self.wf(),
        ensures
            ({
                let st = spec_bt_run(*self, prices@, initial_capital, prices@.len() as int);
                let invested = f64_lt(F64_ZERO, st.position);
                let fv = if invested {
                    f64_mul(st.position, prices@[prices@.len() - 1])
                } else {
                    st.capital
                };
                &&& r.initial_capital == initial_capital
                &&& r.final_value == fv
                &&& r.total_return == f64_mul(
                    f64_div(f64_sub(fv, initial_capital), initial_capital),
                    F64_HUNDRED,
                )
                &&& r.trades@ == st.trades
                &&& r.num_trades == st.trades.len()
                &&& (initial_capital & F64_SIGN_MASK) == 0 && all_non_negative(prices@)
                    ==> (r.final_value & F64_SIGN_MASK) == 0
            }),
    {
        proof {
            assert(0u64 & 0x8000_0000_0000_0000u64 == 0u64) by (bit_vector);
        }
        let mut capital = initial_capital;
        let mut position: u64 = F64_ZERO;
        let mut trades: Vec<(usize, TradeAction, u64)> = Vec::new();
        let mut i: usize = self.lookback_period;
        while i < prices.len()
            invariant
                (F64_ZERO & F64_SIGN_MASK) == 0,
                self.wf(),
                self.lookback_period <= i,
                i == self.lookback_period || i <= prices@.len(),
                ({
                    let st = spec_bt_run(*self, prices@, initial_capital, i as int);
                    capital == st.capital && position == st.position && trades@ == st.trades
                }),
                position != F64_ZERO ==> self.lookback_period < prices@.len(),
                (initial_capital & F64_SIGN_MASK) == 0 && all_non_negative(prices@) ==> ((capital
                    & F64_SIGN_MASK) == 0 && (position & F64_SIGN_MASK) == 0),
            decreases prices@.len() - i,
        {
            let ghost pre = spec_bt_run(*self, prices@, initial_capital, i as int);
            let start = i - self.lookback_period;
            let mut window: Vec<u64> = Vec::new();
            let mut k = start;
            while k < i
                invariant
                    start <= k <= i,
                    i <= prices@.len(),
                    start == i - self.lookback_period,
                    window@ == prices@.subrange(start as int, k as int),
                decreases i - k,
            {
                proof {
                    assert(prices@.subrange(start as int, (k + 1) as int) =~= prices@.subrange(
                        start as int,
                        k as int,
                    ).push(prices@[k as int]));
                }
                window.push(prices[k]);
                k = k + 1;
            }
            let sig = match self.generate_signal(&window) {
                Ok(s) => s,
                Err(_) => Signal::Hold,
            };
            proof {
                if self.predictor.feature_count == self.lookback_period {
                    let w = prices@.subrange(i - self.lookback_period, i as int);
                    assert(w.subrange(
                        w.len() - self.lookback_period,
                        w.len() as int,
                    ) =~= w);
                }
                assert(sig == spec_step_signal(*self, prices@, i as int));
            }
            let price = prices[i];
            match sig {
                Signal::Buy => {
                    if eq_bits(position, F64_ZERO) {
                        position = div_bits(capital, price);
                        capital = F64_ZERO;
                        trades.push((i, TradeAction::Buy, price));
                    }
                },
                Signal::Sell => {
                    if lt_bits(F64_ZERO, position) {
                        capital = mul_bits(position, price);
                        position = F64_ZERO;
                        trades.push((i, TradeAction::Sell, price));
                    }
                },
                Signal::Hold => {},
            }
            proof {
                let post = spec_bt_step(*self, prices@, i as int, pre);
                assert(spec_bt_run(*self, prices@, initial_capital, (i + 1) as int) == post);
                assert(trades@ =~= post.trades);
            }
            i = i + 1;
        }
        proof {
            if i != prices@.len() {
                assert(prices@.len() <= self.lookback_period);
                assert(spec_bt_run(*self, prices@, initial_capital, prices@.len() as int)
                    == spec_bt_run(*self, prices@, initial_capital, i as int));
            }
        }
        let invested = lt_bits(F64_ZERO, position);
        let final_value = if invested {
            mul_bits(position, prices[prices.len() - 1])
        } else {
            capital
        };
        let total_return = mul_bits(
            div_bits(sub_bits(final_value, initial_capital), initial_capital),
            F64_HUNDRED,
        );
        let num_trades = trades.len();
        BacktestResult { initial_capital, final_value, total_return, num_trades, trades }
    }
}

/// Law: the replay is all-or-nothing. After any number of steps of a
/// backtest run, at least one side of the portfolio — the position or the
/// cash balance — is exactly the zero encoding: the state is never partly
/// cash and partly position.
pub proof fn lemma_backtest_single_side(
    s: MLStrategy,
    prices: Seq<u64>,
    initial_capital: u64,
    i: int,
)
    ensures
        ({
            let st = spec_bt_run(s, prices, initial_capital, i);
            st.position == F64_ZERO || st.capital == F64_ZERO
        }),
    decreases i,
{
    if i > s.lookback_period {
        lemma_backtest_single_side(s, prices, initial_capital, i - 1);
    }
}

/// Law: the trade log is chronological and marked to market. After any
/// number of steps of a backtest run, every logged trade lies at a step
/// inside the replayed range, records exactly the price of its step, and the
/// logged step indices are strictly increasing.
pub proof fn lemma_backtest_trade_log(
    s: MLStrategy,
    prices: Seq<u64>,
    initial_capital: u64,
    i: int,
)
    requires
        i <= usize::MAX,
    ensures
        ({
            let st = spec_bt_run(s, prices, initial_capital, i);
            &&& forall|t: int|
                0 <= t < st.trades.len() ==> s.lookback_period <= (#[trigger] st.trades[t]).0 < i
                    && st.trades[t].2 == prices[st.trades[t].0 as int]
            &&& forall|t1: int, t2: int|
                0 <= t1 < t2 < st.trades.len() ==> (#[trigger] st.trades[t1]).0 < (
                #[trigger] st.trades[t2]).0
        }),
    decreases i,
{
    if i > s.lookback_period {
        lemma_backtest_trade_log(s, prices, initial_capital, i - 1);
        let pre = spec_bt_run(s, prices, initial_capital, i - 1);
        let post = spec_bt_run(s, prices, initial_capital, i);
        assert(((i - 1) as usize) as int == i - 1);
        assert(post.trades == pre.trades || post.trades == pre.trades.push(
            (((i - 1) as usize, TradeAction::Buy, prices[i - 1])),
        ) || post.trades == pre.trades.push(
            (((i - 1) as usize, TradeAction::Sell, prices[i - 1])),
        ));
    }
}

/// Law: the dataset builder emits one example per window. For a series of
/// length `n >= lookback + 1` there are exactly `n - lookback` rows and
/// targets; row `i` is the window `series[i .. i+lookback)`, its last entry
/// is `series[i + lookback - 1]`, and target `i` is `series[i + lookback]`.
pub proof fn lemma_dataset_shape(series: Seq<u64>, lookback: int)
    requires
        1 <= lookback,
        series.len() >= lookback + 1,
    ensures
        spec_features(series, lookback).len() == series.len() - lookback,
        spec_targets(series, lookback).len() == series.len() - lookback,
        forall|i: int|
            0 <= i < series.len() - lookback ==> #[trigger] spec_features(series, lookback)[i]
                == series.subrange(i, i + lookback),
        forall|i: int|
            0 <= i < series.len() - lookback ==> #[trigger] spec_features(series, lookback)[i][lookback
                - 1] == series[i + lookback - 1],
        forall|i: int|
            0 <= i < series.len() - lookback ==> #[trigger] spec_targets(series, lookback)[i]
                == series[i + lookback],
{
    assert forall|i: int| 0 <= i < series.len() - lookback implies #[trigger] spec_features(
        series,
        lookback,
    )[i][lookback - 1] == series[i + lookback - 1] by {
        assert(spec_features(series, lookback)[i] == series.subrange(i, i + lookback));
    };
}

} // verus!
