use alphaforge::{MLStrategy, PricePredictor, Signal, StrategyError, TradeAction};
use alphaforge::strategy::decide_signal;

fn b(x: f64) -> u64 {
    x.to_bits()
}

fn f(x: u64) -> f64 {
    f64::from_bits(x)
}

fn prices_from(xs: &[f64]) -> Vec<u64> {
    xs.iter().map(|&x| b(x)).collect()
}

/// A strategy whose predictor is set by hand rather than trained.
fn rigged(coefficients: Vec<f64>, intercept: f64, threshold: f64) -> MLStrategy {
    let lookback = coefficients.len();
    MLStrategy {
        predictor: PricePredictor {
            coefficients: coefficients.into_iter().map(b).collect(),
            intercept: b(intercept),
            feature_count: lookback,
        },
        threshold: b(threshold),
        lookback_period: lookback,
    }
}

#[test]
fn test_ml_strategy_train() {
    let prices: Vec<u64> = (0..100).map(|i| b(100.0 + i as f64)).collect();
    let mut strategy = MLStrategy::new(b(0.01), 10);

    let result = strategy.train(&prices);
    assert!(result.is_ok());
}

#[test]
fn test_generate_signal() {
    let prices: Vec<u64> = (0..100).map(|i| b(100.0 + i as f64)).collect();
    let mut strategy = MLStrategy::new(b(0.01), 10);
    strategy.train(&prices).unwrap();

    let recent: Vec<u64> = (90..100).map(|i| b(100.0 + i as f64)).collect();
    let signal = strategy.generate_signal(&recent);
    assert!(signal.is_ok());
}

#[test]
fn test_dataset_builder() {
    // 5 prices, lookback 2: exactly 3 examples, windows in order, the next
    // price as each target.
    let strategy = MLStrategy::new(b(0.01), 2);
    let prices = prices_from(&[1.0, 2.0, 3.0, 4.0, 5.0]);
    let (features, targets) = strategy.prepare_data(&prices).unwrap();

    assert_eq!(features.nrows(), 3);
    assert_eq!(features.ncols(), 2);
    assert_eq!(targets, prices_from(&[3.0, 4.0, 5.0]));
    assert_eq!(features.row(0), &prices_from(&[1.0, 2.0]));
    assert_eq!(features.row(1), &prices_from(&[2.0, 3.0]));
    assert_eq!(features.row(2), &prices_from(&[3.0, 4.0]));
    // the last entry of each window is the price right before the target
    assert_eq!(features.get(2, 1), b(4.0));
}

#[test]
fn test_prepare_data_boundary() {
    let strategy = MLStrategy::new(b(0.01), 2);
    // length lookback: too short
    let short = prices_from(&[1.0, 2.0]);
    assert_eq!(
        strategy.prepare_data(&short).unwrap_err(),
        StrategyError::InsufficientData
    );
    // length lookback + 1: exactly one example
    let exact = prices_from(&[1.0, 2.0, 3.0]);
    let (features, targets) = strategy.prepare_data(&exact).unwrap();
    assert_eq!(features.nrows(), 1);
    assert_eq!(targets, vec![b(3.0)]);
}

#[test]
fn test_train_insufficient_data() {
    let prices = prices_from(&[1.0, 2.0, 3.0]);
    let mut strategy = MLStrategy::new(b(0.01), 10);
    assert_eq!(
        strategy.train(&prices).unwrap_err(),
        StrategyError::InsufficientData
    );
}

#[test]
fn test_signal_boundary() {
    // threshold 0.02; the model forecasts intercept + last price, so the
    // relative change on a window ending at 100 is intercept / 100, exactly.
    let hold_up = rigged(vec![1.0], 2.0, 0.02);
    // forecast 102: a change of exactly +2 percent is inside the dead zone
    assert_eq!(
        hold_up.generate_signal(&prices_from(&[100.0])).unwrap(),
        Signal::Hold
    );

    let buy = rigged(vec![1.0], 2.0001, 0.02);
    // forecast 102.0001: a change of +2.0001 percent is a Buy
    assert_eq!(
        buy.generate_signal(&prices_from(&[100.0])).unwrap(),
        Signal::Buy
    );

    let hold_down = rigged(vec![1.0], -2.0, 0.02);
    // forecast 98: a change of exactly -2 percent is inside the dead zone
    assert_eq!(
        hold_down.generate_signal(&prices_from(&[100.0])).unwrap(),
        Signal::Hold
    );

    let sell = rigged(vec![1.0], -2.0001, 0.02);
    assert_eq!(
        sell.generate_signal(&prices_from(&[100.0])).unwrap(),
        Signal::Sell
    );
}

#[test]
fn test_decide_signal_rule() {
    let t = b(0.02);
    assert_eq!(decide_signal(b(0.03), t), Signal::Buy);
    assert_eq!(decide_signal(b(0.02), t), Signal::Hold);
    assert_eq!(decide_signal(b(0.0), t), Signal::Hold);
    assert_eq!(decide_signal(b(-0.02), t), Signal::Hold);
    assert_eq!(decide_signal(b(-0.03), t), Signal::Sell);
    // a NaN change compares below nothing: Hold
    assert_eq!(decide_signal(b(f64::NAN), t), Signal::Hold);
}

#[test]
fn test_generate_signal_insufficient_history() {
    let strategy = rigged(vec![1.0, 1.0], 0.0, 0.02);
    let result = strategy.generate_signal(&prices_from(&[100.0]));
    assert_eq!(result.unwrap_err(), StrategyError::InsufficientHistory);
}

#[test]
fn test_generate_signal_untrained() {
    let strategy = MLStrategy::new(b(0.02), 2);
    let result = strategy.generate_signal(&prices_from(&[100.0, 101.0]));
    assert_eq!(result.unwrap_err(), StrategyError::FeatureCountMismatch);
}

#[test]
fn test_generate_signal_uses_trailing_window() {
    // The model forecasts the first price of its window; hand it a history
    // longer than the lookback and only the trailing window must matter:
    // window [104, 100], forecast 104, current 100, change +4 percent.
    let strategy = rigged(vec![1.0, 0.0], 0.0, 0.02);
    let recent = prices_from(&[7.0, 9.0, 104.0, 100.0]);
    assert_eq!(strategy.generate_signal(&recent).unwrap(), Signal::Buy);
}

#[test]
fn test_backtest_buy_and_hold() {
    // The model forecasts 5 percent above the last price: always Buy. One
    // buy fires on the first step, then Buy-while-invested does nothing and
    // the terminal liquidation marks the position to market.
    let strategy = rigged(vec![1.05], 0.0, 0.02);
    let prices = prices_from(&[100.0, 100.0, 100.0]);
    let result = strategy.backtest(&prices, b(10000.0));

    assert_eq!(result.initial_capital, b(10000.0));
    assert_eq!(result.num_trades, 1);
    assert_eq!(result.trades, vec![(1, TradeAction::Buy, b(100.0))]);
    // 10000 / 100 = 100 units, closed at 100: exactly 10000 again
    assert_eq!(result.final_value, b(10000.0));
    assert_eq!(result.total_return, b(0.0));
}

#[test]
fn test_backtest_sell_while_flat_does_nothing() {
    // The model forecasts 5 percent below the last price: always Sell, but
    // the portfolio starts flat, so nothing ever happens.
    let strategy = rigged(vec![0.95], 0.0, 0.02);
    let prices = prices_from(&[100.0, 100.0, 100.0]);
    let result = strategy.backtest(&prices, b(10000.0));

    assert_eq!(result.num_trades, 0);
    assert!(result.trades.is_empty());
    assert_eq!(result.final_value, b(10000.0));
    assert_eq!(result.total_return, b(0.0));
}

#[test]
fn test_backtest_trade_sequence_exact() {
    // The model forecasts the first price of its two-price window, so on an
    // alternating series every forecast is the previous-but-one price:
    // Sell while flat (nothing), Buy at 2, Sell at 1 — a 50 percent loss.
    let strategy = rigged(vec![1.0, 0.0], 0.0, 0.02);
    let prices = prices_from(&[1.0, 2.0, 1.0, 2.0, 1.0]);
    let result = strategy.backtest(&prices, b(10000.0));

    assert_eq!(
        result.trades,
        vec![(3, TradeAction::Buy, b(2.0)), (4, TradeAction::Sell, b(1.0))]
    );
    assert_eq!(result.num_trades, 2);
    assert_eq!(result.final_value, b(5000.0));
    assert_eq!(result.total_return, b(-50.0));
}

#[test]
fn test_backtest_short_series() {
    // A series no longer than the lookback window: no steps, no trades.
    let strategy = rigged(vec![1.0], 0.0, 0.02);
    let prices = prices_from(&[100.0]);
    let result = strategy.backtest(&prices, b(500.0));
    assert_eq!(result.num_trades, 0);
    assert_eq!(result.final_value, b(500.0));
}

#[test]
fn test_end_to_end_scenario() {
    // 100 points of a gently trending, oscillating series; train, backtest,
    // and check that the reported outcome is finite and exactly consistent
    // with replaying the logged trades plus the terminal liquidation.
    let prices_f: Vec<f64> = (0..100)
        .map(|i| 100.0 + i as f64 * 0.1 + (i as f64 * 0.1).sin() * 5.0)
        .collect();
    let prices = prices_from(&prices_f);

    let mut strategy = MLStrategy::new(b(0.01), 20);
    strategy.train(&prices).unwrap();
    let result = strategy.backtest(&prices, b(10000.0));

    assert!(f(result.total_return).is_finite());
    assert_eq!(result.num_trades, result.trades.len());

    // replay the ledger in ordinary f64 arithmetic
    let mut cash = 10000.0f64;
    let mut position = 0.0f64;
    let mut last_index = 0usize;
    for &(i, action, price) in &result.trades {
        assert!(i >= last_index);
        assert!(i >= 20 && i < prices.len());
        assert_eq!(price, prices[i]);
        last_index = i;
        match action {
            TradeAction::Buy => {
                assert_eq!(position, 0.0);
                position = cash / f(price);
                cash = 0.0;
            }
            TradeAction::Sell => {
                assert!(position > 0.0);
                cash = position * f(price);
                position = 0.0;
            }
        }
    }
    if position > 0.0 {
        cash = position * prices_f[prices_f.len() - 1];
    }
    assert_eq!(result.final_value, b(cash));
}
