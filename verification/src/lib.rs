//! A small trading library: a linear one-step-ahead price predictor fitted by
//! batch gradient descent, a threshold rule that turns a forecast into a
//! buy/sell/hold signal, and a single-asset backtest that replays the signals
//! over a price series.
//!
//! Every scalar that the market logic touches is an IEEE 754 binary64 value,
//! carried everywhere as its 64-bit encoding (`u64`). The arithmetic itself is
//! performed by the `rustc_apfloat` software implementation of IEEE 754 behind
//! a handful of trusted wrappers in [`fp`]; everything built on top of those
//! wrappers — dataset construction, the training loop, prediction, signal
//! generation, the backtest state machine and model serialization — is
//! verified against exact contracts.

pub mod error;
pub mod fp;
pub mod matrix;
pub mod model;
pub mod strategy;

pub use error::StrategyError;
pub use matrix::Matrix;
pub use model::PricePredictor;
pub use strategy::{BacktestResult, BtState, MLStrategy, Signal, TradeAction};
