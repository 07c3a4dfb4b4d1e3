use vstd::prelude::*;

verus! {

/// The recoverable failures of the library. Every error is reported to the
/// caller; no operation of the core panics on an input its contract admits.
#[derive(Clone, Copy, Debug, PartialEq, Eq, Structural)]
pub enum StrategyError {
    /// The price series is too short to build a training set from.
    InsufficientData,
    /// The number of feature rows differs from the number of targets.
    DimensionMismatch,
    /// The width of the rows handed to `predict` differs from the width the
    /// model was trained with (or the model is untrained).
    FeatureCountMismatch,
    /// Fewer prices than one lookback window were handed to the signal
    /// generator.
    InsufficientHistory,
    /// A persisted model record is malformed.
    SerializationFailure,
}

impl StrategyError {
    /// A short human-readable name of the error.
    pub fn describe(&self) -> (s: &'static str)
        ensures
            s@.len() > 0,
    {
        match self {
            StrategyError::InsufficientData => {
                proof { reveal_strlit("not enough data for training"); }
                "not enough data for training"
            },
            StrategyError::DimensionMismatch => {
                proof { reveal_strlit("features and targets must have the same length"); }
                "features and targets must have the same length"
            },
            StrategyError::FeatureCountMismatch => {
                proof { reveal_strlit("feature count differs from the trained model"); }
                "feature count differs from the trained model"
            },
            StrategyError::InsufficientHistory => {
                proof { reveal_strlit("not enough price data"); }
                "not enough price data"
            },
            StrategyError::SerializationFailure => {
                proof { reveal_strlit("malformed model record"); }
                "malformed model record"
            },
        }
    }
}

} // verus!
