//! The linear price predictor: `y = w . x + b`, fitted by full-batch gradient
//! descent with a fixed learning rate and a fixed iteration budget.
//!
//! The coefficients, the intercept and every intermediate of training are
//! binary64 encodings. The contracts pin each result down to the exact fold
//! of IEEE operations the algorithm performs, so training is a mathematical
//! function of the inputs: see [`spec_train_iters`].

use vstd::prelude::*;
use crate::error::StrategyError;
use crate::fp::{
    F64_ZERO, F64_ONE, f64_add, f64_sub, f64_mul, f64_div, f64_of_int, add_bits, sub_bits,
    mul_bits, div_bits, usize_to_bits,
};
use crate::matrix::Matrix;

verus! {

/// The binary64 encoding of the fixed learning rate, one hundredth.
pub const LEARNING_RATE_BITS: u64 = 0x3F84_7AE1_47AE_147B;

/// The fixed number of gradient-descent iterations of one training call.
pub const TRAIN_ITERATIONS: usize = 1000;

/// A linear model over binary64 encodings. Created untrained; `train`
/// overwrites the whole parameter set on every call.
#[derive(Clone, Debug)]
pub struct PricePredictor {
    /// One weight per feature column.
    pub coefficients: Vec<u64>,
    /// The constant term of the model.
    pub intercept: u64,
    /// The width of the rows the model was trained with; zero while untrained.
    pub feature_count: usize,
}

/// The dot product of the first `k` entries of `row` and `coeffs`, folded
/// left to right from positive zero, in binary64 arithmetic.
pub open spec fn dot_prefix(row: Seq<u64>, coeffs: Seq<u64>, k: int) -> u64
    decreases k,
{
    if k <= 0 {
        F64_ZERO
    } else {
        f64_add(dot_prefix(row, coeffs, k - 1), f64_mul(row[k - 1], coeffs[k - 1]))
    }
}

/// The model's output on one row: the full dot product plus the intercept.
pub open spec fn spec_predict_row(coeffs: Seq<u64>, intercept: u64, row: Seq<u64>) -> u64 {
    f64_add(dot_prefix(row, coeffs, row.len() as int), intercept)
}

/// The per-row prediction errors of the parameter set `(c, b)` on the dataset
/// `(x, y)`: prediction minus target, row by row.
pub open spec fn spec_errors(x: Seq<Seq<u64>>, y: Seq<u64>, c: Seq<u64>, b: u64) -> Seq<u64> {
    Seq::new(x.len(), |i: int| f64_sub(spec_predict_row(c, b, x[i]), y[i]))
}

/// The fold, over the first `k` rows, of `errs[i] * x[i][j]`: the unscaled
/// gradient of column `j`.
pub open spec fn col_grad_prefix(x: Seq<Seq<u64>>, errs: Seq<u64>, j: int, k: int) -> u64
    decreases k,
{
    if k <= 0 {
        F64_ZERO
    } else {
        f64_add(col_grad_prefix(x, errs, j, k - 1), f64_mul(errs[k - 1], x[k - 1][j]))
    }
}

/// The fold of the first `k` entries of `s`, left to right from positive zero.
pub open spec fn sum_prefix(s: Seq<u64>, k: int) -> u64
    decreases k,
{
    if k <= 0 {
        F64_ZERO
    } else {
        f64_add(sum_prefix(s, k - 1), s[k - 1])
    }
}

/// One simultaneous batch update: every coefficient and the intercept move by
/// the learning rate times their mean gradient, all gradients taken at the
/// same parameter set.
pub open spec fn spec_train_step(x: Seq<Seq<u64>>, y: Seq<u64>, c: Seq<u64>, b: u64) -> (
    Seq<u64>,
    u64,
) {
    let errs = spec_errors(x, y, c, b);
    let nf = f64_of_int(x.len() as int);
    let c2 = Seq::new(
        c.len(),
        |j: int|
            f64_sub(
                c[j],
                f64_mul(
                    LEARNING_RATE_BITS,
                    f64_div(col_grad_prefix(x, errs, j, x.len() as int), nf),
                ),
            ),
    );
    let b2 = f64_sub(
        b,
        f64_mul(LEARNING_RATE_BITS, f64_div(sum_prefix(errs, x.len() as int), nf)),
    );
    (c2, b2)
}

/// The parameter set after `k` batch updates, starting from `cols` zero
/// coefficients and a zero intercept. Training is this function at
/// `k == TRAIN_ITERATIONS`: a mathematical function of the dataset alone.
pub open spec fn spec_train_iters(x: Seq<Seq<u64>>, y: Seq<u64>, cols: nat, k: nat) -> (
    Seq<u64>,
    u64,
)
    decreases k,
{
    if k == 0 {
        (Seq::new(cols, |_j: int| F64_ZERO), F64_ZERO)
    } else {
        let prev = spec_train_iters(x, y, cols, (k - 1) as nat);
        spec_train_step(x, y, prev.0, prev.1)
    }
}

/// The mean of the targets; positive zero when there are none.
pub open spec fn spec_mean(y: Seq<u64>) -> u64 {
    if y.len() == 0 {
        F64_ZERO
    } else {
        f64_div(sum_prefix(y, y.len() as int), f64_of_int(y.len() as int))
    }
}

/// The fold, over the first `k` targets, of the squared deviation from `m`.
pub open spec fn sq_dev_prefix(y: Seq<u64>, m: u64, k: int) -> u64
    decreases k,
{
    if k <= 0 {
        F64_ZERO
    } else {
        let d = f64_sub(y[k - 1], m);
        f64_add(sq_dev_prefix(y, m, k - 1), f64_mul(d, d))
    }
}

/// The fold, over the first `k` rows, of the squared residual `y[i] - p[i]`.
pub open spec fn sq_res_prefix(y: Seq<u64>, p: Seq<u64>, k: int) -> u64
    decreases k,
{
    if k <= 0 {
        F64_ZERO
    } else {
        let d = f64_sub(y[k - 1], p[k - 1]);
        f64_add(sq_res_prefix(y, p, k - 1), f64_mul(d, d))
    }
}

/// The coefficient of determination of the parameter set on the dataset: one
/// minus the ratio of the residual sum of squares to the total sum of squares
/// about the target mean. When every target is equal the denominator is the
/// zero encoding and the ratio is whatever IEEE division yields there (an
/// infinity or a NaN); that raw value is preserved rather than reported as an
/// error, and is meaningful only for non-constant targets.
pub open spec fn spec_r2(x: Seq<Seq<u64>>, y: Seq<u64>, c: Seq<u64>, b: u64) -> u64 {
    let preds = Seq::new(x.len(), |i: int| spec_predict_row(c, b, x[i]));
    let m = spec_mean(y);
    let k = if y.len() <= x.len() {
        y.len() as int
    } else {
        x.len() as int
    };
    f64_sub(F64_ONE, f64_div(sq_res_prefix(y, preds, k), sq_dev_prefix(y, m, y.len() as int)))
}

/// The serialized form of a parameter set: the feature count, the intercept
/// encoding, then the coefficient encodings.
pub open spec fn spec_record(c: Seq<u64>, b: u64, fc: usize) -> Seq<u64> {
    seq![fc as u64, b] + c
}

/// Parses a record. `None` exactly on malformed input: a record shorter than
/// two words, a feature count that does not fit in `usize`, or a length that
/// does not match the feature count.
pub open spec fn spec_parse_record(s: Seq<u64>) -> Option<(Seq<u64>, u64, usize)> {
    if s.len() >= 2 && s[0] <= usize::MAX as u64 && s.len() == 2 + s[0] {
        Some((s.subrange(2, s.len() as int), s[1], s[0] as usize))
    } else {
        None
    }
}

/// One linear-model output: the dot product of `row` and `coeffs`, folded
/// left to right from positive zero, plus the intercept.
fn predict_row_raw(coeffs: &Vec<u64>, intercept: u64, row: &Vec<u64>) -> (p: u64)
    requires
        row@.len() == coeffs@.len(),
    ensures
        p == spec_predict_row(coeffs@, intercept, row@),
{
    let mut acc = F64_ZERO;
    let mut j: usize = 0;
    while j < row.len()
        invariant
            j <= row@.len(),
            row@.len() == coeffs@.len(),
            acc == dot_prefix(row@, coeffs@, j as int),
        decreases row@.len() - j,
    {
        acc = add_bits(acc, mul_bits(row[j], coeffs[j]));
        j = j + 1;
    }
    add_bits(acc, intercept)
}

impl PricePredictor {
    /// Well-formedness: the coefficient vector is as wide as the trained
    /// feature count.
    pub open spec fn wf(&self) -> bool {
        self.coefficients@.len() == self.feature_count
    }

    /// An untrained predictor: no coefficients, zero intercept.
    pub fn new() -> (p: PricePredictor)
        ensures
            p.coefficients@.len() == 0,
            p.intercept == F64_ZERO,
            p.feature_count == 0,
            p.wf(),
    {
        PricePredictor { coefficients: Vec::new(), intercept: F64_ZERO, feature_count: 0 }
    }

    /// The model's output on one row of encodings.
    fn predict_row(&self, row: &Vec<u64>) -> (p: u64)
        requires
            row@.len() == self.coefficients@.len(),
        ensures
            p == spec_predict_row(self.coefficients@, self.intercept, row@),
    {
        predict_row_raw(&self.coefficients, self.intercept, row)
    }

    /// Fits the model to the dataset by `TRAIN_ITERATIONS` simultaneous
    /// batch gradient-descent updates at the fixed learning rate, from a zero
    /// initialization — never warm-started, with no convergence check. Fails
    /// with `DimensionMismatch` exactly when the row count of `features`
    /// differs from the length of `targets`, and then leaves the model
    /// untouched.
    pub fn train(&mut self, features: &Matrix, targets: &Vec<u64>) -> (result: Result<
        (),
        StrategyError,
    >)
        requires
            features.wf(),
        ensures
            match result {
                Ok(()) => {
                    &&& features@.len() == targets@.len()
                    &&& final(self).feature_count == features.spec_cols()
                    &&& ((final(self).coefficients@, final(self).intercept) == spec_train_iters(
                        features@,
                        targets@,
                        features.spec_cols() as nat,
                        TRAIN_ITERATIONS as nat,
                    ))
                    &&& final(self).wf()
                },
                Err(e) => {
                    &&& e == StrategyError::DimensionMismatch
                    &&& features@.len() != targets@.len()
                    &&& *final(self) == *old(self)
                },
            },
    {
        if features.nrows() != targets.len() {
            return Err(StrategyError::DimensionMismatch);
        }
        let ghost x = features@;
        let ghost y = targets@;
        let n = features.nrows();
        let cols = features.ncols();
        let nf = usize_to_bits(n);

        let mut coeffs: Vec<u64> = Vec::new();
        while coeffs.len() < cols
            invariant
                coeffs@.len() <= cols,
                forall|j: int| 0 <= j < coeffs@.len() ==> coeffs@[j] == F64_ZERO,
            decreases cols - coeffs@.len(),
        {
            coeffs.push(F64_ZERO);
        }
        let mut intercept: u64 = F64_ZERO;
        proof {
            assert(coeffs@ =~= Seq::new(cols as nat, |_j: int| F64_ZERO));
        }

        let mut it: usize = 0;
        while it < TRAIN_ITERATIONS
            invariant
                it <= TRAIN_ITERATIONS,
                features.wf(),
                x == features@,
                y == targets@,
                n == x.len(),
                n == y.len(),
                cols == features.spec_cols(),
                nf == f64_of_int(n as int),
                coeffs@.len() == cols,
                ((coeffs@, intercept) == spec_train_iters(x, y, cols as nat, it as nat)),
            decreases TRAIN_ITERATIONS - it,
        {
            let ghost errs = spec_errors(x, y, coeffs@, intercept);

            let mut errors: Vec<u64> = Vec::new();
            let mut i: usize = 0;
            while i < n
                invariant
                    i <= n,
                    features.wf(),
                    x == features@,
                    y == targets@,
                    n == x.len(),
                    n == y.len(),
                    cols == features.spec_cols(),
                    coeffs@.len() == cols,
                    errs == spec_errors(x, y, coeffs@, intercept),
                    errors@.len() == i,
                    forall|k: int| 0 <= k < i ==> errors@[k] == errs[k],
                decreases n - i,
            {
                let p = predict_row_raw(&coeffs, intercept, features.row(i));
                errors.push(sub_bits(p, targets[i]));
                i = i + 1;
            }
            proof {
                assert(errors@ =~= errs);
            }

            let mut new_coeffs: Vec<u64> = Vec::new();
            let mut j: usize = 0;
            while j < cols
                invariant
                    j <= cols,
                    features.wf(),
                    x == features@,
                    n == x.len(),
                    cols == features.spec_cols(),
                    coeffs@.len() == cols,
                    nf == f64_of_int(n as int),
                    errors@ == errs,
                    errors@.len() == n,
                    new_coeffs@.len() == j,
                    forall|jj: int|
                        0 <= jj < j ==> new_coeffs@[jj] == f64_sub(
                            coeffs@[jj],
                            f64_mul(
                                LEARNING_RATE_BITS,
                                f64_div(col_grad_prefix(x, errs, jj, n as int), nf),
                            ),
                        ),
                decreases cols - j,
            {
                let mut acc: u64 = F64_ZERO;
                let mut i2: usize = 0;
                while i2 < n
                    invariant
                        i2 <= n,
                        features.wf(),
                        x == features@,
                        n == x.len(),
                        cols == features.spec_cols(),
                        j < cols,
                        errors@ == errs,
                        errors@.len() == n,
                        acc == col_grad_prefix(x, errs, j as int, i2 as int),
                    decreases n - i2,
                {
                    acc = add_bits(acc, mul_bits(errors[i2], features.get(i2, j)));
                    i2 = i2 + 1;
                }
                let grad = div_bits(acc, nf);
                new_coeffs.push(sub_bits(coeffs[j], mul_bits(LEARNING_RATE_BITS, grad)));
                j = j + 1;
            }

            let mut s: u64 = F64_ZERO;
            let mut i3: usize = 0;
            while i3 < n
                invariant
                    i3 <= n,
                    errors@ == errs,
                    errors@.len() == n,
                    s == sum_prefix(errs, i3 as int),
                decreases n - i3,
            {
                s = add_bits(s, errors[i3]);
                i3 = i3 + 1;
            }
            let new_intercept = sub_bits(intercept, mul_bits(LEARNING_RATE_BITS, div_bits(s, nf)));

            proof {
                let stepped = spec_train_step(x, y, coeffs@, intercept);
                assert(new_coeffs@ =~= stepped.0);
                assert(new_intercept == stepped.1);
                assert(spec_train_iters(x, y, cols as nat, (it + 1) as nat) == stepped);
            }
            coeffs = new_coeffs;
            intercept = new_intercept;
            it = it + 1;
        }

        self.feature_count = cols;
        self.coefficients = coeffs;
        self.intercept = intercept;
        Ok(())
    }

    /// Row-wise prediction: `features . coefficients + intercept`. Fails with
    /// `FeatureCountMismatch` exactly when the width of `features` differs
    /// from the trained feature count, or when the model is still untrained
    /// (a feature count of zero): an untrained model never predicts, not even
    /// on zero-width rows.
    pub fn predict(&self, features: &Matrix) -> (result: Result<Vec<u64>, StrategyError>)
        requires
            self.wf(),
            features.wf(),
        ensures
            match result {
                Ok(p) => {
                    &&& features.spec_cols() == self.feature_count
                    &&& self.feature_count != 0
                    &&& p@.len() == features@.len()
                    &&& forall|i: int|
                        0 <= i < features@.len() ==> p@[i] == spec_predict_row(
                            self.coefficients@,
                            self.intercept,
                            #[trigger] features@[i],
                        )
                },
                Err(e) => {
                    &&& e == StrategyError::FeatureCountMismatch
                    &&& (features.spec_cols() != self.feature_count || self.feature_count == 0)
                },
            },
    {
        if self.feature_count == 0 || features.ncols() != self.feature_count {
            return Err(StrategyError::FeatureCountMismatch);
        }
        let n = features.nrows();
        let mut predictions: Vec<u64> = Vec::new();
        let mut i: usize = 0;
        while i < n
            invariant
                i <= n,
                n == features@.len(),
                features.wf(),
                self.wf(),
                features.spec_cols() == self.feature_count,
                predictions@.len() == i,
                forall|k: int|
                    0 <= k < i ==> predictions@[k] == spec_predict_row(
                        self.coefficients@,
                        self.intercept,
                        #[trigger] features@[k],
                    ),
            decreases n - i,
        {
            predictions.push(self.predict_row(features.row(i)));
            i = i + 1;
        }
        Ok(predictions)
    }
}

impl PricePredictor {
    /// The coefficient of determination of the model on the dataset (see
    /// [`spec_r2`]). Fails exactly when `predict` does: when the width of
    /// `features` differs from the trained feature count, or when the model
    /// is still untrained.
    pub fn evaluate(&self, features: &Matrix, targets: &Vec<u64>) -> (result: Result<
        u64,
        StrategyError,
    >)
        requires
            self.wf(),
            features.wf(),
        ensures
            match result {
                Ok(r) => {
                    &&& features.spec_cols() == self.feature_count
                    &&& self.feature_count != 0
                    &&& r == spec_r2(features@, targets@, self.coefficients@, self.intercept)
                },
                Err(e) => {
                    &&& e == StrategyError::FeatureCountMismatch
                    &&& (features.spec_cols() != self.feature_count || self.feature_count == 0)
                },
            },
    {
        let predictions = self.predict(features)?;
        let ghost y = targets@;
        let ghost preds = Seq::new(
            features@.len(),
            |i: int| spec_predict_row(self.coefficients@, self.intercept, features@[i]),
        );
        proof {
            assert(predictions@ =~= preds);
        }

        let mut s: u64 = F64_ZERO;
        let mut i: usize = 0;
        while i < targets.len()
            invariant
                i <= y.len(),
                y == targets@,
                s == sum_prefix(y, i as int),
            decreases y.len() - i,
        {
            s = add_bits(s, targets[i]);
            i = i + 1;
        }
        let mean = if targets.len() == 0 {
            F64_ZERO
        } else {
            div_bits(s, usize_to_bits(targets.len()))
        };
        proof {
            assert(mean == spec_mean(y));
        }

        let mut ss_tot: u64 = F64_ZERO;
        let mut i2: usize = 0;
        while i2 < targets.len()
            invariant
                i2 <= y.len(),
                y == targets@,
                ss_tot == sq_dev_prefix(y, mean, i2 as int),
            decreases y.len() - i2,
        {
            let d = sub_bits(targets[i2], mean);
            ss_tot = add_bits(ss_tot, mul_bits(d, d));
            i2 = i2 + 1;
        }

        let k = if targets.len() <= predictions.len() {
            targets.len()
        } else {
            predictions.len()
        };
        let mut ss_res: u64 = F64_ZERO;
        let mut i3: usize = 0;
        while i3 < k
            invariant
                i3 <= k,
                y == targets@,
                predictions@ == preds,
                k <= y.len(),
                k <= preds.len(),
                ss_res == sq_res_prefix(y, preds, i3 as int),
            decreases k - i3,
        {
            let d = sub_bits(targets[i3], predictions[i3]);
            ss_res = add_bits(ss_res, mul_bits(d, d));
            i3 = i3 + 1;
        }

        Ok(sub_bits(F64_ONE, div_bits(ss_res, ss_tot)))
    }

    /// Serializes the model into its record: feature count, intercept, then
    /// the coefficients, each as one 64-bit word.
    pub fn to_record(&self) -> (r: Vec<u64>)
        ensures
            r@ == spec_record(self.coefficients@, self.intercept, self.feature_count),
    {
        let mut r: Vec<u64> = Vec::new();
        r.push(self.feature_count as u64);
        r.push(self.intercept);
        let mut i: usize = 0;
        while i < self.coefficients.len()
            invariant
                i <= self.coefficients@.len(),
                r@.len() == 2 + i,
                r@[0] == self.feature_count as u64,
                r@[1] == self.intercept,
                forall|j: int| 0 <= j < i ==> r@[2 + j] == self.coefficients@[j],
            decreases self.coefficients@.len() - i,
        {
            r.push(self.coefficients[i]);
            i = i + 1;
        }
        proof {
            assert(r@ =~= spec_record(self.coefficients@, self.intercept, self.feature_count));
        }
        r
    }

    /// Restores a model from a record. Fails with `SerializationFailure`
    /// exactly on the records that [`spec_parse_record`] rejects; a restored
    /// model is well-formed.
    pub fn from_record(record: &Vec<u64>) -> (result: Result<PricePredictor, StrategyError>)
        ensures
            match result {
                Ok(p) => {
                    &&& spec_parse_record(record@) == Some(
                        (p.coefficients@, p.intercept, p.feature_count),
                    )
                    &&& p.wf()
                },
                Err(e) => {
                    &&& e == StrategyError::SerializationFailure
                    &&& spec_parse_record(record@) is None
                },
            },
    {
        if record.len() < 2 {
            return Err(StrategyError::SerializationFailure);
        }
        let fc_word = record[0];
        if fc_word > usize::MAX as u64 {
            return Err(StrategyError::SerializationFailure);
        }
        let fc = fc_word as usize;
        if record.len() - 2 != fc {
            return Err(StrategyError::SerializationFailure);
        }
        let mut coeffs: Vec<u64> = Vec::new();
        let mut i: usize = 2;
        while i < record.len()
            invariant
                2 <= i <= record@.len(),
                coeffs@ == record@.subrange(2, i as int),
            decreases record@.len() - i,
        {
            proof {
                assert(record@.subrange(2, (i + 1) as int) =~= record@.subrange(2, i as int).push(
                    record@[i as int],
                ));
            }
            coeffs.push(record[i]);
            i = i + 1;
        }
        Ok(PricePredictor { coefficients: coeffs, intercept: record[1], feature_count: fc })
    }
}

/// Law: training is deterministic. Two parameter sets that both came out of
/// training on the same features and targets are identical, coefficient for
/// coefficient and in the intercept.
pub proof fn lemma_train_deterministic(
    x: Seq<Seq<u64>>,
    y: Seq<u64>,
    cols: nat,
    p1: PricePredictor,
    p2: PricePredictor,
)
    requires
        (p1.coefficients@, p1.intercept) == spec_train_iters(x, y, cols, TRAIN_ITERATIONS as nat),
        (p2.coefficients@, p2.intercept) == spec_train_iters(x, y, cols, TRAIN_ITERATIONS as nat),
    ensures
        p1.coefficients@ == p2.coefficients@,
        p1.intercept == p2.intercept,
{
}

/// Law: serialization round-trips exactly. Parsing the record written for a
/// well-formed parameter set yields that parameter set, bit for bit.
pub proof fn lemma_record_round_trip(c: Seq<u64>, b: u64, fc: usize)
    requires
        c.len() == fc,
    ensures
        spec_parse_record(spec_record(c, b, fc)) == Some((c, b, fc)),
{
    let s = spec_record(c, b, fc);
    assert(s.subrange(2, s.len() as int) =~= c);
}

impl Default for PricePredictor {
    /// The default predictor is the untrained one.
    fn default() -> (p: PricePredictor)
        ensures
            p.coefficients@.len() == 0,
            p.intercept == F64_ZERO,
            p.feature_count == 0,
            p.wf(),
    {
        PricePredictor::new()
    }
}

} // verus!
