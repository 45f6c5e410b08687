//! The logistic model: hyperparameters, parameters, and the verified side of
//! training and inference.
//!
//! The model owns the weight vector `W`, the bias `B`, and the
//! hyperparameters (learning rate, iteration count, clipping floor `eps`),
//! all as binary64 bit patterns. Training is full-batch gradient descent: the
//! driver that owns the floating-point arithmetic evaluates the forward pass
//! and the gradient formulas, and this module holds everything around them
//! that is exact logic — shape and label validation when a fit begins, the
//! clipping of activations before the gradient math, the storing of updated
//! parameters, the 0.5 threshold that turns activations into class labels,
//! and the accuracy count. Each step states exactly what it returns, and
//! inference fails fast on a model that was never fitted.

use vstd::prelude::*;

use crate::bits::classify;
use crate::bits::classify_spec;
use crate::bits::clip;
use crate::bits::clip_spec;
use crate::bits::f_le_spec;
use crate::bits::is_label_bits;
use crate::bits::is_nan_bits;
use crate::bits::is_positive_finite_bits;
use crate::bits::lemma_clip_excludes_endpoints;
use crate::bits::F_EPS;
use crate::bits::F_LR_DEFAULT;
use crate::bits::F_NEG_ZERO;
use crate::bits::F_ONE;
use crate::bits::F_ONE_MINUS_EPS;
use crate::bits::F_ZERO;
use crate::matrix::check_labels;
use crate::matrix::labels_ok;
use crate::matrix::Matrix;

verus! {

/// The failures the model reports instead of computing on malformed input.
#[derive(Clone, Copy, Debug, PartialEq, Eq, Structural)]
pub enum ModelError {
    /// Operand dimensions do not agree.
    ShapeMismatch,
    /// A label entry is neither 0.0 nor 1.0.
    InvalidLabel,
    /// Inference was asked of a model that was never fitted.
    NotFitted,
}

/// Every activation of `a` clipped into `[eps, 1 - eps]`.
pub open spec fn clip_matrix_spec(a: Seq<Seq<u64>>) -> Seq<Seq<u64>> {
    a.map_values(|row: Seq<u64>| row.map_values(|v: u64| clip_spec(v, F_EPS, F_ONE_MINUS_EPS)))
}

/// Every activation of `a` thresholded at 0.5 into a class label.
pub open spec fn classify_matrix_spec(a: Seq<Seq<u64>>) -> Seq<Seq<u64>> {
    a.map_values(|row: Seq<u64>| row.map_values(|v: u64| classify_spec(v)))
}

/// The single column of a column matrix, as a sequence of entries.
pub open spec fn col0(m: Seq<Seq<u64>>) -> Seq<u64> {
    m.map_values(|row: Seq<u64>| row[0])
}

/// How many positions of `p` and `y` hold the same bit pattern. On label
/// patterns, equal bits is exactly binary64 equality (no NaN and no negative
/// zero is a label), so this is the count of exact prediction matches.
pub open spec fn match_count(p: Seq<u64>, y: Seq<u64>) -> nat
    decreases p.len(),
{
    if p.len() == 0 {
        0
    } else {
        match_count(p.drop_last(), y.drop_last()) + (if p.last() == y.last() {
            1nat
        } else {
            0nat
        })
    }
}

/// The shapes a fit requires: at least one sample and one feature, labels as
/// one column per sample, and one initial weight per feature in one column.
pub open spec fn fit_shapes_ok(x: Matrix, y: Matrix, w0: Matrix) -> bool {
    &&& x.nrows() >= 1
    &&& x.ncols() >= 1
    &&& y.nrows() == x.nrows()
    &&& y.ncols() == 1
    &&& w0.nrows() == x.ncols()
    &&& w0.ncols() == 1
}

/// The shapes a score requires: activations and labels as equally long,
/// nonempty single columns.
pub open spec fn score_shapes_ok(a: Matrix, y: Matrix) -> bool {
    &&& a.nrows() >= 1
    &&& a.ncols() == 1
    &&& y.nrows() == a.nrows()
    &&& y.ncols() == 1
}

/// A binary classifier trained by regularized full-batch gradient descent.
pub struct LogisticRegression {
    learning_rate: u64,
    n_iters: i32,
    eps: u64,
    w: Matrix,
    b: u64,
    fitted: bool,
}

impl LogisticRegression {
    /// The step size, as a bit pattern.
    pub closed spec fn learning_rate_spec(&self) -> u64 {
        self.learning_rate
    }

    /// The fixed number of gradient-descent iterations.
    pub closed spec fn n_iters_spec(&self) -> i32 {
        self.n_iters
    }

    /// The clipping floor `eps`, as a bit pattern.
    pub closed spec fn eps_spec(&self) -> u64 {
        self.eps
    }

    /// The weight column `W`, as rows of bit patterns.
    pub closed spec fn weights_spec(&self) -> Seq<Seq<u64>> {
        self.w@
    }

    /// The bias `B`, as a bit pattern.
    pub closed spec fn bias_spec(&self) -> u64 {
        self.b
    }

    /// Whether a fit has initialized the parameters.
    pub closed spec fn fitted_spec(&self) -> bool {
        self.fitted
    }

    /// The model's invariant: `eps` is the preset floor, the learning rate
    /// is a positive finite value, the iteration count is positive, and the
    /// weights are one well-formed column, nonempty once fitted.
    pub closed spec fn wf(&self) -> bool {
        &&& self.eps == F_EPS
        &&& is_positive_finite_bits(self.learning_rate)
        &&& self.n_iters >= 1
        &&& self.w.wf()
        &&& self.w.ncols() == 1
        &&& (self.fitted ==> self.w@.len() >= 1)
    }

    /// The preset model: learning rate 0.01, 200 iterations, `eps` 1.0e-12,
    /// placeholder parameters, not fitted.
    pub fn default() -> (m: Self)
        ensures
            m.wf(),
            m.learning_rate_spec() == F_LR_DEFAULT,
            m.n_iters_spec() == 200,
            m.eps_spec() == F_EPS,
            m.bias_spec() == F_ZERO,
            !m.fitted_spec(),
    {
        LogisticRegression {
            learning_rate: F_LR_DEFAULT,
            n_iters: 200,
            eps: F_EPS,
            w: Matrix::zeros(1, 1),
            b: F_ZERO,
            fitted: false,
        }
    }

    /// A model with the given step size (a positive finite bit pattern) and
    /// iteration count; `eps` is the preset floor 1.0e-12.
    pub fn new(learning_rate: u64, n_iters: i32) -> (m: Self)
        requires
            is_positive_finite_bits(learning_rate),
            n_iters >= 1,
        ensures
            m.wf(),
            m.learning_rate_spec() == learning_rate,
            m.n_iters_spec() == n_iters,
            m.eps_spec() == F_EPS,
            m.bias_spec() == F_ZERO,
            !m.fitted_spec(),
    {
        LogisticRegression {
            learning_rate,
            n_iters,
            eps: F_EPS,
            w: Matrix::zeros(1, 1),
            b: F_ZERO,
            fitted: false,
        }
    }

    /// The step size, as a bit pattern.
    pub fn learning_rate(&self) -> (r: u64)
        ensures
            r == self.learning_rate_spec(),
    {
        self.learning_rate
    }

    /// The fixed number of gradient-descent iterations.
    pub fn n_iters(&self) -> (r: i32)
        ensures
            r == self.n_iters_spec(),
    {
        self.n_iters
    }

    /// The clipping floor `eps`, as a bit pattern.
    pub fn eps(&self) -> (r: u64)
        ensures
            r == self.eps_spec(),
    {
        self.eps
    }

    /// Whether a fit has initialized the parameters.
    pub fn is_fitted(&self) -> (r: bool)
        ensures
            r == self.fitted_spec(),
    {
        self.fitted
    }

    /// The weight column of a fitted model; asking an unfitted model is the
    /// fail-fast error instead of meaningless zero-parameter output.
    pub fn weights(&self) -> (r: Result<&Matrix, ModelError>)
        requires
            self.wf(),
        ensures
            r is Ok <==> self.fitted_spec(),
            !self.fitted_spec() ==> r == Err::<&Matrix, ModelError>(ModelError::NotFitted),
            r matches Ok(w) ==> {
                &&& w.wf()
                &&& w@ == self.weights_spec()
                &&& w.ncols() == 1
                &&& w.nrows() >= 1
            },
    {
        if self.fitted {
            proof {
                self.w.lemma_wf_view();
            }
            Ok(&self.w)
        } else {
            Err(ModelError::NotFitted)
        }
    }

    /// The bias of a fitted model; asking an unfitted model fails fast.
    pub fn bias(&self) -> (r: Result<u64, ModelError>)
        requires
            self.wf(),
        ensures
            r is Ok <==> self.fitted_spec(),
            !self.fitted_spec() ==> r == Err::<u64, ModelError>(ModelError::NotFitted),
            r matches Ok(b) ==> b == self.bias_spec(),
    {
        if self.fitted {
            Ok(self.b)
        } else {
            Err(ModelError::NotFitted)
        }
    }

    /// Begins a fit: discards whatever parameters the model held, installs
    /// the freshly drawn initial weights `w0` (the driver samples them from
    /// the Xavier-uniform range) and a zero bias, and marks the model
    /// fitted. Succeeds exactly on well-shaped input with valid labels;
    /// on any failure the model is left as it was.
    pub fn init_fit(&mut self, x: &Matrix, y: &Matrix, w0: Matrix) -> (r: Result<
        (),
        ModelError,
    >)
        requires
            old(self).wf(),
            x.wf(),
            y.wf(),
            w0.wf(),
        ensures
            final(self).wf(),
            r is Ok <==> (fit_shapes_ok(*x, *y, w0) && labels_ok(y@)),
            !fit_shapes_ok(*x, *y, w0) ==> r == Err::<(), ModelError>(ModelError::ShapeMismatch)
                && *final(self) == *old(self),
            fit_shapes_ok(*x, *y, w0) && !labels_ok(y@) ==> r == Err::<(), ModelError>(
                ModelError::InvalidLabel,
            ) && *final(self) == *old(self),
            r is Ok ==> {
                &&& final(self).weights_spec() == w0@
                &&& final(self).bias_spec() == F_ZERO
                &&& final(self).fitted_spec()
                &&& final(self).learning_rate_spec() == old(self).learning_rate_spec()
                &&& final(self).n_iters_spec() == old(self).n_iters_spec()
                &&& final(self).eps_spec() == old(self).eps_spec()
            },
    {
        let n: usize = x.rows();
        let m: usize = x.cols();
        if n == 0 || m == 0 || y.rows() != n || y.cols() != 1 || w0.rows() != m || w0.cols() != 1 {
            return Err(ModelError::ShapeMismatch);
        }
        if !check_labels(y) {
            return Err(ModelError::InvalidLabel);
        }
        proof {
            w0.lemma_wf_view();
        }
        self.w = w0;
        self.b = F_ZERO;
        self.fitted = true;
        Ok(())
    }

    /// Clips every activation into `[eps, 1 - eps]`, exactly as
    /// `max(a, eps)` then `min(a, 1 - eps)` select on binary64 values. The
    /// clipped matrix is what the gradient math may read; see
    /// `lemma_clipping_avoids_log_domain` for the guarantee that no clipped
    /// entry is 0.0 or 1.0.
    pub fn clip_activations(&self, a: &Matrix) -> (r: Matrix)
        requires
            self.wf(),
            a.wf(),
        ensures
            r.wf(),
            r@ == clip_matrix_spec(a@),
            r.nrows() == a.nrows(),
            r.ncols() == a.ncols(),
    {
        proof {
            a.lemma_wf_view();
        }
        let n: usize = a.rows();
        let c: usize = a.cols();
        let mut out: Vec<Vec<u64>> = Vec::new();
        let mut i: usize = 0;
        while i < n
            invariant
                i <= n,
                self.wf(),
                a.wf(),
                n == a@.len(),
                n == a.nrows(),
                c == a.ncols(),
                out@.len() == i,
                forall|k: int| 0 <= k < i ==> (#[trigger] out@[k])@.len() == c,
                forall|k: int| 0 <= k < i ==> (#[trigger] out@[k])@ == clip_matrix_spec(a@)[k],
            decreases n - i,
        {
            proof {
                a.lemma_wf_view();
            }
            let mut row: Vec<u64> = Vec::new();
            let mut j: usize = 0;
            while j < c
                invariant
                    j <= c,
                    self.wf(),
                    a.wf(),
                    i < a@.len(),
                    c == a.ncols(),
                    a@[i as int].len() == c,
                    row@.len() == j,
                    forall|l: int|
                        0 <= l < j ==> #[trigger] row@[l] == clip_spec(
                            a@[i as int][l],
                            F_EPS,
                            F_ONE_MINUS_EPS,
                        ),
                decreases c - j,
            {
                let v: u64 = a.get(i, j);
                row.push(clip(v, self.eps, F_ONE_MINUS_EPS));
                j = j + 1;
            }
            proof {
                assert(row@ =~= a@[i as int].map_values(
                    |v: u64| clip_spec(v, F_EPS, F_ONE_MINUS_EPS),
                ));
            }
            out.push(row);
            i = i + 1;
        }
        let r = Matrix::from_parts(n, c, out);
        proof {
            assert(r@ =~= clip_matrix_spec(a@));
        }
        r
    }

    /// Installs the parameters the driver computed for one gradient-descent
    /// update: `W <- W - learning_rate * dW`, `B <- B - learning_rate * dB`,
    /// evaluated by the driver and handed back here. The new weight column
    /// must have the shape of the old one; on any failure the model is left
    /// as it was.
    pub fn update_params(&mut self, w: Matrix, b: u64) -> (r: Result<(), ModelError>)
        requires
            old(self).wf(),
            w.wf(),
        ensures
            final(self).wf(),
            r is Ok <==> (old(self).fitted_spec() && w.nrows() == old(self).weights_spec().len()
                && w.ncols() == 1),
            !old(self).fitted_spec() ==> r == Err::<(), ModelError>(ModelError::NotFitted)
                && *final(self) == *old(self),
            old(self).fitted_spec() && !(w.nrows() == old(self).weights_spec().len()
                && w.ncols() == 1) ==> r == Err::<(), ModelError>(ModelError::ShapeMismatch)
                && *final(self) == *old(self),
            r is Ok ==> {
                &&& final(self).weights_spec() == w@
                &&& final(self).bias_spec() == b
                &&& final(self).fitted_spec()
                &&& final(self).learning_rate_spec() == old(self).learning_rate_spec()
                &&& final(self).n_iters_spec() == old(self).n_iters_spec()
                &&& final(self).eps_spec() == old(self).eps_spec()
            },
    {
        if !self.fitted {
            return Err(ModelError::NotFitted);
        }
        proof {
            self.w.lemma_wf_view();
            w.lemma_wf_view();
        }
        if w.rows() != self.w.rows() || w.cols() != 1 {
            return Err(ModelError::ShapeMismatch);
        }
        self.w = w;
        self.b = b;
        Ok(())
    }

    /// Thresholds the activations of a forward pass at 0.5: strictly below
    /// 0.5 becomes the label 0.0, everything else the label 1.0. Fails fast
    /// on a model that was never fitted; otherwise returns a matrix of the
    /// same shape whose entries are all class labels.
    pub fn predict(&self, a: &Matrix) -> (r: Result<Matrix, ModelError>)
        requires
            self.wf(),
            a.wf(),
        ensures
            r is Ok <==> self.fitted_spec(),
            !self.fitted_spec() ==> r == Err::<Matrix, ModelError>(ModelError::NotFitted),
            r matches Ok(p) ==> {
                &&& p.wf()
                &&& p@ == classify_matrix_spec(a@)
                &&& p.nrows() == a.nrows()
                &&& p.ncols() == a.ncols()
            },
    {
        if !self.fitted {
            return Err(ModelError::NotFitted);
        }
        proof {
            a.lemma_wf_view();
        }
        let n: usize = a.rows();
        let c: usize = a.cols();
        let mut out: Vec<Vec<u64>> = Vec::new();
        let mut i: usize = 0;
        while i < n
            invariant
                i <= n,
                a.wf(),
                n == a@.len(),
                n == a.nrows(),
                c == a.ncols(),
                out@.len() == i,
                forall|k: int| 0 <= k < i ==> (#[trigger] out@[k])@.len() == c,
                forall|k: int| 0 <= k < i ==> (#[trigger] out@[k])@ == classify_matrix_spec(a@)[k],
            decreases n - i,
        {
            proof {
                a.lemma_wf_view();
            }
            let mut row: Vec<u64> = Vec::new();
            let mut j: usize = 0;
            while j < c
                invariant
                    j <= c,
                    a.wf(),
                    i < a@.len(),
                    c == a.ncols(),
                    a@[i as int].len() == c,
                    row@.len() == j,
                    forall|l: int|
                        0 <= l < j ==> #[trigger] row@[l] == classify_spec(a@[i as int][l]),
                decreases c - j,
            {
                let v: u64 = a.get(i, j);
                row.push(classify(v));
                j = j + 1;
            }
            proof {
                assert(row@ =~= a@[i as int].map_values(|v: u64| classify_spec(v)));
            }
            out.push(row);
            i = i + 1;
        }
        let p = Matrix::from_parts(n, c, out);
        proof {
            assert(p@ =~= classify_matrix_spec(a@));
        }
        Ok(p)
    }

    /// Scores the activations of a forward pass against the labels: the
    /// activations are thresholded at 0.5 and the exact matches counted.
    /// Returns the pair (matches, samples); the accuracy is their quotient,
    /// which the caller forms. Comparing label patterns bit for bit is
    /// binary64 equality (`lemma_label_eq_is_bit_eq`). Fails fast on an
    /// unfitted model, on malformed shapes, and on a non-label entry of `y`.
    pub fn score(&self, a: &Matrix, y: &Matrix) -> (r: Result<(usize, usize), ModelError>)
        requires
            self.wf(),
            a.wf(),
            y.wf(),
        ensures
            r is Ok <==> (self.fitted_spec() && score_shapes_ok(*a, *y) && labels_ok(y@)),
            !self.fitted_spec() ==> r == Err::<(usize, usize), ModelError>(ModelError::NotFitted),
            self.fitted_spec() && !score_shapes_ok(*a, *y) ==> r == Err::<
                (usize, usize),
                ModelError,
            >(ModelError::ShapeMismatch),
            self.fitted_spec() && score_shapes_ok(*a, *y) && !labels_ok(y@) ==> r == Err::<
                (usize, usize),
                ModelError,
            >(ModelError::InvalidLabel),
            r matches Ok(counts) ==> {
                &&& counts.1 == a@.len()
                &&& counts.1 >= 1
                &&& counts.0 == match_count(col0(classify_matrix_spec(a@)), col0(y@))
                &&& counts.0 <= counts.1
            },
    {
        if !self.fitted {
            return Err(ModelError::NotFitted);
        }
        proof {
            a.lemma_wf_view();
            y.lemma_wf_view();
        }
        let n: usize = a.rows();
        if n == 0 || a.cols() != 1 || y.rows() != n || y.cols() != 1 {
            return Err(ModelError::ShapeMismatch);
        }
        if !check_labels(y) {
            return Err(ModelError::InvalidLabel);
        }
        let ghost cp = col0(classify_matrix_spec(a@));
        let ghost cy = col0(y@);
        let mut correct: usize = 0;
        let mut i: usize = 0;
        while i < n
            invariant
                i <= n,
                a.wf(),
                y.wf(),
                n == a@.len(),
                n == y@.len(),
                a.ncols() == 1,
                y.ncols() == 1,
                cp == col0(classify_matrix_spec(a@)),
                cy == col0(y@),
                cp.len() == n,
                cy.len() == n,
                correct <= i,
                correct == match_count(cp.take(i as int), cy.take(i as int)),
            decreases n - i,
        {
            proof {
                a.lemma_wf_view();
                y.lemma_wf_view();
            }
            let pred: u64 = classify(a.get(i, 0));
            let actual: u64 = y.get(i, 0);
            proof {
                assert(cp[i as int] == classify_spec(a@[i as int][0]));
                assert(cy[i as int] == y@[i as int][0]);
                lemma_match_count_step(cp, cy, i as int);
            }
            if pred == actual {
                correct = correct + 1;
            }
            i = i + 1;
        }
        proof {
            assert(cp.take(n as int) =~= cp);
            assert(cy.take(n as int) =~= cy);
        }
        Ok((correct, n))
    }
}

/// One step of the match count: counting the first `k + 1` positions counts
/// the first `k` and then the position `k`.
proof fn lemma_match_count_step(p: Seq<u64>, y: Seq<u64>, k: int)
    requires
        0 <= k,
        k < p.len(),
        k < y.len(),
    ensures
        match_count(p.take(k + 1), y.take(k + 1)) == match_count(p.take(k), y.take(k)) + (if p[k]
            == y[k] {
            1nat
        } else {
            0nat
        }),
{
    assert(p.take(k + 1).drop_last() =~= p.take(k));
    assert(y.take(k + 1).drop_last() =~= y.take(k));
    assert(p.take(k + 1).last() == p[k]);
    assert(y.take(k + 1).last() == y[k]);
}

/// On class labels, bit equality is binary64 equality: no label is a NaN and
/// no label is a zero of the other sign, so two labels are equal values
/// exactly when they are equal patterns.
pub proof fn lemma_label_eq_is_bit_eq(a: u64, b: u64)
    requires
        is_label_bits(a),
        is_label_bits(b),
    ensures
        crate::bits::f_eq_spec(a, b) <==> a == b,
{
}

/// Predictions are labels: thresholding returns a matrix of the same shape
/// with every entry one of the two class labels, whatever the activations
/// were. Together with the shape clause of `predict`, this is the guarantee
/// that a fitted model's predictions on an n-sample input are an n-by-1
/// matrix over {0.0, 1.0}.
pub proof fn lemma_predictions_are_labels(a: Seq<Seq<u64>>)
    ensures
        classify_matrix_spec(a).len() == a.len(),
        forall|i: int|
            0 <= i < a.len() ==> (#[trigger] classify_matrix_spec(a)[i]).len() == a[i].len(),
        forall|i: int, j: int|
            0 <= i < a.len() && 0 <= j < a[i].len() ==> is_label_bits(
                #[trigger] classify_matrix_spec(a)[i][j],
            ),
{
}

/// Inference is read-only: thresholding is a function of the activations
/// alone, so two predictions from the same fitted model on the same
/// activations are the same matrix.
pub proof fn lemma_predict_idempotent(a: Seq<Seq<u64>>, r1: Seq<Seq<u64>>, r2: Seq<Seq<u64>>)
    requires
        r1 == classify_matrix_spec(a),
        r2 == classify_matrix_spec(a),
    ensures
        r1 == r2,
{
}

/// No clipped activation reaches the endpoints of the log's domain: every
/// entry of the clipped matrix differs from 0.0 (either sign) and from 1.0,
/// is not a NaN, and lies between `eps` and `1 - eps` in the binary64 order
/// — whatever the driver's forward pass produced.
pub proof fn lemma_clipping_avoids_log_domain(a: Seq<Seq<u64>>)
    ensures
        clip_matrix_spec(a).len() == a.len(),
        forall|i: int|
            0 <= i < a.len() ==> (#[trigger] clip_matrix_spec(a)[i]).len() == a[i].len(),
        forall|i: int, j: int|
            0 <= i < a.len() && 0 <= j < a[i].len() ==> (#[trigger] clip_matrix_spec(a)[i][j])
                != F_ZERO && clip_matrix_spec(a)[i][j] != F_NEG_ZERO && clip_matrix_spec(a)[i][j]
                != F_ONE && !is_nan_bits(clip_matrix_spec(a)[i][j]) && f_le_spec(
                F_EPS,
                clip_matrix_spec(a)[i][j],
            ) && f_le_spec(clip_matrix_spec(a)[i][j], F_ONE_MINUS_EPS),
{
    assert forall|i: int, j: int|
        0 <= i < a.len() && 0 <= j < a[i].len() implies (#[trigger] clip_matrix_spec(a)[i][j])
        != F_ZERO && clip_matrix_spec(a)[i][j] != F_NEG_ZERO && clip_matrix_spec(a)[i][j] != F_ONE
        && !is_nan_bits(clip_matrix_spec(a)[i][j]) && f_le_spec(F_EPS, clip_matrix_spec(a)[i][j])
        && f_le_spec(clip_matrix_spec(a)[i][j], F_ONE_MINUS_EPS) by {
        lemma_clip_excludes_endpoints(a[i][j]);
    }
}

} // verus!
