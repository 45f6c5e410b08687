//! Binary classification by regularized logistic regression, trained with
//! full-batch gradient descent.
//!
//! The library is the verified core of the pipeline: the data model for
//! feature matrices and label vectors, the hyperparameter state of the model,
//! the per-iteration clipping of activations, the thresholding that turns
//! activations into class labels, and the accuracy count. Real-valued scalars
//! are carried as the bit patterns of IEEE 754 binary64 values, so that every
//! comparison and selection on them is exact integer logic with a contract.
//! The floating-point arithmetic itself (matrix products, the sigmoid, the
//! gradient formulas, the standardization sums) cannot be verified here and is
//! performed by the driver that owns the training loop; the library states and
//! checks everything the driver hands back.

pub mod bits;
pub mod matrix;
pub mod model;
pub mod standardize;
