//! A reverse-mode automatic-differentiation engine and the batched
//! gradient-descent training loop built on it, for small feedforward
//! networks.
//!
//! The scalar type is abstract: anything offering the `Real` capability
//! contract works, so one forward-pass formula serves plain inference
//! and gradient-producing training alike. Tracked computation is logged
//! on an append-only `Tape`, whose index invariant makes a single
//! reverse scan a valid backward traversal.

pub mod autodiff;
pub mod network;
pub mod rng;
pub mod save_information;
pub mod training;
