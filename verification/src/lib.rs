//! Index-level core of a circulant-embedding (Davies–Harte) sampler for
//! fractional Gaussian noise and fractional Brownian motion.
//!
//! Sampling a stationary Gaussian sequence by circulant embedding is mostly
//! floating-point work — evaluating the covariance, transforming, scaling —
//! but its correctness hangs on a discrete skeleton: how large the embedding
//! must be, which covariance lag each entry of the circulant first row
//! carries, which standard-normal draw feeds which spectral entry, and how
//! Hermitian symmetry is laid out so that the inverse transform comes out
//! real. This crate states and proves that skeleton. A numeric front end
//! evaluates the plans it produces with ordinary floating-point arithmetic.

pub mod embedding;
pub mod sampler;
