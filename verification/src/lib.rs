//! Two-sided exponential histogram bucket boundaries.
//!
//! A histogram metric is configured with an ordered sequence of bucket
//! boundaries. This crate builds such a sequence around an anchor value:
//! `count_below` boundaries strictly below the anchor, the anchor itself,
//! and `count_above` boundaries strictly above it, each step multiplying
//! the previous boundary by a growth factor.
//!
//! Boundaries are 64-bit binary floating-point values. The generator in
//! [`buckets`] holds them as raw bit patterns and never performs
//! floating-point arithmetic itself: every multiplication, division and
//! comparison is requested from the caller as an [`buckets::Action`] and
//! answered with an [`buckets::Event`]. The caller runs a small loop that
//! carries out each requested operation; all bookkeeping — how many
//! boundaries each half gets, where the anchor lands, when the seam
//! between the halves is checked, and which error is reported — is done
//! here, under contract.
//!
//! [`laws`] states and proves the guarantees of the generator: the length
//! and anchor position of every successful result, and exactly when each
//! error is returned.

pub mod buckets;
pub mod laws;
