//! Grapheme-cluster based measurement and layout.
//!
//! `segmenter` consumes the external UAX #29 segmentation capability;
//! `basic` offers the default-policy API and `policy_ext` the
//! policy-parameterized one.

pub mod basic;
pub mod policy_ext;
pub(crate) mod segmenter;
