//! A small verified library around a bounded random-number generator with
//! an injectable simulated failure, plus a checked list-sum helper.

pub mod generator;
pub mod sum;
