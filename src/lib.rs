//! Structural comparison of trait-implementation blocks and planning of
//! ownership-polymorphic injection wrappers.

pub mod ast;
pub mod isomorph;
pub mod congruence;
pub mod synth;
