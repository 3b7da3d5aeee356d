//! Verified core of a small math-expression service: a LaTeX-subset
//! normalizer, a calculator over an external arithmetic evaluator, and a
//! line-delimited JSON-RPC dispatcher advertising two callable tools.

pub mod calc;
pub mod json;
pub mod normalize;
pub mod protocol;
pub mod tools;
