//! A compiler for role-based composition: an aggregate whose behaviour is
//! assembled from reusable roles, each constrained by a contract.
//!
//! The pipeline has three stages. `analysis` turns the declarations of one
//! compilation unit into a model, `compile` links roles to contracts, binds
//! role slots to type parameters and rewrites call sites, and the emitting
//! functions render the composite declarations.

pub mod seqs;
pub mod text;
pub mod syntax;
pub mod expr;
pub mod items;
pub mod analysis;
pub mod compile;
pub mod sample;
pub mod laws;
pub mod rewrite_laws;
