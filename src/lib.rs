//! A tokenizer for SQL text, verified against a model of its scanning
//! rules, and the join kinds of a query plan.
use vstd::prelude::*;

pub mod join_type;
pub mod laws;
pub mod lexer;
pub mod token;

verus! {

} // verus!
