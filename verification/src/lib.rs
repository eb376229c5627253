//! A small library for parsing and analysing textual mathematical
//! expressions such as `sin(x^2) + 3x`.
//!
//! The library turns source text into an immutable expression tree
//! (`ExpressionNode`), checks which environments the tree can be evaluated
//! under, and leaves the floating-point folding of a checked tree to the
//! caller.

pub mod expression;
pub mod grammar;
pub mod laws;
pub mod parser;
pub mod semantics;

pub use parser::parse;
pub use parser::parse_expr;
pub use parser::ParseError;

pub use expression::BinaryOperator;
pub use expression::ConstantValue;
pub use expression::EvaluationError;
pub use expression::ExpressionNode;
pub use expression::NaryOperator;
pub use expression::SpecConstant;
pub use expression::SpecEvaluationError;
pub use expression::SpecExpr;
pub use expression::UnaryOperator;
