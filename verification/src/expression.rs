//! The expression tree: a parsed expression is an immutable tree of
//! `ExpressionNode` values.  Constants carry the exact text of the numeric
//! literal they were parsed from (or a named constant), so the tree itself
//! is independent of any floating-point representation.

use vstd::prelude::*;

verus! {

/// The supported binary operators.
#[derive(Debug, Clone, Copy, PartialEq, Eq, Structural)]
pub enum BinaryOperator {
    /// Addition: `+`
    Addition,
    /// Subtraction: `-`
    Subtraction,
    /// Multiplication: `*`
    Multiplication,
    /// Division: `/`
    Division,
    /// Exponentiation: `^`
    Exponentiation,
}

/// The supported unary operators.
#[derive(Debug, Clone, Copy, PartialEq, Eq, Structural)]
pub enum UnaryOperator {
    /// Sin: `sin()`
    Sin,
    /// Cos: `cos()`
    Cos,
    /// Tan: `tan()` or `tg()`
    Tan,
    /// Cotangent: `ctan()` or `ctg()`
    Ctan,
    /// Absolute value: `abs()` or `|...|`
    Abs,
    /// Exp: `exp()`
    Exp,
    /// Base-2 logarithm: `log2()`
    Log2,
    /// Base-10 logarithm: `log10()`
    Log10,
    /// Natural logarithm: `ln()`
    Ln,
    /// Negation: `-`, as in `-4`
    Negation,
    /// Arcsine: `asin()` or `arcsin()`
    Asin,
    /// Arccosine: `acos()` or `arccos()`
    Acos,
    /// Ceiling: `ceil()`
    Ceil,
    /// Floor: `floor()`
    Floor,
}

/// The supported N-ary operators.
#[derive(Debug, Clone, Copy, PartialEq, Eq, Structural)]
pub enum NaryOperator {
    /// Log: `log(x, base)`; its arity (two) is checked at evaluation time.
    Log,
}

/// The value held by a constant node: either the exact text of the numeric
/// literal that was parsed, or one of the named constants.
#[derive(Debug, Clone, PartialEq, Eq)]
pub enum ConstantValue {
    /// A numeric literal, kept as the exact characters that were parsed.
    Number { literal: String },
    /// The named constant `e`.
    Euler,
    /// The named constant `pi`.
    Pi,
}

/// An expression node is any part of the parsed expression tree.  These
/// build up the expression recursively.  Every value, variable, and
/// operator is wrapped in an `ExpressionNode`.
#[derive(Debug, PartialEq)]
pub enum ExpressionNode {
    /// An operator applied to the evaluated values of the left and right
    /// subtrees.
    BinaryExprNode {
        operator: BinaryOperator,
        left_node: Box<ExpressionNode>,
        right_node: Box<ExpressionNode>,
    },
    /// An operator applied to the evaluated value of the child subtree.
    UnaryExprNode {
        operator: UnaryOperator,
        child_node: Box<ExpressionNode>,
    },
    /// An operator applied to the evaluated values of an ordered list of
    /// child subtrees; the list's length is checked only at evaluation time.
    NaryExprNode {
        operator: NaryOperator,
        child_nodes: Vec<ExpressionNode>,
    },
    /// A named variable, resolved against an environment at evaluation time.
    VariableExprNode { variable_key: String },
    /// A constant value.
    ConstantExprNode { value: ConstantValue },
}

/// An error found while evaluating an expression tree.  Arithmetic itself
/// never fails here: division by zero and domain errors follow IEEE-754
/// rules and propagate as infinities or NaN.  Only an unresolved variable
/// or a wrong argument count for an N-ary operator is a hard error.
#[derive(Debug, Clone, PartialEq, Eq)]
pub enum EvaluationError {
    /// A variable's name was absent from the supplied environment.
    VariableNotFoundError { variable_key: String },
    /// An N-ary operator was applied to the wrong number of arguments.
    WrongNumberOfArgsError { operator: NaryOperator, got: usize },
}

/// The mathematical model of an evaluation error.
pub ghost enum SpecEvaluationError {
    VariableNotFound(Seq<char>),
    WrongNumberOfArgs(NaryOperator, nat),
}

impl View for EvaluationError {
    type V = SpecEvaluationError;

    open spec fn view(&self) -> SpecEvaluationError {
        match self {
            EvaluationError::VariableNotFoundError { variable_key } => {
                SpecEvaluationError::VariableNotFound(variable_key@)
            },
            EvaluationError::WrongNumberOfArgsError { operator, got } => {
                SpecEvaluationError::WrongNumberOfArgs(*operator, *got as nat)
            },
        }
    }
}

/// The mathematical model of a constant: literal text as a sequence of
/// characters, or a named constant.
pub ghost enum SpecConstant {
    Number(Seq<char>),
    Euler,
    Pi,
}

/// The mathematical model of an expression tree.
pub ghost enum SpecExpr {
    Binary { op: BinaryOperator, left: Box<SpecExpr>, right: Box<SpecExpr> },
    Unary { op: UnaryOperator, child: Box<SpecExpr> },
    Nary { op: NaryOperator, children: Seq<SpecExpr> },
    Variable { name: Seq<char> },
    Constant { value: SpecConstant },
}

impl View for ConstantValue {
    type V = SpecConstant;

    open spec fn view(&self) -> SpecConstant {
        match self {
            ConstantValue::Number { literal } => SpecConstant::Number(literal@),
            ConstantValue::Euler => SpecConstant::Euler,
            ConstantValue::Pi => SpecConstant::Pi,
        }
    }
}

/// The mathematical models of a list of expression trees, in order.
pub open spec fn exprs_model(v: Seq<ExpressionNode>) -> Seq<SpecExpr>
    decreases v,
{
    if v.len() == 0 {
        Seq::empty()
    } else {
        seq![expr_model(v[0])] + exprs_model(v.drop_first())
    }
}

/// The mathematical model of an expression tree value.
pub open spec fn expr_model(e: ExpressionNode) -> SpecExpr
    decreases e,
{
    match e {
        ExpressionNode::BinaryExprNode { operator, left_node, right_node } => {
            SpecExpr::Binary {
                op: operator,
                left: Box::new(expr_model(*left_node)),
                right: Box::new(expr_model(*right_node)),
            }
        },
        ExpressionNode::UnaryExprNode { operator, child_node } => {
            SpecExpr::Unary { op: operator, child: Box::new(expr_model(*child_node)) }
        },
        ExpressionNode::NaryExprNode { operator, child_nodes } => {
            SpecExpr::Nary { op: operator, children: exprs_model(child_nodes@) }
        },
        ExpressionNode::VariableExprNode { variable_key } => {
            SpecExpr::Variable { name: variable_key@ }
        },
        ExpressionNode::ConstantExprNode { value } => {
            SpecExpr::Constant { value: value@ }
        },
    }
}

impl View for ExpressionNode {
    type V = SpecExpr;

    open spec fn view(&self) -> SpecExpr {
        expr_model(*self)
    }
}

/// `exprs_model` maps `expr_model` over the list, keeping length and order.
pub proof fn lemma_exprs_model(v: Seq<ExpressionNode>)
    ensures
        exprs_model(v).len() == v.len(),
        forall|i: int| 0 <= i < v.len() ==> exprs_model(v)[i] == expr_model(v[i]),
    decreases v,
{
    if v.len() > 0 {
        lemma_exprs_model(v.drop_first());
    }
}

} // verus!
