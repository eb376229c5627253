//! Evaluation-order semantics of an expression tree.
//!
//! Evaluating a tree against an environment can fail in exactly two ways:
//! a variable is not bound, or an N-ary operator is applied to the wrong
//! number of arguments.  Arithmetic itself follows IEEE-754 rules (division
//! by zero, infinities and NaN propagate) and is never a hard error, so
//! whether evaluation succeeds — and which error it reports — depends only
//! on the shape of the tree and on which names the environment binds.
//! `eval_status` defines that outcome; `evaluation_status` computes it.

use vstd::prelude::*;

use crate::expression::EvaluationError;
use crate::expression::ExpressionNode;
use crate::expression::NaryOperator;
use crate::expression::SpecEvaluationError;
use crate::expression::SpecExpr;

verus! {

/// The arity that an N-ary operator demands of its argument list.
pub open spec fn nary_arity(op: NaryOperator) -> nat {
    match op {
        NaryOperator::Log => 2,
    }
}

/// The outcome of evaluating `e` against an environment binding exactly the
/// names in `env`: `Ok(())` when evaluation returns a number, otherwise the
/// first error met in evaluation order (children first, left to right).
pub open spec fn eval_status(e: SpecExpr, env: Set<Seq<char>>) -> Result<(), SpecEvaluationError>
    decreases e,
{
    match e {
        SpecExpr::Binary { op, left, right } => {
            if eval_status(*left, env) is Err {
                eval_status(*left, env)
            } else {
                eval_status(*right, env)
            }
        },
        SpecExpr::Unary { op, child } => eval_status(*child, env),
        SpecExpr::Nary { op, children } => {
            if eval_status_list(children, env) is Err {
                eval_status_list(children, env)
            } else if children.len() == nary_arity(op) {
                Ok(())
            } else {
                Err(SpecEvaluationError::WrongNumberOfArgs(op, children.len()))
            }
        },
        SpecExpr::Variable { name } => {
            if env.contains(name) {
                Ok(())
            } else {
                Err(SpecEvaluationError::VariableNotFound(name))
            }
        },
        SpecExpr::Constant { value } => Ok(()),
    }
}

/// The first error met while evaluating a list of subtrees left to right,
/// or `Ok(())` when every one evaluates.
pub open spec fn eval_status_list(es: Seq<SpecExpr>, env: Set<Seq<char>>) -> Result<
    (),
    SpecEvaluationError,
>
    decreases es,
{
    if es.len() == 0 {
        Ok(())
    } else if eval_status(es[0], env) is Err {
        eval_status(es[0], env)
    } else {
        eval_status_list(es.drop_first(), env)
    }
}

/// The set of names that a sequence of variable-binding keys provides.
pub open spec fn env_names(vars: Seq<String>) -> Set<Seq<char>> {
    Set::new(|name: Seq<char>| exists|i: int| 0 <= i < vars.len() && vars[i]@ == name)
}

/// Whether `key` is one of the bound names in `vars`.
fn env_binds(vars: &Vec<String>, key: &String) -> (r: bool)
    ensures
        r == env_names(vars@).contains(key@),
{
    let mut i: usize = 0;
    while i < vars.len()
        invariant
            i <= vars@.len(),
            forall|k: int| 0 <= k < i ==> vars@[k]@ != key@,
        decreases vars@.len() - i,
    {
        if vars[i].eq(key) {
            proof {
                assert(exists|k: int| 0 <= k < vars@.len() && vars@[k]@ == key@) by {
                    assert(vars@[i as int]@ == key@);
                }
            }
            return true;
        }
        i += 1;
    }
    assert(!env_names(vars@).contains(key@));
    false
}

impl ExpressionNode {
    /// Decides whether this tree evaluates to a number against an
    /// environment that binds exactly the names in `vars`, and otherwise
    /// returns the first error met in evaluation order.  A caller that then
    /// folds the tree numerically fails on exactly the same inputs.
    #[verifier::loop_isolation(false)]
    pub fn evaluation_status(&self, vars: &Vec<String>) -> (r: Result<(), EvaluationError>)
        ensures
            match r {
                Ok(()) => eval_status(self@, env_names(vars@)) == Ok::<(), SpecEvaluationError>(()),
                Err(e) => eval_status(self@, env_names(vars@)) == Err::<(), SpecEvaluationError>(
                    e@,
                ),
            },
        decreases *self,
    {
        match self {
            ExpressionNode::BinaryExprNode { operator, left_node, right_node } => {
                match left_node.evaluation_status(vars) {
                    Err(e) => Err(e),
                    Ok(()) => right_node.evaluation_status(vars),
                }
            },
            ExpressionNode::UnaryExprNode { operator, child_node } => {
                child_node.evaluation_status(vars)
            },
            ExpressionNode::NaryExprNode { operator, child_nodes } => {
                let ghost children = crate::expression::exprs_model(child_nodes@);
                proof {
                    crate::expression::lemma_exprs_model(child_nodes@);
                    assert(children.skip(0) =~= children);
                }
                let mut i: usize = 0;
                while i < child_nodes.len()
                    invariant
                        i <= child_nodes@.len(),
                        children == crate::expression::exprs_model(child_nodes@),
                        children.len() == child_nodes@.len(),
                        forall|k: int|
                            0 <= k < children.len() ==> children[k] == crate::expression::expr_model(
                                child_nodes@[k],
                            ),
                        eval_status_list(children.skip(i as int), env_names(vars@))
                            == eval_status_list(children, env_names(vars@)),
                    decreases child_nodes@.len() - i,
                {
                    proof {
                        vstd::std_specs::vec::axiom_vec_index_decreases(*child_nodes, i as int);
                    }
                    let r = child_nodes[i].evaluation_status(vars);
                    if let Err(e) = r {
                        return Err(e);
                    }
                    proof {
                        assert(children.skip(i as int).drop_first() =~= children.skip(i + 1));
                    }
                    i += 1;
                }
                proof {
                    assert(children.skip(child_nodes@.len() as int) =~= Seq::empty());
                }
                let expected_args: usize = match operator {
                    NaryOperator::Log => 2,
                };
                if child_nodes.len() == expected_args {
                    Ok(())
                } else {
                    Err(
                        EvaluationError::WrongNumberOfArgsError {
                            operator: *operator,
                            got: child_nodes.len(),
                        },
                    )
                }
            },
            ExpressionNode::VariableExprNode { variable_key } => {
                if env_binds(vars, variable_key) {
                    Ok(())
                } else {
                    Err(
                        EvaluationError::VariableNotFoundError {
                            variable_key: variable_key.clone(),
                        },
                    )
                }
            },
            ExpressionNode::ConstantExprNode { value } => Ok(()),
        }
    }
}

} // verus!
