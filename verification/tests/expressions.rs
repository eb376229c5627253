use std::collections::HashMap;

use sexe::parse;
use sexe::parse_expr;
use sexe::BinaryOperator;
use sexe::ConstantValue;
use sexe::EvaluationError;
use sexe::ExpressionNode;
use sexe::NaryOperator;
use sexe::UnaryOperator;

/// Folds a parsed tree to a number under IEEE-754 rules, mirroring the
/// evaluation order whose success and failure the library's
/// `evaluation_status` decides: children first, left to right; only an
/// unresolved variable or a wrong argument count is a hard error.
fn eval(expr: &ExpressionNode, vars: &HashMap<String, f64>) -> Result<f64, EvaluationError> {
    match expr {
        ExpressionNode::BinaryExprNode { operator, left_node, right_node } => {
            let left_value = eval(left_node, vars)?;
            let right_value = eval(right_node, vars)?;
            Ok(match operator {
                BinaryOperator::Addition => left_value + right_value,
                BinaryOperator::Subtraction => left_value - right_value,
                BinaryOperator::Multiplication => left_value * right_value,
                BinaryOperator::Division => left_value / right_value,
                BinaryOperator::Exponentiation => left_value.powf(right_value),
            })
        }
        ExpressionNode::UnaryExprNode { operator, child_node } => {
            let child_value = eval(child_node, vars)?;
            Ok(match operator {
                UnaryOperator::Sin => child_value.sin(),
                UnaryOperator::Cos => child_value.cos(),
                UnaryOperator::Tan => child_value.tan(),
                UnaryOperator::Ctan => 1.0 / child_value.tan(),
                UnaryOperator::Abs => child_value.abs(),
                UnaryOperator::Exp => child_value.exp(),
                UnaryOperator::Log2 => child_value.log2(),
                UnaryOperator::Log10 => child_value.log10(),
                UnaryOperator::Ln => child_value.ln(),
                UnaryOperator::Negation => -child_value,
                UnaryOperator::Asin => child_value.asin(),
                UnaryOperator::Acos => child_value.acos(),
                UnaryOperator::Ceil => child_value.ceil(),
                UnaryOperator::Floor => child_value.floor(),
            })
        }
        ExpressionNode::NaryExprNode { operator, child_nodes } => {
            let mut child_values = Vec::new();
            for child in child_nodes.iter() {
                child_values.push(eval(child, vars)?);
            }
            match operator {
                NaryOperator::Log => {
                    if let [a, b] = child_values[..] {
                        Ok(a.log(b))
                    } else {
                        Err(EvaluationError::WrongNumberOfArgsError {
                            operator: *operator,
                            got: child_values.len(),
                        })
                    }
                }
            }
        }
        ExpressionNode::VariableExprNode { variable_key } => match vars.get(variable_key) {
            Some(x) => Ok(*x),
            None => Err(EvaluationError::VariableNotFoundError {
                variable_key: variable_key.clone(),
            }),
        },
        ExpressionNode::ConstantExprNode { value } => Ok(match value {
            ConstantValue::Number { literal } => literal.parse().unwrap(),
            ConstantValue::Euler => std::f64::consts::E,
            ConstantValue::Pi => std::f64::consts::PI,
        }),
    }
}

/// Parses a leading expression (trailing input is allowed) and evaluates
/// it.
fn eval_str(input: &str, vars: &HashMap<String, f64>) -> Result<f64, EvaluationError> {
    let (expr, _consumed) = parse_expr(input).unwrap();
    eval(&expr, vars)
}

fn check_eval(input: &str, expected: f64, vars: &HashMap<String, f64>) {
    assert_eq!(eval_str(input, vars).unwrap(), expected, "input: {}", input);
}

fn check_error(input: &str, expected: EvaluationError, vars: &HashMap<String, f64>) {
    assert_eq!(eval_str(input, vars).err().unwrap(), expected, "input: {}", input);
}

fn x_is_ten() -> HashMap<String, f64> {
    let mut vars_map = HashMap::new();
    vars_map.insert("x".to_string(), 10.0);
    vars_map
}

#[test]
fn lib_trivial_expressions() {
    let vars_map = x_is_ten();

    check_eval("3", 3.0, &HashMap::new());
    check_eval("x", 10.0, &vars_map);
}

#[test]
fn lib_constant_expression() {
    let empty = HashMap::new();

    check_eval("(3(3))", 9.0, &empty);
    check_eval("3(3(3))", 27.0, &empty);
    check_eval("3+10", 13.0, &empty);
    check_eval("3-(2+1)", 0.0, &empty);
    check_eval("3-(2-1)", 2.0, &empty);
    check_eval("3-(2-3+1)+(4-1+4)", 10.0, &empty);
    check_eval("3+2+2-8+1-3", -3.0, &empty);
    check_eval("3-4-5-6", -12.0, &empty);
    check_eval("2*2/(5-1)+3", 4.0, &empty);
    check_eval("2/2/(5-1)*3", 0.75, &empty);
    check_eval("-4*4", -16.0, &empty);
    check_eval("3*(-3)", -9.0, &empty);
}

#[test]
fn lib_variable_expressions() {
    let vars_map = x_is_ten();

    check_eval("3(x(3))", 90.0, &vars_map);
    check_eval("3x", 30.0, &vars_map);
    check_eval("-x*sin(0)", 0.0, &vars_map);
    check_eval("3^3", 27.0, &vars_map);
    check_eval("2^3", 8.0, &vars_map);
    check_eval("3^2", 9.0, &vars_map);
    check_eval("3^(-3)", 1.0 / 27.0, &vars_map);
    check_eval("(((2(4)))))", 8.0, &vars_map);
    check_eval("-2^4", -16.0, &vars_map);
    check_eval("(-2)^4", 16.0, &vars_map);
    check_eval("exp(0)", 1.0, &vars_map);
    check_eval("log2(2)", 1.0, &vars_map);
    check_eval("log2(8)", 3.0, &vars_map);
    check_eval("log(9,3)", 2.0, &HashMap::new());
    check_eval("3 -   (2  -  3 + 1   ) + (  4 - 1    +4 )", 10.0, &vars_map);
    check_eval("ln(e)", 1.0, &vars_map);
    check_eval("sin (   0   )", 0.0, &vars_map);
    check_eval("sin (   0 * pi  )", 0.0, &vars_map);
    check_eval("log( 9 , 3)", 2.0, &vars_map);
}

#[test]
fn lib_error_tests() {
    let mut vars_map = HashMap::new();
    vars_map.insert("x".to_string(), 10.0);
    vars_map.insert("foo".to_string(), 10.0);

    check_error(
        "log(3,9,5)",
        EvaluationError::WrongNumberOfArgsError { operator: NaryOperator::Log, got: 3 },
        &HashMap::new(),
    );
    check_error(
        "log(3,    9   ,5)",
        EvaluationError::WrongNumberOfArgsError { operator: NaryOperator::Log, got: 3 },
        &HashMap::new(),
    );
    check_error(
        "y",
        EvaluationError::VariableNotFoundError { variable_key: "y".to_string() },
        &vars_map,
    );
}

#[test]
fn parser_trivial_expressions() {
    let vars_map = x_is_ten();

    check_eval("3", 3.0, &HashMap::new());
    check_eval("x", 10.0, &vars_map);
}

#[test]
fn parser_constant_expression() {
    let empty = HashMap::new();

    check_eval("(3(3))", 9.0, &empty);
    check_eval("3(3(3))", 27.0, &empty);
    check_eval("3+10", 13.0, &empty);
    check_eval("3-(2+1)", 0.0, &empty);
    check_eval("3-(2-1)", 2.0, &empty);
    check_eval("3-(2-3+1)+(4-1+4)", 10.0, &empty);
    check_eval("3+2+2-8+1-3", -3.0, &empty);
    check_eval("3-4-5-6", -12.0, &empty);
    check_eval("2*2/(5-1)+3", 4.0, &empty);
    check_eval("2/2/(5-1)*3", 0.75, &empty);
    check_eval("-4*4", -16.0, &empty);
    check_eval("3*(-3)", -9.0, &empty);
}

#[test]
fn parser_variable_expressions() {
    let vars_map = x_is_ten();

    check_eval("3(x(3))", 90.0, &vars_map);
    check_eval("3x", 30.0, &vars_map);
    check_eval("-x*sin(0)", 0.0, &vars_map);
    check_eval("3^3", 27.0, &vars_map);
    check_eval("2^3", 8.0, &vars_map);
    check_eval("3^2", 9.0, &vars_map);
    check_eval("3^(-3)", 1.0 / 27.0, &vars_map);
    check_eval("(((2(4)))))", 8.0, &vars_map);
    check_eval("-2^4", -16.0, &vars_map);
    check_eval("(-2)^4", 16.0, &vars_map);
    check_eval("exp(0)", 1.0, &vars_map);
    check_eval("log2(2)", 1.0, &vars_map);
    check_eval("log2(8)", 3.0, &vars_map);
    check_eval("log(9,3)", 2.0, &HashMap::new());
    check_eval("3 -   (2  -  3 + 1   ) + (  4 - 1    +4 )", 10.0, &vars_map);
    check_eval("ln(e)", 1.0, &vars_map);
    check_eval("sin (   0   )", 0.0, &vars_map);
    check_eval("sin (   0 * pi  )", 0.0, &vars_map);
    check_eval("log( 9 , 3)", 2.0, &vars_map);
}

#[test]
fn parser_error_tests() {
    let mut vars_map = HashMap::new();
    vars_map.insert("x".to_string(), 10.0);
    vars_map.insert("foo".to_string(), 10.0);

    check_error(
        "log(3,9,5)",
        EvaluationError::WrongNumberOfArgsError { operator: NaryOperator::Log, got: 3 },
        &HashMap::new(),
    );
    check_error(
        "log(3,    9   ,5)",
        EvaluationError::WrongNumberOfArgsError { operator: NaryOperator::Log, got: 3 },
        &HashMap::new(),
    );
    check_error(
        "y",
        EvaluationError::VariableNotFoundError { variable_key: "y".to_string() },
        &vars_map,
    );
}

#[test]
fn complex_expression_evaluates_correctly() {
    let complex_expression = ExpressionNode::BinaryExprNode {
        operator: BinaryOperator::Multiplication,
        left_node: Box::new(ExpressionNode::ConstantExprNode {
            value: ConstantValue::Number { literal: "4.0".to_string() },
        }),
        right_node: Box::new(ExpressionNode::BinaryExprNode {
            operator: BinaryOperator::Addition,
            left_node: Box::new(ExpressionNode::UnaryExprNode {
                operator: UnaryOperator::Sin,
                child_node: Box::new(ExpressionNode::VariableExprNode {
                    variable_key: "x".to_string(),
                }),
            }),
            right_node: Box::new(ExpressionNode::ConstantExprNode {
                value: ConstantValue::Number { literal: "3.0".to_string() },
            }),
        }),
    };

    let mut vars_map = HashMap::new();
    vars_map.insert("x".to_string(), 0.0);

    assert_eq!(eval(&complex_expression, &vars_map).unwrap(), 12.0);
}

#[test]
fn complex_epression_evaluates_correctly() {
    let complex_expression = ExpressionNode::BinaryExprNode {
        operator: BinaryOperator::Multiplication,
        left_node: Box::new(ExpressionNode::ConstantExprNode {
            value: ConstantValue::Number { literal: "4.0".to_string() },
        }),
        right_node: Box::new(ExpressionNode::BinaryExprNode {
            operator: BinaryOperator::Addition,
            left_node: Box::new(ExpressionNode::UnaryExprNode {
                operator: UnaryOperator::Sin,
                child_node: Box::new(ExpressionNode::VariableExprNode {
                    variable_key: "x".to_string(),
                }),
            }),
            right_node: Box::new(ExpressionNode::ConstantExprNode {
                value: ConstantValue::Number { literal: "3.0".to_string() },
            }),
        }),
    };

    let mut vars_map = HashMap::new();
    vars_map.insert("x".to_string(), 0.0);

    assert_eq!(eval(&complex_expression, &vars_map).unwrap(), 12.0);
}

#[test]
fn numeric_literal_is_environment_independent() {
    let expr = parse("2.5e2").unwrap();
    assert_eq!(
        expr,
        ExpressionNode::ConstantExprNode {
            value: ConstantValue::Number { literal: "2.5e2".to_string() },
        }
    );
    assert_eq!(eval(&expr, &HashMap::new()).unwrap(), 250.0);
    assert_eq!(eval(&expr, &x_is_ten()).unwrap(), 250.0);

    check_eval("3.", 3.0, &HashMap::new());
    check_eval(".5", 0.5, &HashMap::new());
    check_eval("2e3", 2000.0, &HashMap::new());
    check_eval("3.e2", 300.0, &HashMap::new());
}

#[test]
fn parse_consumes_all_or_fails() {
    assert!(parse("3+").is_err());
    assert!(parse("").is_err());
    assert!(parse("(3").is_err());
    assert!(parse("3)").is_err());

    let expr = parse("3 3").unwrap();
    assert_eq!(eval(&expr, &HashMap::new()).unwrap(), 9.0);
    let expr = parse("3(3)").unwrap();
    assert_eq!(eval(&expr, &HashMap::new()).unwrap(), 9.0);

    let (expr, consumed) = parse_expr("(((2(4)))))").unwrap();
    assert_eq!(consumed, 10);
    assert_eq!(eval(&expr, &HashMap::new()).unwrap(), 8.0);
}

#[test]
fn precedence_and_associativity() {
    let empty = HashMap::new();
    let expr = parse("2*2/(5-1)+3").unwrap();
    assert_eq!(eval(&expr, &empty).unwrap(), 4.0);
    let expr = parse("2/2/(5-1)*3").unwrap();
    assert_eq!(eval(&expr, &empty).unwrap(), 0.75);
    let expr = parse("-2^4").unwrap();
    assert_eq!(eval(&expr, &empty).unwrap(), -16.0);
    let expr = parse("(-2)^4").unwrap();
    assert_eq!(eval(&expr, &empty).unwrap(), 16.0);

    // The prefix minus binds the whole power, so `-2^4` is `-(2^4)`.
    let two = || ExpressionNode::ConstantExprNode {
        value: ConstantValue::Number { literal: "2".to_string() },
    };
    let four = || ExpressionNode::ConstantExprNode {
        value: ConstantValue::Number { literal: "4".to_string() },
    };
    assert_eq!(
        parse("-2^4").unwrap(),
        ExpressionNode::UnaryExprNode {
            operator: UnaryOperator::Negation,
            child_node: Box::new(ExpressionNode::BinaryExprNode {
                operator: BinaryOperator::Exponentiation,
                left_node: Box::new(two()),
                right_node: Box::new(four()),
            }),
        }
    );
    assert_eq!(
        parse("(-2)^4").unwrap(),
        ExpressionNode::BinaryExprNode {
            operator: BinaryOperator::Exponentiation,
            left_node: Box::new(ExpressionNode::UnaryExprNode {
                operator: UnaryOperator::Negation,
                child_node: Box::new(two()),
            }),
            right_node: Box::new(four()),
        }
    );

    // `^` folds to the left: 2^3^2 is (2^3)^2 = 64, not 2^(3^2) = 512.
    check_eval("2^3^2", 64.0, &HashMap::new());
}

#[test]
fn implicit_multiplication_with_variables() {
    let vars_map = x_is_ten();
    check_eval("3x", 30.0, &vars_map);
    check_eval("3(x(3))", 90.0, &vars_map);
    check_eval("2^3 x", 80.0, &vars_map);
}

#[test]
fn named_constant_disambiguation() {
    let empty = HashMap::new();
    check_eval("ln(e)", 1.0, &empty);
    check_eval("sin(0*pi)", 0.0, &empty);
    assert_eq!(eval_str("e", &empty).unwrap(), std::f64::consts::E);
    assert_eq!(eval_str("PI", &empty).unwrap(), std::f64::consts::PI);

    // A longer name starting like a constant is a variable, not the
    // constant followed by leftovers.
    check_error(
        "epsilon",
        EvaluationError::VariableNotFoundError { variable_key: "epsilon".to_string() },
        &empty,
    );
    check_error(
        "pie",
        EvaluationError::VariableNotFoundError { variable_key: "pie".to_string() },
        &empty,
    );
}

#[test]
fn log_arity_is_checked_at_evaluation() {
    let empty = HashMap::new();
    check_eval("log(9,3)", 2.0, &empty);
    check_error(
        "log(3,9,5)",
        EvaluationError::WrongNumberOfArgsError { operator: NaryOperator::Log, got: 3 },
        &empty,
    );
    check_error(
        "log()",
        EvaluationError::WrongNumberOfArgsError { operator: NaryOperator::Log, got: 0 },
        &empty,
    );
    check_error(
        "log(2)",
        EvaluationError::WrongNumberOfArgsError { operator: NaryOperator::Log, got: 1 },
        &empty,
    );
}

#[test]
fn unresolved_variable_is_reported_by_name() {
    check_error(
        "y",
        EvaluationError::VariableNotFoundError { variable_key: "y".to_string() },
        &HashMap::new(),
    );
}

#[test]
fn evaluation_status_decides_evaluation() {
    let x_only = vec!["x".to_string()];
    let expr = parse("sin(x^2)+3x").unwrap();
    assert_eq!(expr.evaluation_status(&x_only), Ok(()));
    assert!(eval(&expr, &x_is_ten()).is_ok());

    let expr = parse("y").unwrap();
    assert_eq!(
        expr.evaluation_status(&x_only),
        Err(EvaluationError::VariableNotFoundError { variable_key: "y".to_string() })
    );

    let expr = parse("log(3,9,5)").unwrap();
    assert_eq!(
        expr.evaluation_status(&x_only),
        Err(EvaluationError::WrongNumberOfArgsError { operator: NaryOperator::Log, got: 3 })
    );

    // The first error in evaluation order wins: arguments are evaluated
    // before an arity check, and the left subtree before the right.
    let expr = parse("log(y,2,3)").unwrap();
    assert_eq!(
        expr.evaluation_status(&x_only),
        Err(EvaluationError::VariableNotFoundError { variable_key: "y".to_string() })
    );
    let expr = parse("y+log(1,2,3)").unwrap();
    assert_eq!(
        expr.evaluation_status(&x_only),
        Err(EvaluationError::VariableNotFoundError { variable_key: "y".to_string() })
    );
}

#[test]
fn evaluation_is_deterministic() {
    let expr = parse("sin(x^2)+3x/ln(x)").unwrap();
    let vars = x_is_ten();
    let first = eval(&expr, &vars).unwrap();
    let second = eval(&expr, &vars).unwrap();
    assert_eq!(first.to_bits(), second.to_bits());

    // Re-parsing the same text yields the identical tree.
    assert_eq!(parse("sin(x^2)+3x/ln(x)").unwrap(), expr);
}

#[test]
fn whitespace_is_insignificant_between_tokens() {
    let vars_map = x_is_ten();
    check_eval(" - x", -10.0, &vars_map);
    check_eval(" ( 3 ) ", 3.0, &vars_map);
    check_eval("log ( 9 , 3 )", 2.0, &vars_map);
    check_eval("3e+5", 3.0 * std::f64::consts::E + 5.0, &vars_map);
}

#[test]
fn function_call_primaries() {
    let empty = HashMap::new();
    check_eval("sin(0)", 0.0, &empty);
    check_eval("cos(0)", 1.0, &empty);
    check_eval("tan(0)", 0.0, &empty);
    check_eval("tg(0)", 0.0, &empty);
    check_eval("ctan(pi/2)", (std::f64::consts::PI / 2.0).tan().recip(), &empty);
    check_eval("ctg(pi/2)", (std::f64::consts::PI / 2.0).tan().recip(), &empty);
    check_eval("abs(0-3)", 3.0, &empty);
    check_eval("|0-3|", 3.0, &empty);
    check_eval("exp(0)", 1.0, &empty);
    check_eval("log2(8)", 3.0, &empty);
    check_eval("log10(100)", 2.0, &empty);
    check_eval("ln(1)", 0.0, &empty);
    check_eval("asin(0)", 0.0, &empty);
    check_eval("arcsin(0)", 0.0, &empty);
    check_eval("acos(1)", 0.0, &empty);
    check_eval("arccos(1)", 0.0, &empty);
    check_eval("ceil(2.3)", 3.0, &empty);
    check_eval("floor(2.7)", 2.0, &empty);
}

#[test]
fn malformed_inputs_fail_to_parse() {
    assert!(parse("   ").is_err());
    assert!(parse("()").is_err());
    assert!(parse("3**3").is_err());
    assert!(parse("log(3,)").is_err());
    assert!(parse("|3").is_err());
    assert!(parse_expr("").is_err());
    assert!(parse_expr("+3").is_err());
}
