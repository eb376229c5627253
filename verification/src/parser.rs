//! The executable recursive-descent parser.
//!
//! Each function consumes input from a character position and is verified
//! to return exactly what the corresponding grammar rule in
//! [`crate::grammar`] defines: the same tree and the same end position on
//! success, and failure exactly when the rule does not match.

use vstd::prelude::*;

use crate::expression::BinaryOperator;
use crate::expression::ConstantValue;
use crate::expression::ExpressionNode;
use crate::expression::NaryOperator;
use crate::expression::UnaryOperator;
use crate::grammar::alpha_end;
use crate::grammar::digits_end;
use crate::grammar::euler_at;
use crate::grammar::number_end;
use crate::grammar::pi_end;
use crate::grammar::skip_space;
use crate::grammar::spec_parse;
use crate::grammar::tag_at;
use crate::grammar::unary_tag_at;
use crate::grammar::is_alpha_char;

verus! {

/// The input could not be parsed as one complete expression: an invalid
/// token, unmatched parentheses, leftover trailing text, or empty input.
#[derive(Debug, Clone, Copy, PartialEq, Eq, Structural)]
pub struct ParseError;

/// The first position at or after `i` holding no whitespace.
fn skip_whitespace(s: &str, i: usize) -> (j: usize)
    requires
        i <= s@.len(),
    ensures
        j as int == skip_space(s@, i as int),
        i <= j <= s@.len(),
{
    let n = s.unicode_len();
    let mut j = i;
    loop
        invariant
            i <= j <= n,
            n == s@.len(),
            skip_space(s@, i as int) == skip_space(s@, j as int),
        decreases s@.len() - j,
    {
        if j >= n {
            return j;
        }
        let c = s.get_char(j);
        if !(c == ' ' || c == '\t' || c == '\n' || c == '\r') {
            return j;
        }
        proof {
            assert(skip_space(s@, j as int) == skip_space(s@, j + 1));
        }
        j += 1;
    }
}

/// The end of the run of digits starting at `i`.
fn scan_digits(s: &str, i: usize) -> (j: usize)
    requires
        i <= s@.len(),
    ensures
        j as int == digits_end(s@, i as int),
        i <= j <= s@.len(),
{
    let n = s.unicode_len();
    let mut j = i;
    loop
        invariant
            i <= j <= n,
            n == s@.len(),
            digits_end(s@, i as int) == digits_end(s@, j as int),
        decreases s@.len() - j,
    {
        if j >= n {
            return j;
        }
        let c = s.get_char(j);
        if !(c >= '0' && c <= '9') {
            return j;
        }
        proof {
            assert(digits_end(s@, j as int) == digits_end(s@, j + 1));
        }
        j += 1;
    }
}

/// The end of the run of letters starting at `i`.
fn scan_letters(s: &str, i: usize) -> (j: usize)
    requires
        i <= s@.len(),
    ensures
        j as int == alpha_end(s@, i as int),
        i <= j <= s@.len(),
{
    let n = s.unicode_len();
    let mut j = i;
    loop
        invariant
            i <= j <= n,
            n == s@.len(),
            alpha_end(s@, i as int) == alpha_end(s@, j as int),
        decreases s@.len() - j,
    {
        if j >= n {
            return j;
        }
        let c = s.get_char(j);
        if !((c >= 'a' && c <= 'z') || (c >= 'A' && c <= 'Z')) {
            return j;
        }
        proof {
            assert(alpha_end(s@, j as int) == alpha_end(s@, j + 1));
        }
        j += 1;
    }
}

/// Whether the letter at `i` exists and is alphabetic.
fn letter_follows(s: &str, i: usize) -> (r: bool)
    requires
        i <= s@.len(),
    ensures
        r == (i < s@.len() && is_alpha_char(s@[i as int])),
{
    if i < s.unicode_len() {
        let c = s.get_char(i);
        (c >= 'a' && c <= 'z') || (c >= 'A' && c <= 'Z')
    } else {
        false
    }
}

/// Whether the characters of `t` occur in `s` starting exactly at `i`.
fn match_tag(s: &str, i: usize, t: &str) -> (r: bool)
    requires
        i <= s@.len(),
    ensures
        r == tag_at(s@, i as int, t@),
{
    let n = s.unicode_len();
    let tl = t.unicode_len();
    if tl > n - i {
        return false;
    }
    let mut k: usize = 0;
    loop
        invariant
            0 <= k <= tl,
            tl == t@.len(),
            n == s@.len(),
            i + tl <= n,
            forall|q: int| 0 <= q < k ==> s@[i + q] == t@[q],
        decreases tl - k,
    {
        if k >= tl {
            return true;
        }
        if s.get_char(i + k) != t.get_char(k) {
            proof {
                assert(s@[i + k as int] != t@[k as int]);
            }
            return false;
        }
        k += 1;
    }
}

/// The end of the numeric literal starting at `i`, or `None`.
fn scan_number(s: &str, i: usize) -> (r: Option<usize>)
    requires
        i <= s@.len(),
    ensures
        match r {
            Some(k) => number_end(s@, i as int) == Some(k as int) && i < k <= s@.len(),
            None => number_end(s@, i as int) is None,
        },
{
    let n = s.unicode_len();
    let d = scan_digits(s, i);
    let m: usize;
    if d > i {
        if d < n && s.get_char(d) == '.' {
            m = scan_digits(s, d + 1);
        } else {
            m = d;
        }
    } else {
        if i < n && s.get_char(i) == '.' {
            let e = scan_digits(s, i + 1);
            if e > i + 1 {
                m = e;
            } else {
                return None;
            }
        } else {
            return None;
        }
    }
    if m < n {
        let c = s.get_char(m);
        if c == 'e' || c == 'E' {
            let e2 = scan_digits(s, m + 1);
            if e2 > m + 1 {
                return Some(e2);
            }
        }
    }
    Some(m)
}

/// The function-name tag starting at `i`, with its operator and the
/// position just past the tag.
fn match_unary_tag(s: &str, i: usize) -> (r: Option<(UnaryOperator, usize)>)
    requires
        i <= s@.len(),
    ensures
        match r {
            Some((op, t)) => unary_tag_at(s@, i as int) == Some((op, t as int)) && i < t
                <= s@.len(),
            None => unary_tag_at(s@, i as int) is None,
        },
{
    let n = s.unicode_len();
    proof {
        reveal_strlit("sin");
        reveal_strlit("asin");
        reveal_strlit("arcsin");
        reveal_strlit("cos");
        reveal_strlit("acos");
        reveal_strlit("arccos");
        reveal_strlit("tan");
        reveal_strlit("tg");
        reveal_strlit("ctan");
        reveal_strlit("ctg");
        reveal_strlit("abs");
        reveal_strlit("exp");
        reveal_strlit("log2");
        reveal_strlit("log10");
        reveal_strlit("ln");
        reveal_strlit("ceil");
        reveal_strlit("floor");
    }
    if match_tag(s, i, "sin") {
        Some((UnaryOperator::Sin, i + 3))
    } else if match_tag(s, i, "asin") {
        Some((UnaryOperator::Asin, i + 4))
    } else if match_tag(s, i, "arcsin") {
        Some((UnaryOperator::Asin, i + 6))
    } else if match_tag(s, i, "cos") {
        Some((UnaryOperator::Cos, i + 3))
    } else if match_tag(s, i, "acos") {
        Some((UnaryOperator::Acos, i + 4))
    } else if match_tag(s, i, "arccos") {
        Some((UnaryOperator::Acos, i + 6))
    } else if match_tag(s, i, "tan") {
        Some((UnaryOperator::Tan, i + 3))
    } else if match_tag(s, i, "tg") {
        Some((UnaryOperator::Tan, i + 2))
    } else if match_tag(s, i, "ctan") {
        Some((UnaryOperator::Ctan, i + 4))
    } else if match_tag(s, i, "ctg") {
        Some((UnaryOperator::Ctan, i + 3))
    } else if match_tag(s, i, "abs") {
        Some((UnaryOperator::Abs, i + 3))
    } else if match_tag(s, i, "exp") {
        Some((UnaryOperator::Exp, i + 3))
    } else if match_tag(s, i, "log2") {
        Some((UnaryOperator::Log2, i + 4))
    } else if match_tag(s, i, "log10") {
        Some((UnaryOperator::Log10, i + 5))
    } else if match_tag(s, i, "ln") {
        Some((UnaryOperator::Ln, i + 2))
    } else if match_tag(s, i, "ceil") {
        Some((UnaryOperator::Ceil, i + 4))
    } else if match_tag(s, i, "floor") {
        Some((UnaryOperator::Floor, i + 5))
    } else {
        None
    }
}

/// Whether the named constant `e` stands alone at `i`.
fn match_euler(s: &str, i: usize) -> (r: bool)
    requires
        i <= s@.len(),
    ensures
        r == euler_at(s@, i as int),
{
    if i < s.unicode_len() {
        let c = s.get_char(i);
        (c == 'e' || c == 'E') && !letter_follows(s, i + 1)
    } else {
        false
    }
}

/// The end of the named constant `pi` at `i`, or `None`.
fn match_pi(s: &str, i: usize) -> (r: Option<usize>)
    requires
        i <= s@.len(),
    ensures
        match r {
            Some(k) => pi_end(s@, i as int) == Some(k as int) && i < k <= s@.len(),
            None => pi_end(s@, i as int) is None,
        },
{
    let n = s.unicode_len();
    if n - i >= 2 && (s.get_char(i) == 'p' || s.get_char(i) == 'P') && (s.get_char(i + 1) == 'i'
        || s.get_char(i + 1) == 'I') {
        if letter_follows(s, i + 2) {
            None
        } else {
            Some(i + 2)
        }
    } else if i < n && s.get_char(i) == '\u{03C0}' {
        if letter_follows(s, i + 1) {
            None
        } else {
            Some(i + 1)
        }
    } else {
        None
    }
}

/// A sum: a unary-minus-level term, then `+`/`-` steps folded to the left.
fn parse_sum(s: &str, i: usize) -> (r: Option<(ExpressionNode, usize)>)
    requires
        i <= s@.len(),
    ensures
        match r {
            Some((e, j)) => crate::grammar::spec_sum(s@, i as int) == Some((e@, j as int)) && i < j
                <= s@.len(),
            None => crate::grammar::spec_sum(s@, i as int) is None,
        },
    decreases s@.len() - i, 8int,
{
    match parse_unary(s, i) {
        None => None,
        Some((first, j)) => Some(parse_sum_tail(s, j, first)),
    }
}

/// The left fold of `+`/`-` steps onto `acc`.
fn parse_sum_tail(s: &str, pos: usize, acc: ExpressionNode) -> (r: (ExpressionNode, usize))
    requires
        pos <= s@.len(),
    ensures
        crate::grammar::spec_sum_tail(s@, pos as int, acc@) == (r.0@, r.1 as int),
        pos <= r.1 <= s@.len(),
    decreases s@.len() - pos, 8int,
{
    let n = s.unicode_len();
    let jw = skip_whitespace(s, pos);
    if jw < n {
        let c = s.get_char(jw);
        if c == '+' || c == '-' {
            let operator = if c == '+' {
                BinaryOperator::Addition
            } else {
                BinaryOperator::Subtraction
            };
            match parse_unary(s, jw + 1) {
                Some((rhs, k)) => {
                    let joined = ExpressionNode::BinaryExprNode {
                        operator,
                        left_node: Box::new(acc),
                        right_node: Box::new(rhs),
                    };
                    return parse_sum_tail(s, k, joined);
                },
                None => {
                    return (acc, pos);
                },
            }
        }
    }
    (acc, pos)
}

/// A unary-minus-level term: `-` binding one whole product, or a product.
fn parse_unary(s: &str, i: usize) -> (r: Option<(ExpressionNode, usize)>)
    requires
        i <= s@.len(),
    ensures
        match r {
            Some((e, j)) => crate::grammar::spec_unary(s@, i as int) == Some((e@, j as int)) && i
                < j <= s@.len(),
            None => crate::grammar::spec_unary(s@, i as int) is None,
        },
    decreases s@.len() - i, 7int,
{
    let n = s.unicode_len();
    let jw = skip_whitespace(s, i);
    if jw < n && s.get_char(jw) == '-' {
        match parse_product(s, jw + 1) {
            Some((child, k)) => {
                let node = ExpressionNode::UnaryExprNode {
                    operator: UnaryOperator::Negation,
                    child_node: Box::new(child),
                };
                Some((node, k))
            },
            None => parse_product(s, i),
        }
    } else {
        parse_product(s, i)
    }
}

/// A product: a power-level term, an optional adjacent power-level term
/// taken as implicit multiplication, then `*`/`/` steps folded to the left.
fn parse_product(s: &str, i: usize) -> (r: Option<(ExpressionNode, usize)>)
    requires
        i <= s@.len(),
    ensures
        match r {
            Some((e, j)) => crate::grammar::spec_product(s@, i as int) == Some((e@, j as int)) && i
                < j <= s@.len(),
            None => crate::grammar::spec_product(s@, i as int) is None,
        },
    decreases s@.len() - i, 6int,
{
    match parse_power(s, i) {
        None => None,
        Some((first, j)) => {
            let (start, p) = match parse_power(s, j) {
                Some((second, k)) => {
                    let node = ExpressionNode::BinaryExprNode {
                        operator: BinaryOperator::Multiplication,
                        left_node: Box::new(first),
                        right_node: Box::new(second),
                    };
                    (node, k)
                },
                None => (first, j),
            };
            Some(parse_product_tail(s, p, start))
        },
    }
}

/// The left fold of `*`/`/` steps onto `acc`.
fn parse_product_tail(s: &str, pos: usize, acc: ExpressionNode) -> (r: (ExpressionNode, usize))
    requires
        pos <= s@.len(),
    ensures
        crate::grammar::spec_product_tail(s@, pos as int, acc@) == (r.0@, r.1 as int),
        pos <= r.1 <= s@.len(),
    decreases s@.len() - pos, 6int,
{
    let n = s.unicode_len();
    let jw = skip_whitespace(s, pos);
    if jw < n {
        let c = s.get_char(jw);
        if c == '*' || c == '/' {
            let operator = if c == '*' {
                BinaryOperator::Multiplication
            } else {
                BinaryOperator::Division
            };
            match parse_power(s, jw + 1) {
                Some((rhs, k)) => {
                    let joined = ExpressionNode::BinaryExprNode {
                        operator,
                        left_node: Box::new(acc),
                        right_node: Box::new(rhs),
                    };
                    return parse_product_tail(s, k, joined);
                },
                None => {
                    return (acc, pos);
                },
            }
        }
    }
    (acc, pos)
}

/// A power: a primary, then `^` steps folded to the left.
fn parse_power(s: &str, i: usize) -> (r: Option<(ExpressionNode, usize)>)
    requires
        i <= s@.len(),
    ensures
        match r {
            Some((e, j)) => crate::grammar::spec_power(s@, i as int) == Some((e@, j as int)) && i
                < j <= s@.len(),
            None => crate::grammar::spec_power(s@, i as int) is None,
        },
    decreases s@.len() - i, 5int,
{
    match parse_primary(s, i) {
        None => None,
        Some((first, j)) => Some(parse_power_tail(s, j, first)),
    }
}

/// The left fold of `^` steps onto `acc`.
fn parse_power_tail(s: &str, pos: usize, acc: ExpressionNode) -> (r: (ExpressionNode, usize))
    requires
        pos <= s@.len(),
    ensures
        crate::grammar::spec_power_tail(s@, pos as int, acc@) == (r.0@, r.1 as int),
        pos <= r.1 <= s@.len(),
    decreases s@.len() - pos, 5int,
{
    let n = s.unicode_len();
    let jw = skip_whitespace(s, pos);
    if jw < n && s.get_char(jw) == '^' {
        match parse_primary(s, jw + 1) {
            Some((rhs, k)) => {
                let joined = ExpressionNode::BinaryExprNode {
                    operator: BinaryOperator::Exponentiation,
                    left_node: Box::new(acc),
                    right_node: Box::new(rhs),
                };
                return parse_power_tail(s, k, joined);
            },
            None => {
                return (acc, pos);
            },
        }
    }
    (acc, pos)
}

/// A primary with its surrounding whitespace skipped.
fn parse_primary(s: &str, i: usize) -> (r: Option<(ExpressionNode, usize)>)
    requires
        i <= s@.len(),
    ensures
        match r {
            Some((e, j)) => crate::grammar::spec_primary(s@, i as int) == Some((e@, j as int)) && i
                < j <= s@.len(),
            None => crate::grammar::spec_primary(s@, i as int) is None,
        },
    decreases s@.len() - i, 4int,
{
    let jw = skip_whitespace(s, i);
    match parse_primary_alt(s, jw) {
        None => None,
        Some((e, k)) => {
            let end = skip_whitespace(s, k);
            Some((e, end))
        },
    }
}

/// The primary alternatives, tried in order.
fn parse_primary_alt(s: &str, i: usize) -> (r: Option<(ExpressionNode, usize)>)
    requires
        i <= s@.len(),
    ensures
        match r {
            Some((e, j)) => crate::grammar::spec_primary_alt(s@, i as int) == Some(
                (e@, j as int),
            ) && i < j <= s@.len(),
            None => crate::grammar::spec_primary_alt(s@, i as int) is None,
        },
    decreases s@.len() - i, 3int,
{
    if let Some(k) = scan_number(s, i) {
        let literal = String::from_str(s.substring_char(i, k));
        let node = ExpressionNode::ConstantExprNode { value: ConstantValue::Number { literal } };
        return Some((node, k));
    }
    if let Some((e, k)) = parse_parens(s, i) {
        return Some((e, k));
    }
    if let Some((e, k)) = parse_unary_call(s, i) {
        return Some((e, k));
    }
    if let Some((e, k)) = parse_abs_bars(s, i) {
        return Some((e, k));
    }
    if let Some((e, k)) = parse_log_call(s, i) {
        return Some((e, k));
    }
    if i < s.unicode_len() && match_euler(s, i) {
        let node = ExpressionNode::ConstantExprNode { value: ConstantValue::Euler };
        return Some((node, i + 1));
    }
    if let Some(k) = match_pi(s, i) {
        let node = ExpressionNode::ConstantExprNode { value: ConstantValue::Pi };
        return Some((node, k));
    }
    let a = scan_letters(s, i);
    if a > i {
        let variable_key = String::from_str(s.substring_char(i, a));
        let node = ExpressionNode::VariableExprNode { variable_key };
        return Some((node, a));
    }
    None
}

/// A named function call: a function tag followed by a parenthesized
/// argument.
fn parse_unary_call(s: &str, i: usize) -> (r: Option<(ExpressionNode, usize)>)
    requires
        i <= s@.len(),
    ensures
        match r {
            Some((e, j)) => crate::grammar::spec_unary_call(s@, i as int) == Some(
                (e@, j as int),
            ) && i < j <= s@.len(),
            None => crate::grammar::spec_unary_call(s@, i as int) is None,
        },
    decreases s@.len() - i, 2int,
{
    match match_unary_tag(s, i) {
        None => None,
        Some((op, t)) => {
            match parse_parens(s, t) {
                None => None,
                Some((child, k)) => {
                    let node = ExpressionNode::UnaryExprNode {
                        operator: op,
                        child_node: Box::new(child),
                    };
                    Some((node, k))
                },
            }
        },
    }
}

/// A parenthesized expression, with whitespace allowed around the
/// parentheses.
fn parse_parens(s: &str, i: usize) -> (r: Option<(ExpressionNode, usize)>)
    requires
        i <= s@.len(),
    ensures
        match r {
            Some((e, j)) => crate::grammar::spec_parens(s@, i as int) == Some((e@, j as int)) && i
                < j <= s@.len(),
            None => crate::grammar::spec_parens(s@, i as int) is None,
        },
    decreases s@.len() - i, 2int,
{
    let n = s.unicode_len();
    let jw = skip_whitespace(s, i);
    if jw < n && s.get_char(jw) == '(' {
        match parse_sum(s, jw + 1) {
            None => None,
            Some((e, k)) => {
                if k < n && s.get_char(k) == ')' {
                    let end = skip_whitespace(s, k + 1);
                    Some((e, end))
                } else {
                    None
                }
            },
        }
    } else {
        None
    }
}

/// `|expression|`: absolute value written with bars.
fn parse_abs_bars(s: &str, i: usize) -> (r: Option<(ExpressionNode, usize)>)
    requires
        i <= s@.len(),
    ensures
        match r {
            Some((e, j)) => crate::grammar::spec_abs_bars(s@, i as int) == Some(
                (e@, j as int),
            ) && i < j <= s@.len(),
            None => crate::grammar::spec_abs_bars(s@, i as int) is None,
        },
    decreases s@.len() - i, 2int,
{
    let n = s.unicode_len();
    if i < n && s.get_char(i) == '|' {
        match parse_sum(s, i + 1) {
            None => None,
            Some((child, k)) => {
                if k < n && s.get_char(k) == '|' {
                    let node = ExpressionNode::UnaryExprNode {
                        operator: UnaryOperator::Abs,
                        child_node: Box::new(child),
                    };
                    Some((node, k + 1))
                } else {
                    None
                }
            },
        }
    } else {
        None
    }
}

/// `log` followed by a parenthesized, comma-separated argument list.
fn parse_log_call(s: &str, i: usize) -> (r: Option<(ExpressionNode, usize)>)
    requires
        i <= s@.len(),
    ensures
        match r {
            Some((e, j)) => crate::grammar::spec_log_call(s@, i as int) == Some(
                (e@, j as int),
            ) && i < j <= s@.len(),
            None => crate::grammar::spec_log_call(s@, i as int) is None,
        },
    decreases s@.len() - i, 2int,
{
    proof {
        reveal_strlit("log");
    }
    if i < s.unicode_len() && match_tag(s, i, "log") {
        match parse_args(s, i + 3) {
            None => None,
            Some((child_nodes, k)) => {
                let node = ExpressionNode::NaryExprNode {
                    operator: NaryOperator::Log,
                    child_nodes,
                };
                Some((node, k))
            },
        }
    } else {
        None
    }
}

/// A parenthesized, comma-separated list of expressions; possibly empty.
fn parse_args(s: &str, i: usize) -> (r: Option<(Vec<ExpressionNode>, usize)>)
    requires
        i <= s@.len(),
    ensures
        match r {
            Some((v, j)) => crate::grammar::spec_args(s@, i as int) == Some(
                (crate::expression::exprs_model(v@), j as int),
            ) && i < j <= s@.len(),
            None => crate::grammar::spec_args(s@, i as int) is None,
        },
    decreases s@.len() - i, 2int,
{
    let n = s.unicode_len();
    let jw = skip_whitespace(s, i);
    if !(jw < n && s.get_char(jw) == '(') {
        return None;
    }
    let mut children: Vec<ExpressionNode> = Vec::new();
    let mut pos: usize;
    match parse_sum(s, jw + 1) {
        None => {
            pos = jw + 1;
            proof {
                assert(crate::expression::exprs_model(children@) =~= Seq::<
                    crate::expression::SpecExpr,
                >::empty());
            }
        },
        Some((first, j)) => {
            proof {
                crate::expression::lemma_exprs_model(children@.push(first));
                assert(crate::expression::exprs_model(children@.push(first)) =~= seq![first@]);
            }
            children.push(first);
            let rest = parse_args_tail(s, j, children);
            children = rest.0;
            pos = rest.1;
        },
    }
    if pos < n && s.get_char(pos) == ')' {
        let end = skip_whitespace(s, pos + 1);
        Some((children, end))
    } else {
        None
    }
}

/// Parses the longest expression starting at the beginning of `input` and
/// returns it with the number of characters consumed; the rest of the
/// input is left untouched.  Fails exactly when no expression starts
/// there.
pub fn parse_expr(input: &str) -> (r: Result<(ExpressionNode, usize), ParseError>)
    ensures
        match r {
            Ok((e, consumed)) => crate::grammar::spec_sum(input@, 0) == Some(
                (e@, consumed as int),
            ) && 0 < consumed <= input@.len(),
            Err(_) => crate::grammar::spec_sum(input@, 0) is None,
        },
{
    match parse_sum(input, 0) {
        Some((e, j)) => Ok((e, j)),
        None => Err(ParseError),
    }
}

/// Parses the entire input as one expression.  Any unconsumed trailing
/// characters, or failure to match any rule, is a `ParseError`, so the
/// result is `Ok` exactly when the whole input is one expression of the
/// grammar.
pub fn parse(input: &str) -> (r: Result<ExpressionNode, ParseError>)
    ensures
        match r {
            Ok(e) => spec_parse(input@) == Some(e@),
            Err(_) => spec_parse(input@) is None,
        },
{
    let n = input.unicode_len();
    match parse_sum(input, 0) {
        Some((e, j)) => {
            if j == n {
                Ok(e)
            } else {
                Err(ParseError)
            }
        },
        None => Err(ParseError),
    }
}

/// The remaining `, expression` steps of an argument list, appended to
/// `acc`.
fn parse_args_tail(s: &str, pos: usize, acc: Vec<ExpressionNode>) -> (r: (
    Vec<ExpressionNode>,
    usize,
))
    requires
        pos <= s@.len(),
    ensures
        crate::grammar::spec_args_tail(s@, pos as int, crate::expression::exprs_model(acc@)) == (
            crate::expression::exprs_model(r.0@),
            r.1 as int,
        ),
        pos <= r.1 <= s@.len(),
    decreases s@.len() - pos, 2int,
{
    let n = s.unicode_len();
    if pos < n && s.get_char(pos) == ',' {
        match parse_sum(s, pos + 1) {
            Some((next, k)) => {
                let mut extended = acc;
                proof {
                    crate::expression::lemma_exprs_model(extended@);
                    crate::expression::lemma_exprs_model(extended@.push(next));
                    assert(crate::expression::exprs_model(extended@.push(next))
                        =~= crate::expression::exprs_model(extended@).push(next@));
                }
                extended.push(next);
                parse_args_tail(s, k, extended)
            },
            None => (acc, pos),
        }
    } else {
        (acc, pos)
    }
}

} // verus!
