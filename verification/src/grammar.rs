//! The grammar, written as mathematics.
//!
//! Each function here defines, over a sequence of characters and a start
//! position, what one grammar rule accepts and which tree it builds.  The
//! levels bind from loosest to tightest: sum (`+`, `-`, left-associative),
//! unary prefix minus, product (`*`, `/`, left-associative, with implicit
//! multiplication of two adjacent power-level terms), power (`^`,
//! left-associative), and primary (literal, parenthesized expression,
//! function call, `|...|`, `log(...)`, named constant, or variable).
//! Whitespace may appear between any two tokens.
//!
//! Each parsing function returns the tree together with the position just
//! past what it consumed, or `None` when the rule does not match.  The
//! executable parser is verified to return exactly what these functions
//! define.
//!
//! A few branches guard a recursive call with a bounds test on the position
//! returned by an inner rule (such as `pos < next && next <= s.len()`).
//! Every rule only ever moves forward through the input, so the guards are
//! always true; they make that fact available where the definition itself
//! needs it for termination.

use vstd::prelude::*;

use crate::expression::BinaryOperator;
use crate::expression::NaryOperator;
use crate::expression::SpecConstant;
use crate::expression::SpecExpr;
use crate::expression::UnaryOperator;

verus! {

/// Whitespace, insignificant between any two tokens.
pub open spec fn is_space_char(c: char) -> bool {
    c == ' ' || c == '\t' || c == '\n' || c == '\r'
}

/// An ASCII decimal digit.
pub open spec fn is_digit_char(c: char) -> bool {
    '0' <= c && c <= '9'
}

/// An ASCII letter; variable names are runs of these.
pub open spec fn is_alpha_char(c: char) -> bool {
    ('a' <= c && c <= 'z') || ('A' <= c && c <= 'Z')
}

/// The first position at or after `i` holding no whitespace.
pub open spec fn skip_space(s: Seq<char>, i: int) -> int
    decreases s.len() - i,
{
    if 0 <= i && i < s.len() && is_space_char(s[i]) {
        skip_space(s, i + 1)
    } else {
        i
    }
}

/// The end of the run of digits starting at `i`.
pub open spec fn digits_end(s: Seq<char>, i: int) -> int
    decreases s.len() - i,
{
    if 0 <= i && i < s.len() && is_digit_char(s[i]) {
        digits_end(s, i + 1)
    } else {
        i
    }
}

/// The end of the run of letters starting at `i`.
pub open spec fn alpha_end(s: Seq<char>, i: int) -> int
    decreases s.len() - i,
{
    if 0 <= i && i < s.len() && is_alpha_char(s[i]) {
        alpha_end(s, i + 1)
    } else {
        i
    }
}

/// Whether the characters of `t` occur in `s` starting exactly at `i`.
pub open spec fn tag_at(s: Seq<char>, i: int, t: Seq<char>) -> bool {
    0 <= i && i + t.len() <= s.len() && (forall|k: int| 0 <= k < t.len() ==> s[i + k] == t[k])
}

/// The end of the numeric literal starting at `i`, or `None` when no
/// literal starts there.  A literal is digits with an optional `.` and
/// optional further digits, or `.` followed by digits; optionally followed
/// by `e`/`E` and digits.  A sign is never part of a literal: `+` and `-`
/// belong to the sum and unary-minus rules, so `x+3` is a sum and not `x`
/// next to `(+3)`.
pub open spec fn number_end(s: Seq<char>, i: int) -> Option<int> {
    let d = digits_end(s, i);
    let mantissa = if d > i {
        if d < s.len() && s[d] == '.' {
            Some(digits_end(s, d + 1))
        } else {
            Some(d)
        }
    } else {
        if 0 <= i && i < s.len() && s[i] == '.' && digits_end(s, i + 1) > i + 1 {
            Some(digits_end(s, i + 1))
        } else {
            None
        }
    };
    match mantissa {
        None => None,
        Some(m) => {
            if m < s.len() && (s[m] == 'e' || s[m] == 'E') && digits_end(s, m + 1) > m + 1 {
                Some(digits_end(s, m + 1))
            } else {
                Some(m)
            }
        },
    }
}

/// The function-name tag starting at `i`, searched in a fixed order, with
/// the operator it names and the position just past the tag.  No listed
/// tag is a prefix of another, so at most one can match.
pub open spec fn unary_tag_at(s: Seq<char>, i: int) -> Option<(UnaryOperator, int)> {
    if tag_at(s, i, "sin"@) {
        Some((UnaryOperator::Sin, i + 3))
    } else if tag_at(s, i, "asin"@) {
        Some((UnaryOperator::Asin, i + 4))
    } else if tag_at(s, i, "arcsin"@) {
        Some((UnaryOperator::Asin, i + 6))
    } else if tag_at(s, i, "cos"@) {
        Some((UnaryOperator::Cos, i + 3))
    } else if tag_at(s, i, "acos"@) {
        Some((UnaryOperator::Acos, i + 4))
    } else if tag_at(s, i, "arccos"@) {
        Some((UnaryOperator::Acos, i + 6))
    } else if tag_at(s, i, "tan"@) {
        Some((UnaryOperator::Tan, i + 3))
    } else if tag_at(s, i, "tg"@) {
        Some((UnaryOperator::Tan, i + 2))
    } else if tag_at(s, i, "ctan"@) {
        Some((UnaryOperator::Ctan, i + 4))
    } else if tag_at(s, i, "ctg"@) {
        Some((UnaryOperator::Ctan, i + 3))
    } else if tag_at(s, i, "abs"@) {
        Some((UnaryOperator::Abs, i + 3))
    } else if tag_at(s, i, "exp"@) {
        Some((UnaryOperator::Exp, i + 3))
    } else if tag_at(s, i, "log2"@) {
        Some((UnaryOperator::Log2, i + 4))
    } else if tag_at(s, i, "log10"@) {
        Some((UnaryOperator::Log10, i + 5))
    } else if tag_at(s, i, "ln"@) {
        Some((UnaryOperator::Ln, i + 2))
    } else if tag_at(s, i, "ceil"@) {
        Some((UnaryOperator::Ceil, i + 4))
    } else if tag_at(s, i, "floor"@) {
        Some((UnaryOperator::Floor, i + 5))
    } else {
        None
    }
}

/// Whether the named constant `e` stands alone at `i`: `e` or `E`, not
/// followed by a further letter, so that a variable such as `epsilon` is
/// not mistaken for the constant.
pub open spec fn euler_at(s: Seq<char>, i: int) -> bool {
    0 <= i && i < s.len() && (s[i] == 'e' || s[i] == 'E') && !(i + 1 < s.len() && is_alpha_char(
        s[i + 1],
    ))
}

/// The end of the named constant `pi` at `i` (any letter case, or the
/// Greek letter), or `None`.  As with `e`, a following letter means a
/// variable name, not the constant.
pub open spec fn pi_end(s: Seq<char>, i: int) -> Option<int> {
    if 0 <= i && i + 2 <= s.len() && (s[i] == 'p' || s[i] == 'P') && (s[i + 1] == 'i' || s[i + 1]
        == 'I') {
        if i + 2 < s.len() && is_alpha_char(s[i + 2]) {
            None
        } else {
            Some(i + 2)
        }
    } else if 0 <= i && i < s.len() && s[i] == '\u{03C0}' {
        if i + 1 < s.len() && is_alpha_char(s[i + 1]) {
            None
        } else {
            Some(i + 1)
        }
    } else {
        None
    }
}

/// A sum: a unary-minus-level term, then any number of `+`/`-` steps,
/// folded to the left.
pub open spec fn spec_sum(s: Seq<char>, i: int) -> Option<(SpecExpr, int)>
    decreases s.len() - i, 8int,
{
    match spec_unary(s, i) {
        None => None,
        Some((first, j)) => {
            if i < j && j <= s.len() {
                Some(spec_sum_tail(s, j, first))
            } else {
                None
            }
        },
    }
}

/// The left fold of `+`/`-` steps onto `acc`; stops before the first
/// position where no further step matches.
pub open spec fn spec_sum_tail(s: Seq<char>, pos: int, acc: SpecExpr) -> (SpecExpr, int)
    decreases s.len() - pos, 8int,
{
    let jw = skip_space(s, pos);
    if pos <= jw && jw < s.len() && (s[jw] == '+' || s[jw] == '-') {
        let op = if s[jw] == '+' {
            BinaryOperator::Addition
        } else {
            BinaryOperator::Subtraction
        };
        match spec_unary(s, jw + 1) {
            None => (acc, pos),
            Some((rhs, k)) => {
                if pos < k && k <= s.len() {
                    spec_sum_tail(
                        s,
                        k,
                        SpecExpr::Binary { op, left: Box::new(acc), right: Box::new(rhs) },
                    )
                } else {
                    (acc, pos)
                }
            },
        }
    } else {
        (acc, pos)
    }
}

/// A unary-minus-level term: `-` binding one whole product, or a product.
pub open spec fn spec_unary(s: Seq<char>, i: int) -> Option<(SpecExpr, int)>
    decreases s.len() - i, 7int,
{
    let jw = skip_space(s, i);
    if i <= jw && jw < s.len() && s[jw] == '-' {
        match spec_product(s, jw + 1) {
            Some((child, k)) => {
                Some(
                    (
                        SpecExpr::Unary { op: UnaryOperator::Negation, child: Box::new(child) },
                        k,
                    ),
                )
            },
            None => spec_product(s, i),
        }
    } else {
        spec_product(s, i)
    }
}

/// A product: a power-level term, then either one adjacent power-level
/// term with no operator between them (implicit multiplication, as in `3x`
/// or `3(3)`), or nothing; then any number of `*`/`/` steps folded to the
/// left.
pub open spec fn spec_product(s: Seq<char>, i: int) -> Option<(SpecExpr, int)>
    decreases s.len() - i, 6int,
{
    match spec_power(s, i) {
        None => None,
        Some((first, j)) => {
            if i <= j && j <= s.len() {
                let start = match spec_power(s, j) {
                    Some((second, k)) => {
                        (
                            SpecExpr::Binary {
                                op: BinaryOperator::Multiplication,
                                left: Box::new(first),
                                right: Box::new(second),
                            },
                            k,
                        )
                    },
                    None => (first, j),
                };
                if i < start.1 && start.1 <= s.len() {
                    Some(spec_product_tail(s, start.1, start.0))
                } else {
                    None
                }
            } else {
                None
            }
        },
    }
}

/// The left fold of `*`/`/` steps onto `acc`.
pub open spec fn spec_product_tail(s: Seq<char>, pos: int, acc: SpecExpr) -> (SpecExpr, int)
    decreases s.len() - pos, 6int,
{
    let jw = skip_space(s, pos);
    if pos <= jw && jw < s.len() && (s[jw] == '*' || s[jw] == '/') {
        let op = if s[jw] == '*' {
            BinaryOperator::Multiplication
        } else {
            BinaryOperator::Division
        };
        match spec_power(s, jw + 1) {
            None => (acc, pos),
            Some((rhs, k)) => {
                if pos < k && k <= s.len() {
                    spec_product_tail(
                        s,
                        k,
                        SpecExpr::Binary { op, left: Box::new(acc), right: Box::new(rhs) },
                    )
                } else {
                    (acc, pos)
                }
            },
        }
    } else {
        (acc, pos)
    }
}

/// A power: a primary, then any number of `^` steps folded to the left, so
/// `2^3^2` is `(2^3)^2`.
pub open spec fn spec_power(s: Seq<char>, i: int) -> Option<(SpecExpr, int)>
    decreases s.len() - i, 5int,
{
    match spec_primary(s, i) {
        None => None,
        Some((first, j)) => {
            if i < j && j <= s.len() {
                Some(spec_power_tail(s, j, first))
            } else {
                None
            }
        },
    }
}

/// The left fold of `^` steps onto `acc`.
pub open spec fn spec_power_tail(s: Seq<char>, pos: int, acc: SpecExpr) -> (SpecExpr, int)
    decreases s.len() - pos, 5int,
{
    let jw = skip_space(s, pos);
    if pos <= jw && jw < s.len() && s[jw] == '^' {
        match spec_primary(s, jw + 1) {
            None => (acc, pos),
            Some((rhs, k)) => {
                if pos < k && k <= s.len() {
                    spec_power_tail(
                        s,
                        k,
                        SpecExpr::Binary {
                            op: BinaryOperator::Exponentiation,
                            left: Box::new(acc),
                            right: Box::new(rhs),
                        },
                    )
                } else {
                    (acc, pos)
                }
            },
        }
    } else {
        (acc, pos)
    }
}

/// A primary with its surrounding whitespace skipped.
pub open spec fn spec_primary(s: Seq<char>, i: int) -> Option<(SpecExpr, int)>
    decreases s.len() - i, 4int,
{
    let jw = skip_space(s, i);
    if i <= jw && jw <= s.len() {
        match spec_primary_alt(s, jw) {
            None => None,
            Some((e, k)) => Some((e, skip_space(s, k))),
        }
    } else {
        None
    }
}

/// The primary alternatives, tried in order: numeric literal,
/// parenthesized expression, named function call, `|...|` absolute value,
/// `log` with an argument list, the constants `e` and `pi`, and last a
/// variable name.  The constants come after the function names so that
/// `exp(x)` is the function and not `e` next to a leftover; a variable is
/// the last resort, which folds names such as `epsilon` into one variable
/// rather than the constant `e` followed by letters.
pub open spec fn spec_primary_alt(s: Seq<char>, i: int) -> Option<(SpecExpr, int)>
    decreases s.len() - i, 3int,
{
    if number_end(s, i) is Some {
        let k = number_end(s, i)->Some_0;
        Some((SpecExpr::Constant { value: SpecConstant::Number(s.subrange(i, k)) }, k))
    } else if spec_parens(s, i) is Some {
        spec_parens(s, i)
    } else if spec_unary_call(s, i) is Some {
        spec_unary_call(s, i)
    } else if spec_abs_bars(s, i) is Some {
        spec_abs_bars(s, i)
    } else if spec_log_call(s, i) is Some {
        spec_log_call(s, i)
    } else if euler_at(s, i) {
        Some((SpecExpr::Constant { value: SpecConstant::Euler }, i + 1))
    } else if pi_end(s, i) is Some {
        Some((SpecExpr::Constant { value: SpecConstant::Pi }, pi_end(s, i)->Some_0))
    } else if alpha_end(s, i) > i {
        Some((SpecExpr::Variable { name: s.subrange(i, alpha_end(s, i)) }, alpha_end(s, i)))
    } else {
        None
    }
}

/// A named function call: a function tag followed by a parenthesized
/// argument.  When the tag matches but no parenthesized argument follows,
/// the whole alternative fails and a later one (such as a variable) may
/// claim the name.
pub open spec fn spec_unary_call(s: Seq<char>, i: int) -> Option<(SpecExpr, int)>
    decreases s.len() - i, 2int,
{
    match unary_tag_at(s, i) {
        None => None,
        Some((op, t)) => {
            if i < t && t <= s.len() {
                match spec_parens(s, t) {
                    None => None,
                    Some((child, k)) => Some((SpecExpr::Unary { op, child: Box::new(child) }, k)),
                }
            } else {
                None
            }
        },
    }
}

/// A parenthesized expression, with whitespace allowed around the
/// parentheses.
pub open spec fn spec_parens(s: Seq<char>, i: int) -> Option<(SpecExpr, int)>
    decreases s.len() - i, 2int,
{
    let jw = skip_space(s, i);
    if i <= jw && jw < s.len() && s[jw] == '(' {
        match spec_sum(s, jw + 1) {
            None => None,
            Some((e, k)) => {
                if 0 <= k && k < s.len() && s[k] == ')' {
                    Some((e, skip_space(s, k + 1)))
                } else {
                    None
                }
            },
        }
    } else {
        None
    }
}

/// `|expression|`: absolute value written with bars.
pub open spec fn spec_abs_bars(s: Seq<char>, i: int) -> Option<(SpecExpr, int)>
    decreases s.len() - i, 2int,
{
    if 0 <= i && i < s.len() && s[i] == '|' {
        match spec_sum(s, i + 1) {
            None => None,
            Some((child, k)) => {
                if 0 <= k && k < s.len() && s[k] == '|' {
                    Some(
                        (
                            SpecExpr::Unary { op: UnaryOperator::Abs, child: Box::new(child) },
                            k + 1,
                        ),
                    )
                } else {
                    None
                }
            },
        }
    } else {
        None
    }
}

/// `log` followed by a parenthesized, comma-separated argument list of any
/// length; the argument count is checked only at evaluation time.
pub open spec fn spec_log_call(s: Seq<char>, i: int) -> Option<(SpecExpr, int)>
    decreases s.len() - i, 2int,
{
    if tag_at(s, i, "log"@) && i + 3 <= s.len() {
        match spec_args(s, i + 3) {
            None => None,
            Some((children, k)) => {
                Some((SpecExpr::Nary { op: NaryOperator::Log, children }, k))
            },
        }
    } else {
        None
    }
}

/// A parenthesized, comma-separated list of expressions; possibly empty.
pub open spec fn spec_args(s: Seq<char>, i: int) -> Option<(Seq<SpecExpr>, int)>
    decreases s.len() - i, 2int,
{
    let jw = skip_space(s, i);
    if i <= jw && jw < s.len() && s[jw] == '(' {
        let list = match spec_sum(s, jw + 1) {
            None => (Seq::<SpecExpr>::empty(), jw + 1),
            Some((first, j)) => {
                if jw + 1 < j && j <= s.len() {
                    spec_args_tail(s, j, seq![first])
                } else {
                    (seq![first], j)
                }
            },
        };
        if 0 <= list.1 && list.1 < s.len() && s[list.1] == ')' {
            Some((list.0, skip_space(s, list.1 + 1)))
        } else {
            None
        }
    } else {
        None
    }
}

/// The remaining `, expression` steps of an argument list.  A comma that
/// is not followed by an expression is left unconsumed, and the list ends
/// before it (the enclosing rule then fails to find `)` there).
pub open spec fn spec_args_tail(s: Seq<char>, pos: int, acc: Seq<SpecExpr>) -> (Seq<SpecExpr>, int)
    decreases s.len() - pos, 2int,
{
    if 0 <= pos && pos < s.len() && s[pos] == ',' {
        match spec_sum(s, pos + 1) {
            None => (acc, pos),
            Some((next, k)) => {
                if pos < k && k <= s.len() {
                    spec_args_tail(s, k, acc.push(next))
                } else {
                    (acc, pos)
                }
            },
        }
    } else {
        (acc, pos)
    }
}

/// What `parse` accepts: a sum that consumes the entire input.
pub open spec fn spec_parse(s: Seq<char>) -> Option<SpecExpr> {
    match spec_sum(s, 0) {
        None => None,
        Some((e, j)) => {
            if j == s.len() {
                Some(e)
            } else {
                None
            }
        },
    }
}

} // verus!
