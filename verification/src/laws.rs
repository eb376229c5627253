//! Laws that hold across the library's functions, stated and proved once.

use vstd::prelude::*;

use crate::expression::NaryOperator;
use crate::expression::SpecConstant;
use crate::expression::SpecEvaluationError;
use crate::expression::SpecExpr;
use crate::grammar::alpha_end;
use crate::grammar::digits_end;
use crate::grammar::euler_at;
use crate::grammar::is_digit_char;
use crate::grammar::is_space_char;
use crate::grammar::number_end;
use crate::grammar::pi_end;
use crate::grammar::skip_space;
use crate::grammar::spec_parse;
use crate::grammar::spec_sum;
use crate::grammar::tag_at;
use crate::grammar::unary_tag_at;
use crate::semantics::eval_status;
use crate::semantics::eval_status_list;

verus! {

/// When the primary alternatives at the start of the input yield `c` and
/// consume everything, the whole input parses to `c`: no operator fold can
/// add anything at the end of the input.
proof fn lemma_whole_primary(s: Seq<char>, c: SpecExpr)
    requires
        s.len() > 0,
        !is_space_char(s[0]),
        s[0] != '-',
        crate::grammar::spec_primary_alt(s, 0) == Some((c, s.len() as int)),
    ensures
        spec_parse(s) == Some(c),
{
    reveal_strlit("sin");
    reveal_strlit("asin");
    reveal_strlit("arcsin");
    reveal_strlit("cos");
    reveal_strlit("acos");
    reveal_strlit("arccos");
    reveal_strlit("tan");
    reveal_strlit("tg");
    reveal_strlit("ctan");
    reveal_strlit("ctg");
    reveal_strlit("abs");
    reveal_strlit("exp");
    reveal_strlit("log2");
    reveal_strlit("log10");
    reveal_strlit("ln");
    reveal_strlit("ceil");
    reveal_strlit("floor");
    reveal_strlit("log");
    let l = s.len() as int;
    assert(skip_space(s, 0) == 0);
    assert(skip_space(s, l) == l);
    assert(crate::grammar::spec_primary(s, 0) == Some((c, l)));
    // Nothing can be parsed at the end of the input.
    assert(digits_end(s, l) == l);
    assert(number_end(s, l) is None);
    assert(crate::grammar::spec_parens(s, l) is None);
    assert(forall|t: Seq<char>| t.len() > 0 ==> !tag_at(s, l, t));
    assert(unary_tag_at(s, l) is None);
    assert(crate::grammar::spec_unary_call(s, l) is None);
    assert(crate::grammar::spec_abs_bars(s, l) is None);
    assert(crate::grammar::spec_log_call(s, l) is None);
    assert(!euler_at(s, l));
    assert(pi_end(s, l) is None);
    assert(alpha_end(s, l) == l);
    assert(crate::grammar::spec_primary_alt(s, l) is None);
    assert(crate::grammar::spec_primary(s, l) is None);
    assert(crate::grammar::spec_power(s, l) is None);
    // Fold the levels back up: each one passes `c` through unchanged.
    assert(crate::grammar::spec_power_tail(s, l, c) == (c, l));
    assert(crate::grammar::spec_power(s, 0) == Some((c, l)));
    assert(crate::grammar::spec_product_tail(s, l, c) == (c, l));
    assert(crate::grammar::spec_product(s, 0) == Some((c, l)));
    assert(crate::grammar::spec_unary(s, 0) == Some((c, l)));
    assert(crate::grammar::spec_sum_tail(s, l, c) == (c, l));
    assert(spec_sum(s, 0) == Some((c, l)));
}

/// A string that is one whole numeric literal parses to exactly the
/// constant node carrying that literal, and the resulting tree evaluates
/// without error against every environment: a constant is
/// environment-independent.
pub proof fn lemma_numeric_literal(s: Seq<char>, env: Set<Seq<char>>)
    requires
        number_end(s, 0) == Some(s.len() as int),
    ensures
        spec_parse(s) == Some(SpecExpr::Constant { value: SpecConstant::Number(s) }),
        eval_status(SpecExpr::Constant { value: SpecConstant::Number(s) }, env)
            == Ok::<(), SpecEvaluationError>(()),
{
    let l = s.len() as int;
    assert(l > 0) by {
        if l == 0 {
            assert(digits_end(s, 0) == 0);
            assert(number_end(s, 0) is None);
        }
    }
    assert(is_digit_char(s[0]) || s[0] == '.') by {
        if !is_digit_char(s[0]) {
            assert(digits_end(s, 0) == 0);
        }
    }
    let c = SpecExpr::Constant { value: SpecConstant::Number(s.subrange(0, l)) };
    assert(s.subrange(0, l) =~= s);
    assert(crate::grammar::spec_primary_alt(s, 0) == Some((c, l)));
    lemma_whole_primary(s, c);
}

/// All letters from `i` on means the letter run ends only at the end of
/// the input.
proof fn lemma_alpha_run(s: Seq<char>, i: int)
    requires
        0 <= i <= s.len(),
        forall|k: int| i <= k < s.len() ==> crate::grammar::is_alpha_char(s[k]),
    ensures
        alpha_end(s, i) == s.len(),
    decreases s.len() - i,
{
    if i < s.len() {
        lemma_alpha_run(s, i + 1);
    }
}

/// A word made of letters parses as a single variable carrying the whole
/// word — unless the word is exactly the named constant `e` or `pi` (in
/// any letter case).  A name that merely starts like a constant, such as
/// `epsilon` or `pie`, is a variable, never the constant followed by
/// leftover letters.
pub proof fn lemma_word_is_variable(s: Seq<char>)
    requires
        s.len() > 0,
        forall|k: int| 0 <= k < s.len() ==> crate::grammar::is_alpha_char(s[k]),
        !(s.len() == 1 && (s[0] == 'e' || s[0] == 'E')),
        !(s.len() == 2 && (s[0] == 'p' || s[0] == 'P') && (s[1] == 'i' || s[1] == 'I')),
    ensures
        spec_parse(s) == Some(SpecExpr::Variable { name: s }),
{
    reveal_strlit("sin");
    reveal_strlit("asin");
    reveal_strlit("arcsin");
    reveal_strlit("cos");
    reveal_strlit("acos");
    reveal_strlit("arccos");
    reveal_strlit("tan");
    reveal_strlit("tg");
    reveal_strlit("ctan");
    reveal_strlit("ctg");
    reveal_strlit("abs");
    reveal_strlit("exp");
    reveal_strlit("log2");
    reveal_strlit("log10");
    reveal_strlit("ln");
    reveal_strlit("ceil");
    reveal_strlit("floor");
    reveal_strlit("log");
    let l = s.len() as int;
    assert(skip_space(s, 0) == 0);
    // No alternative before the variable one can accept a letter run.
    assert(digits_end(s, 0) == 0);
    assert(number_end(s, 0) is None);
    assert(crate::grammar::spec_parens(s, 0) is None);
    assert(crate::grammar::spec_unary_call(s, 0) is None) by {
        if unary_tag_at(s, 0) is Some {
            let t = unary_tag_at(s, 0)->Some_0.1;
            assert(0 <= t <= l);
            assert(skip_space(s, t) == t);
            assert(crate::grammar::spec_parens(s, t) is None);
        }
    }
    assert(crate::grammar::spec_abs_bars(s, 0) is None);
    assert(crate::grammar::spec_log_call(s, 0) is None) by {
        if tag_at(s, 0, "log"@) {
            assert(skip_space(s, 3) == 3);
            assert(crate::grammar::spec_args(s, 3) is None);
        }
    }
    assert(!euler_at(s, 0));
    assert(pi_end(s, 0) is None);
    lemma_alpha_run(s, 0);
    let v = SpecExpr::Variable { name: s.subrange(0, l) };
    assert(s.subrange(0, l) =~= s);
    assert(crate::grammar::spec_primary_alt(s, 0) == Some((v, l)));
    lemma_whole_primary(s, v);
}

/// An evaluated `log` node whose arguments all evaluate reports a wrong
/// argument count exactly when the count differs from two, whatever the
/// environment.
pub proof fn lemma_log_arity(children: Seq<SpecExpr>, env: Set<Seq<char>>)
    requires
        eval_status_list(children, env) == Ok::<(), SpecEvaluationError>(()),
    ensures
        eval_status(SpecExpr::Nary { op: NaryOperator::Log, children }, env) == if children.len()
            == 2 {
            Ok::<(), SpecEvaluationError>(())
        } else {
            Err::<(), SpecEvaluationError>(
                SpecEvaluationError::WrongNumberOfArgs(NaryOperator::Log, children.len()),
            )
        },
{
}

/// A variable evaluates exactly when the environment binds its name, and
/// otherwise reports that name as not found.
pub proof fn lemma_variable_status(name: Seq<char>, env: Set<Seq<char>>)
    ensures
        eval_status(SpecExpr::Variable { name }, env) == if env.contains(name) {
            Ok::<(), SpecEvaluationError>(())
        } else {
            Err::<(), SpecEvaluationError>(SpecEvaluationError::VariableNotFound(name))
        },
{
}

} // verus!
