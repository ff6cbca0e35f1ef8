//! The grammar: statement and expression rules, the top-level dispatcher, and
//! the parse entry point.
//!
//! Each rule tries to match one statement or expression form at a position
//! and either consumes a prefix or fails without consuming anything; the
//! dispatcher tries the rules in a fixed priority order and the first match
//! wins. The spec functions below are the grammar's definition; the
//! executable parser is proved to return exactly what they describe.
//!
//! The spec rules are mutually recursive. Their `decreases` measure is the
//! remaining input paired with a rule rank (a rule may try a lower-ranked
//! rule at the same position; any rule may recurse after consuming input).
//! Explicit bounds tests guard every position that one rule receives from
//! another before it feeds further recursion; the executable parser proves
//! that those guards always hold.

use vstd::prelude::*;

use crate::literals::{literal, p_ident, p_int, p_strict_int, res_text_view, spec_ident,
    spec_int, spec_literal, spec_strict_int};
use crate::text::{blankish, ch_is_ident_char, ch_is_space, ch_is_trim_char, is_ident_char,
    is_space, is_trim_char, sk_line_spaces, sk_spaces, skip_line_spaces, skip_spaces, str_blankish,
    str_to_chars, subvec, t1, t2, t3, tag1, tag2, tag3};
use crate::token::{token_view, token_views, Op, OpView, Token, TokenView, TonsOfTokens};

verus! {

/// Ghost reading of a rule result that carries a token.
pub open spec fn res_token_view(r: Option<(usize, Token)>) -> Option<(int, TokenView)> {
    match r {
        Option::Some((p, t)) => Option::Some((p as int, token_view(t))),
        Option::None => Option::None,
    }
}

/// The eight binary operator kinds, used to parameterize the operator rule.
#[derive(Clone, Copy, Debug, PartialEq, Eq)]
pub enum OpKind {
    Add,
    Subtract,
    Eq,
    Neq,
    Gt,
    Lt,
    Gte,
    Lte,
}

/// Whether the surface token of operator `k` stands at `pos`.
pub open spec fn op_tag_at(s: Seq<char>, pos: int, k: OpKind) -> bool {
    match k {
        OpKind::Add => tag1(s, pos, '+'),
        OpKind::Subtract => tag1(s, pos, '-'),
        OpKind::Eq => tag2(s, pos, '=', '='),
        OpKind::Neq => tag2(s, pos, '!', '='),
        OpKind::Gt => tag1(s, pos, '>'),
        OpKind::Lt => tag1(s, pos, '<'),
        OpKind::Gte => tag2(s, pos, '>', '='),
        OpKind::Lte => tag2(s, pos, '<', '='),
    }
}

/// The length of the surface token of operator `k`.
pub open spec fn op_tag_len(k: OpKind) -> int {
    match k {
        OpKind::Add => 1,
        OpKind::Subtract => 1,
        OpKind::Eq => 2,
        OpKind::Neq => 2,
        OpKind::Gt => 1,
        OpKind::Lt => 1,
        OpKind::Gte => 2,
        OpKind::Lte => 2,
    }
}

/// The operation token for kind `k` over the given operands.
pub open spec fn mk_op_view(k: OpKind, l: TokenView, r: TokenView) -> TokenView {
    TokenView::Op(
        match k {
            OpKind::Add => OpView::Add(Box::new(l), Box::new(r)),
            OpKind::Subtract => OpView::Subtract(Box::new(l), Box::new(r)),
            OpKind::Eq => OpView::Eq(Box::new(l), Box::new(r)),
            OpKind::Neq => OpView::Neq(Box::new(l), Box::new(r)),
            OpKind::Gt => OpView::Gt(Box::new(l), Box::new(r)),
            OpKind::Lt => OpView::Lt(Box::new(l), Box::new(r)),
            OpKind::Gte => OpView::Gte(Box::new(l), Box::new(r)),
            OpKind::Lte => OpView::Lte(Box::new(l), Box::new(r)),
        },
    )
}

/// An optional `mut` keyword followed by at least one space: the position
/// after it and whether it was present.
pub open spec fn spec_opt_mut(s: Seq<char>, pos: int) -> (int, bool) {
    if tag3(s, pos, 'm', 'u', 't') && pos + 3 < s.len() && is_space(s[pos + 3]) {
        (skip_spaces(s, pos + 4), true)
    } else {
        (pos, false)
    }
}

/// An optional second identifier (a type annotation) followed by spaces.
pub open spec fn spec_opt_annot(s: Seq<char>, pos: int) -> Option<(int, Seq<char>)> {
    match spec_ident(s, pos) {
        Option::Some((pa, name)) => {
            let pb = skip_spaces(s, pa);
            if pa <= pb && pb <= s.len() {
                Option::Some((pb, name))
            } else {
                Option::None
            }
        },
        Option::None => Option::None,
    }
}

/// One function parameter: optional `mut`, a type identifier, spaces, and
/// the parameter's identifier.
pub open spec fn spec_param(s: Seq<char>, pos: int) -> Option<(int, TokenView)> {
    let m = spec_opt_mut(s, pos);
    let p1 = m.0;
    if !(pos <= p1 && p1 <= s.len()) {
        Option::None
    } else {
        match spec_ident(s, p1) {
            Option::None => Option::None,
            Option::Some((p2, ty)) => {
                if p2 < s.len() && is_space(s[p2]) {
                    let p3 = skip_spaces(s, p2 + 1);
                    if !(p2 + 1 <= p3 && p3 <= s.len()) {
                        Option::None
                    } else {
                        match spec_ident(s, p3) {
                            Option::None => Option::None,
                            Option::Some((p4, name)) => Option::Some(
                                (
                                    p4,
                                    TokenView::Param {
                                        mutable: m.1,
                                        type_annotation: Box::new(TokenView::Ident(ty)),
                                        ident: Box::new(TokenView::Ident(name)),
                                    },
                                ),
                            ),
                        }
                    }
                } else {
                    Option::None
                }
            },
        }
    }
}

/// A comma-separated parameter list, possibly empty; stops before the first
/// separator that is not followed by a parameter.
pub open spec fn spec_param_list(s: Seq<char>, pos: int) -> (int, Seq<TokenView>)
    decreases s.len() - pos, 1int,
{
    if !(0 <= pos && pos <= s.len()) {
        (pos, Seq::empty())
    } else {
        match spec_param(s, pos) {
            Option::None => (pos, Seq::empty()),
            Option::Some((p1, first)) => {
                if !(pos < p1 && p1 <= s.len()) {
                    (pos, Seq::empty())
                } else {
                    let rest = spec_param_list_more(s, p1);
                    (rest.0, seq![first] + rest.1)
                }
            },
        }
    }
}

/// The continuation of a parameter list: zero or more `, parameter` groups.
pub open spec fn spec_param_list_more(s: Seq<char>, pos: int) -> (int, Seq<TokenView>)
    decreases s.len() - pos, 0int,
{
    if !(0 <= pos && pos <= s.len()) {
        (pos, Seq::empty())
    } else {
        let q = skip_spaces(s, pos);
        if !(pos <= q && q <= s.len()) {
            (pos, Seq::empty())
        } else if tag1(s, q, ',') {
            let q2 = skip_spaces(s, q + 1);
            if !(q + 1 <= q2 && q2 <= s.len()) {
                (pos, Seq::empty())
            } else {
                match spec_param(s, q2) {
                    Option::None => (pos, Seq::empty()),
                    Option::Some((p2, t)) => {
                        if !(q2 < p2 && p2 <= s.len()) {
                            (pos, Seq::empty())
                        } else {
                            let rest = spec_param_list_more(s, p2);
                            (rest.0, seq![t] + rest.1)
                        }
                    },
                }
            }
        } else {
            (pos, Seq::empty())
        }
    }
}

/// The position of the brace that closes `level` open braces, scanning from
/// `pos`; fails when the braces never balance.
pub open spec fn find_close(s: Seq<char>, pos: int, level: int) -> Option<int>
    decreases s.len() - pos,
{
    if !(0 <= pos && pos < s.len()) {
        Option::None
    } else if s[pos] == '}' {
        if level == 1 {
            Option::Some(pos)
        } else {
            find_close(s, pos + 1, level - 1)
        }
    } else if s[pos] == '{' {
        find_close(s, pos + 1, level + 1)
    } else {
        find_close(s, pos + 1, level)
    }
}

/// A brace-balanced block: `{`, the enclosed text, and the matching `}`.
/// The enclosed text, with surrounding line whitespace skipped, is parsed as
/// a full sub-program of its own; what the sub-parse leaves unconsumed is
/// discarded. An unterminated block fails the rule.
pub open spec fn spec_bracket_group(s: Seq<char>, pos: int) -> Option<(int, TokenView)>
    decreases s.len() - pos, 5int,
{
    if !(0 <= pos && pos <= s.len()) {
        Option::None
    } else if pos < s.len() && s[pos] == '{' {
        match find_close(s, pos + 1, 1) {
            Option::None => Option::None,
            Option::Some(u) => {
                if pos < u && u < s.len() {
                    let inner = s.subrange(pos + 1, u);
                    let q = skip_line_spaces(inner, 0);
                    if 0 <= q && q <= inner.len() {
                        let t = spec_token(inner, q);
                        Option::Some((u + 1, t.1))
                    } else {
                        Option::None
                    }
                } else {
                    Option::None
                }
            },
        }
    } else {
        Option::None
    }
}

/// A parenthesized expression: `(`, an expression, `)`.
pub open spec fn spec_paren(s: Seq<char>, pos: int) -> Option<(int, TokenView)>
    decreases s.len() - pos, 0int,
{
    if !(0 <= pos && pos <= s.len()) {
        Option::None
    } else if tag1(s, pos, '(') {
        let p1 = skip_spaces(s, pos + 1);
        if !(pos + 1 <= p1 && p1 <= s.len()) {
            Option::None
        } else {
            let t = spec_token(s, p1);
            let p2 = t.0;
            if !(p1 <= p2 && p2 <= s.len()) {
                Option::None
            } else {
                let p3 = skip_spaces(s, p2);
                if tag1(s, p3, ')') {
                    Option::Some((p3 + 1, t.1))
                } else {
                    Option::None
                }
            }
        }
    } else {
        Option::None
    }
}

/// An atomic expression: a parenthesized expression, an identifier, or a
/// literal: first match wins.
pub open spec fn spec_singleton(s: Seq<char>, pos: int) -> Option<(int, TokenView)>
    decreases s.len() - pos, 1int,
{
    if !(0 <= pos && pos <= s.len()) {
        Option::None
    } else {
        match spec_paren(s, pos) {
            Option::Some(r) => Option::Some(r),
            Option::None => match spec_ident(s, pos) {
                Option::Some((p, name)) => Option::Some((p, TokenView::Ident(name))),
                Option::None => match spec_literal(s, pos) {
                    Option::Some((p, l)) => Option::Some((p, TokenView::Literal(l))),
                    Option::None => Option::None,
                },
            },
        }
    }
}

/// One binary operation: an atomic expression, the operator token of `k`,
/// and another atomic expression.
pub open spec fn spec_binop(s: Seq<char>, pos: int, k: OpKind) -> Option<(int, TokenView)>
    decreases s.len() - pos, 2int,
{
    if !(0 <= pos && pos <= s.len()) {
        Option::None
    } else {
        match spec_singleton(s, pos) {
            Option::None => Option::None,
            Option::Some((p1, l)) => {
                if !(pos < p1 && p1 <= s.len()) {
                    Option::None
                } else {
                    let p2 = skip_spaces(s, p1);
                    if !(p1 <= p2 && p2 <= s.len()) {
                        Option::None
                    } else if op_tag_at(s, p2, k) {
                        let p3 = skip_spaces(s, p2 + op_tag_len(k));
                        if !(p2 + op_tag_len(k) <= p3 && p3 <= s.len()) {
                            Option::None
                        } else {
                            match spec_singleton(s, p3) {
                                Option::None => Option::None,
                                Option::Some((p4, r)) => Option::Some((p4, mk_op_view(k, l, r))),
                            }
                        }
                    } else {
                        Option::None
                    }
                }
            },
        }
    }
}

/// A comparison operation; the two-character operator tokens are tried
/// before their one-character prefixes.
pub open spec fn spec_comparison(s: Seq<char>, pos: int) -> Option<(int, TokenView)>
    decreases s.len() - pos, 3int,
{
    if !(0 <= pos && pos <= s.len()) {
        Option::None
    } else {
        match spec_binop(s, pos, OpKind::Eq) {
            Option::Some(r) => Option::Some(r),
            Option::None => match spec_binop(s, pos, OpKind::Neq) {
                Option::Some(r) => Option::Some(r),
                Option::None => match spec_binop(s, pos, OpKind::Gte) {
                    Option::Some(r) => Option::Some(r),
                    Option::None => match spec_binop(s, pos, OpKind::Lte) {
                        Option::Some(r) => Option::Some(r),
                        Option::None => match spec_binop(s, pos, OpKind::Gt) {
                            Option::Some(r) => Option::Some(r),
                            Option::None => spec_binop(s, pos, OpKind::Lt),
                        },
                    },
                },
            },
        }
    }
}

/// Any binary operation: comparisons are tried before arithmetic.
pub open spec fn spec_ops(s: Seq<char>, pos: int) -> Option<(int, TokenView)>
    decreases s.len() - pos, 4int,
{
    if !(0 <= pos && pos <= s.len()) {
        Option::None
    } else {
        match spec_comparison(s, pos) {
            Option::Some(r) => Option::Some(r),
            Option::None => match spec_binop(s, pos, OpKind::Subtract) {
                Option::Some(r) => Option::Some(r),
                Option::None => spec_binop(s, pos, OpKind::Add),
            },
        }
    }
}

/// A postfix method chain: an atomic expression, `;`, and the expression to
/// apply to it.
pub open spec fn spec_method(s: Seq<char>, pos: int) -> Option<(int, TokenView)>
    decreases s.len() - pos, 2int,
{
    if !(0 <= pos && pos <= s.len()) {
        Option::None
    } else {
        match spec_singleton(s, pos) {
            Option::None => Option::None,
            Option::Some((p1, recv)) => {
                if !(pos < p1 && p1 <= s.len()) {
                    Option::None
                } else {
                    let p2 = skip_spaces(s, p1);
                    if !(p1 <= p2 && p2 <= s.len()) {
                        Option::None
                    } else if tag1(s, p2, ';') {
                        let p3 = skip_spaces(s, p2 + 1);
                        if !(p2 + 1 <= p3 && p3 <= s.len()) {
                            Option::None
                        } else {
                            let rest = spec_token(s, p3);
                            Option::Some(
                                (rest.0, TokenView::Method(Box::new(recv), Box::new(rest.1))),
                            )
                        }
                    } else {
                        Option::None
                    }
                }
            },
        }
    }
}

/// A function definition: `|` parameters `|`, a block, and the remaining
/// program.
pub open spec fn spec_method_def(s: Seq<char>, pos: int) -> Option<(int, TokenView)>
    decreases s.len() - pos, 5int,
{
    if !(0 <= pos && pos <= s.len()) {
        Option::None
    } else if tag1(s, pos, '|') {
        let p1 = skip_spaces(s, pos + 1);
        if !(pos + 1 <= p1 && p1 <= s.len()) {
            Option::None
        } else {
            let pl = spec_param_list(s, p1);
            let p2 = pl.0;
            if !(p1 <= p2 && p2 <= s.len()) {
                Option::None
            } else {
                let p3 = skip_spaces(s, p2);
                if !(p2 <= p3 && p3 <= s.len()) {
                    Option::None
                } else if tag1(s, p3, '|') {
                    let p4 = skip_spaces(s, p3 + 1);
                    if !(p3 + 1 <= p4 && p4 <= s.len()) {
                        Option::None
                    } else {
                        match spec_bracket_group(s, p4) {
                            Option::None => Option::None,
                            Option::Some((p5, body)) => {
                                if !(p4 < p5 && p5 <= s.len()) {
                                    Option::None
                                } else {
                                    let p6 = skip_line_spaces(s, p5);
                                    if !(p5 <= p6 && p6 <= s.len()) {
                                        Option::None
                                    } else {
                                        let rest = spec_token(s, p6);
                                        Option::Some(
                                            (
                                                rest.0,
                                                TokenView::FnPair(
                                                    pl.1,
                                                    Box::new(body),
                                                    Box::new(rest.1),
                                                ),
                                            ),
                                        )
                                    }
                                }
                            },
                        }
                    }
                } else {
                    Option::None
                }
            }
        }
    } else {
        Option::None
    }
}

/// An if statement: `if`, a comparison, a block, and the remaining program.
pub open spec fn spec_ifstmt(s: Seq<char>, pos: int) -> Option<(int, TokenView)>
    decreases s.len() - pos, 5int,
{
    if !(0 <= pos && pos <= s.len()) {
        Option::None
    } else if tag2(s, pos, 'i', 'f') {
        let p1 = skip_spaces(s, pos + 2);
        if !(pos + 2 <= p1 && p1 <= s.len()) {
            Option::None
        } else {
            match spec_comparison(s, p1) {
                Option::None => Option::None,
                Option::Some((p2, cond)) => {
                    if !(p1 < p2 && p2 <= s.len()) {
                        Option::None
                    } else {
                        let p3 = skip_spaces(s, p2);
                        if !(p2 <= p3 && p3 <= s.len()) {
                            Option::None
                        } else {
                            match spec_bracket_group(s, p3) {
                                Option::None => Option::None,
                                Option::Some((p4, block)) => {
                                    if !(p3 < p4 && p4 <= s.len()) {
                                        Option::None
                                    } else {
                                        let p5 = skip_line_spaces(s, p4);
                                        if !(p4 <= p5 && p5 <= s.len()) {
                                            Option::None
                                        } else {
                                            let rest = spec_token(s, p5);
                                            Option::Some(
                                                (
                                                    rest.0,
                                                    TokenView::CondPair(
                                                        Box::new(
                                                            TokenView::IfStmt {
                                                                cond: Box::new(cond),
                                                            },
                                                        ),
                                                        Box::new(block),
                                                        Box::new(rest.1),
                                                    ),
                                                ),
                                            )
                                        }
                                    }
                                },
                            }
                        }
                    }
                },
            }
        }
    } else {
        Option::None
    }
}

/// An assignment: optional `mut`, an identifier, an optional second
/// identifier (then the first is a type annotation and the second the
/// variable), `=`, the bound expression, and the remaining program.
pub open spec fn spec_assignment(s: Seq<char>, pos: int) -> Option<(int, TokenView)>
    decreases s.len() - pos, 5int,
{
    if !(0 <= pos && pos <= s.len()) {
        Option::None
    } else {
        let m = spec_opt_mut(s, pos);
        let p1 = m.0;
        if !(pos <= p1 && p1 <= s.len()) {
            Option::None
        } else {
            match spec_ident(s, p1) {
                Option::None => Option::None,
                Option::Some((p2, first_name)) => {
                    let p3 = skip_spaces(s, p2);
                    if !(p2 <= p3 && p3 <= s.len()) {
                        Option::None
                    } else {
                        let annot = spec_opt_annot(s, p3);
                        let p4 = match annot {
                            Option::Some((pa, _)) => pa,
                            Option::None => p3,
                        };
                        if !(p3 <= p4 && p4 <= s.len()) {
                            Option::None
                        } else if tag1(s, p4, '=') {
                            let p5 = skip_spaces(s, p4 + 1);
                            if !(p4 + 1 <= p5 && p5 <= s.len()) {
                                Option::None
                            } else {
                                let val = spec_token(s, p5);
                                let p6 = val.0;
                                if !(p5 <= p6 && p6 <= s.len()) {
                                    Option::None
                                } else {
                                    let p7 = skip_line_spaces(s, p6);
                                    if !(p6 <= p7 && p7 <= s.len()) {
                                        Option::None
                                    } else {
                                        let rest = spec_token(s, p7);
                                        let stmt = match annot {
                                            Option::Some((_, var_name)) => TokenView::Assignment {
                                                mutable: m.1,
                                                type_annotation: Option::Some(
                                                    Box::new(TokenView::Ident(first_name)),
                                                ),
                                                ident: Box::new(TokenView::Ident(var_name)),
                                                value: Box::new(val.1),
                                            },
                                            Option::None => TokenView::Assignment {
                                                mutable: m.1,
                                                type_annotation: Option::None,
                                                ident: Box::new(TokenView::Ident(first_name)),
                                                value: Box::new(val.1),
                                            },
                                        };
                                        Option::Some(
                                            (
                                                rest.0,
                                                TokenView::Pair(
                                                    Box::new(stmt),
                                                    Box::new(rest.1),
                                                ),
                                            ),
                                        )
                                    }
                                }
                            }
                        } else {
                            Option::None
                        }
                    }
                },
            }
        }
    }
}

/// A prefix call: an identifier, whitespace, an argument expression, and the
/// remaining program.
pub open spec fn spec_method_unit(s: Seq<char>, pos: int) -> Option<(int, TokenView)>
    decreases s.len() - pos, 5int,
{
    if !(0 <= pos && pos <= s.len()) {
        Option::None
    } else {
        match spec_ident(s, pos) {
            Option::None => Option::None,
            Option::Some((p1, name)) => {
                if p1 < s.len() && is_space(s[p1]) {
                    let p2 = skip_spaces(s, p1 + 1);
                    if !(p1 + 1 <= p2 && p2 <= s.len()) {
                        Option::None
                    } else {
                        let arg = spec_token(s, p2);
                        if !(p2 <= arg.0 && arg.0 <= s.len()) {
                            Option::None
                        } else {
                            let p3 = skip_line_spaces(s, arg.0);
                            if !(arg.0 <= p3 && p3 <= s.len()) {
                                Option::None
                            } else {
                                let rest = spec_token(s, p3);
                                Option::Some(
                                    (
                                        rest.0,
                                        TokenView::Pair(
                                            Box::new(
                                                TokenView::MethodUnit(
                                                    Box::new(TokenView::Ident(name)),
                                                    Box::new(arg.1),
                                                ),
                                            ),
                                            Box::new(rest.1),
                                        ),
                                    ),
                                )
                            }
                        }
                    }
                } else {
                    Option::None
                }
            },
        }
    }
}

/// The elements of an array literal: an expression, then zero or more
/// `, expression` groups.
pub open spec fn spec_token_list(s: Seq<char>, pos: int) -> (int, Seq<TokenView>)
    decreases s.len() - pos, 8int,
{
    if !(0 <= pos && pos <= s.len()) {
        (pos, Seq::empty())
    } else {
        let first = spec_token(s, pos);
        let p1 = first.0;
        if !(pos <= p1 && p1 <= s.len()) {
            (pos, seq![first.1])
        } else {
            let rest = spec_token_list_more(s, p1);
            (rest.0, seq![first.1] + rest.1)
        }
    }
}

/// The continuation of an array's element list.
pub open spec fn spec_token_list_more(s: Seq<char>, pos: int) -> (int, Seq<TokenView>)
    decreases s.len() - pos, 7int,
{
    if !(0 <= pos && pos <= s.len()) {
        (pos, Seq::empty())
    } else {
        let q = skip_spaces(s, pos);
        if !(pos <= q && q <= s.len()) {
            (pos, Seq::empty())
        } else if tag1(s, q, ',') {
            let q2 = skip_spaces(s, q + 1);
            if !(q + 1 <= q2 && q2 <= s.len()) {
                (pos, Seq::empty())
            } else {
                let elem = spec_token(s, q2);
                let p1 = elem.0;
                if !(q2 <= p1 && p1 <= s.len()) {
                    (pos, Seq::empty())
                } else {
                    let rest = spec_token_list_more(s, p1);
                    (rest.0, seq![elem.1] + rest.1)
                }
            }
        } else {
            (pos, Seq::empty())
        }
    }
}

/// An array literal: `[`, a comma-separated expression list, `]`.
pub open spec fn spec_array(s: Seq<char>, pos: int) -> Option<(int, TokenView)>
    decreases s.len() - pos, 5int,
{
    if !(0 <= pos && pos <= s.len()) {
        Option::None
    } else if tag1(s, pos, '[') {
        let p1 = skip_spaces(s, pos + 1);
        if !(pos + 1 <= p1 && p1 <= s.len()) {
            Option::None
        } else {
            let lst = spec_token_list(s, p1);
            let p2 = lst.0;
            if !(p1 <= p2 && p2 <= s.len()) {
                Option::None
            } else {
                let p3 = skip_spaces(s, p2);
                if tag1(s, p3, ']') {
                    Option::Some((p3 + 1, TokenView::Array(lst.1)))
                } else {
                    Option::None
                }
            }
        }
    } else {
        Option::None
    }
}

/// The top-level rule: tries, in priority order, a function definition, an
/// if statement, an assignment, a method chain, an operator expression, a
/// prefix call, an array, a bare identifier and a bare literal; when none
/// matches, the whole remaining input degrades to the `Nothing` terminator.
/// This rule never fails.
pub open spec fn spec_token(s: Seq<char>, pos: int) -> (int, TokenView)
    decreases s.len() - pos, 6int,
{
    if !(0 <= pos && pos <= s.len()) {
        (s.len() as int, TokenView::Nothing)
    } else {
        match spec_method_def(s, pos) {
            Option::Some(r) => (r.0, r.1),
            Option::None => match spec_ifstmt(s, pos) {
                Option::Some(r) => (r.0, r.1),
                Option::None => match spec_assignment(s, pos) {
                    Option::Some(r) => (r.0, r.1),
                    Option::None => match spec_method(s, pos) {
                        Option::Some(r) => (r.0, r.1),
                        Option::None => match spec_ops(s, pos) {
                            Option::Some(r) => (r.0, r.1),
                            Option::None => match spec_method_unit(s, pos) {
                                Option::Some(r) => (r.0, r.1),
                                Option::None => match spec_array(s, pos) {
                                    Option::Some(r) => (r.0, r.1),
                                    Option::None => match spec_ident(s, pos) {
                                        Option::Some((p, name)) => (p, TokenView::Ident(name)),
                                        Option::None => match spec_literal(s, pos) {
                                            Option::Some((p, l)) => (p, TokenView::Literal(l)),
                                            Option::None => (s.len() as int, TokenView::Nothing),
                                        },
                                    },
                                },
                            },
                        },
                    },
                },
            },
        }
    }
}

/// What parsing a whole source text yields: the top-level rule applied at
/// the start of the input.
pub open spec fn spec_parse(s: Seq<char>) -> TokenView {
    spec_token(s, 0).1
}

fn op_tag_check(v: &Vec<char>, pos: usize, k: OpKind) -> (r: bool)
    ensures
        r == op_tag_at(v@, pos as int, k),
        v@.len() <= usize::MAX,
{
    match k {
        OpKind::Add => t1(v, pos, '+'),
        OpKind::Subtract => t1(v, pos, '-'),
        OpKind::Eq => t2(v, pos, '=', '='),
        OpKind::Neq => t2(v, pos, '!', '='),
        OpKind::Gt => t1(v, pos, '>'),
        OpKind::Lt => t1(v, pos, '<'),
        OpKind::Gte => t2(v, pos, '>', '='),
        OpKind::Lte => t2(v, pos, '<', '='),
    }
}

fn op_len(k: OpKind) -> (r: usize)
    ensures
        r as int == op_tag_len(k),
{
    match k {
        OpKind::Add => 1,
        OpKind::Subtract => 1,
        OpKind::Eq => 2,
        OpKind::Neq => 2,
        OpKind::Gt => 1,
        OpKind::Lt => 1,
        OpKind::Gte => 2,
        OpKind::Lte => 2,
    }
}

fn mk_op(k: OpKind, l: Token, r: Token) -> (t: Token)
    ensures
        token_view(t) == mk_op_view(k, token_view(l), token_view(r)),
{
    proof {
        reveal_with_fuel(crate::token::token_view, 2);
        reveal_with_fuel(crate::token::op_view, 2);
    }
    Token::Op(
        match k {
            OpKind::Add => Op::Add(Box::new(l), Box::new(r)),
            OpKind::Subtract => Op::Subtract(Box::new(l), Box::new(r)),
            OpKind::Eq => Op::Eq(Box::new(l), Box::new(r)),
            OpKind::Neq => Op::Neq(Box::new(l), Box::new(r)),
            OpKind::Gt => Op::Gt(Box::new(l), Box::new(r)),
            OpKind::Lt => Op::Lt(Box::new(l), Box::new(r)),
            OpKind::Gte => Op::Gte(Box::new(l), Box::new(r)),
            OpKind::Lte => Op::Lte(Box::new(l), Box::new(r)),
        },
    )
}

fn p_opt_mut(v: &Vec<char>, pos: usize) -> (r: (usize, bool))
    requires
        pos <= v@.len(),
    ensures
        (r.0 as int, r.1) == spec_opt_mut(v@, pos as int),
        pos <= r.0 <= v@.len(),
{
    let n = v.len();
    if t3(v, pos, 'm', 'u', 't') && pos + 3 < n && ch_is_space(v[pos + 3]) {
        (sk_spaces(v, pos + 4), true)
    } else {
        (pos, false)
    }
}

fn p_opt_annot(v: &Vec<char>, pos: usize) -> (r: Option<(usize, String)>)
    requires
        pos <= v@.len(),
    ensures
        res_text_view(r) == spec_opt_annot(v@, pos as int),
        r matches Some(p) ==> pos < p.0 <= v@.len(),
{
    match p_ident(v, pos) {
        Option::Some((pa, name)) => Some((sk_spaces(v, pa), name)),
        Option::None => None,
    }
}

fn p_param(v: &Vec<char>, pos: usize) -> (r: Option<(usize, Token)>)
    requires
        pos <= v@.len(),
    ensures
        res_token_view(r) == spec_param(v@, pos as int),
        r matches Some(p) ==> pos < p.0 <= v@.len(),
{
    proof {
        reveal_with_fuel(crate::token::token_view, 2);
    }
    let n = v.len();
    let (p1, mutable) = p_opt_mut(v, pos);
    match p_ident(v, p1) {
        Option::None => None,
        Option::Some((p2, ty)) => {
            if p2 < n && ch_is_space(v[p2]) {
                let p3 = sk_spaces(v, p2 + 1);
                match p_ident(v, p3) {
                    Option::None => None,
                    Option::Some((p4, name)) => Some(
                        (
                            p4,
                            Token::Param {
                                mutable,
                                type_annotation: Box::new(Token::Ident(ty)),
                                ident: Box::new(Token::Ident(name)),
                            },
                        ),
                    ),
                }
            } else {
                None
            }
        },
    }
}

fn p_param_list(v: &Vec<char>, pos: usize) -> (r: (usize, Vec<Token>))
    requires
        pos <= v@.len(),
    ensures
        spec_param_list(v@, pos as int) == (r.0 as int, token_views(r.1@)),
        pos <= r.0 <= v@.len(),
    decreases v@.len() - pos, 1int,
{
    match p_param(v, pos) {
        Option::None => {
            let out: Vec<Token> = Vec::new();
            proof {
                assert(token_views(out@) =~= Seq::<TokenView>::empty());
            }
            (pos, out)
        },
        Option::Some((p1, first)) => {
            let (p2, mut rest) = p_param_list_more(v, p1);
            let ghost rest_v = rest@;
            rest.insert(0, first);
            proof {
                assert(rest@ =~= seq![first] + rest_v)
                    by { assert(rest@ =~= rest_v.insert(0, first)); };
                crate::token::lemma_token_views_cons(first, rest_v);
            }
            (p2, rest)
        },
    }
}

fn p_param_list_more(v: &Vec<char>, pos: usize) -> (r: (usize, Vec<Token>))
    requires
        pos <= v@.len(),
    ensures
        spec_param_list_more(v@, pos as int) == (r.0 as int, token_views(r.1@)),
        pos <= r.0 <= v@.len(),
    decreases v@.len() - pos, 0int,
{
    let q = sk_spaces(v, pos);
    if t1(v, q, ',') {
        let q2 = sk_spaces(v, q + 1);
        match p_param(v, q2) {
            Option::None => {
                let out: Vec<Token> = Vec::new();
                proof {
                    assert(token_views(out@) =~= Seq::<TokenView>::empty());
                }
                (pos, out)
            },
            Option::Some((p2, t)) => {
                let (p3, mut rest) = p_param_list_more(v, p2);
                let ghost rest_v = rest@;
                rest.insert(0, t);
                proof {
                    assert(rest@ =~= seq![t] + rest_v)
                        by { assert(rest@ =~= rest_v.insert(0, t)); };
                    crate::token::lemma_token_views_cons(t, rest_v);
                }
                (p3, rest)
            },
        }
    } else {
        let out: Vec<Token> = Vec::new();
        proof {
            assert(token_views(out@) =~= Seq::<TokenView>::empty());
        }
        (pos, out)
    }
}

fn p_find_close(v: &Vec<char>, start: usize) -> (r: Option<usize>)
    requires
        1 <= start <= v@.len(),
    ensures
        match r {
            Option::Some(u) => find_close(v@, start as int, 1) == Option::Some(u as int) && start
                <= u < v@.len(),
            Option::None => find_close(v@, start as int, 1) is None,
        },
{
    let mut u = start;
    let mut level: usize = 1;
    loop
        invariant
            1 <= start <= u <= v@.len(),
            1 <= level <= u - start + 1,
            find_close(v@, start as int, 1) == find_close(v@, u as int, level as int),
        decreases v@.len() - u,
    {
        if u >= v.len() {
            return None;
        }
        let c = v[u];
        if c == '}' {
            if level == 1 {
                return Some(u);
            }
            level = level - 1;
        } else if c == '{' {
            level = level + 1;
        }
        u = u + 1;
    }
}

fn p_bracket_group(v: &Vec<char>, pos: usize) -> (r: Option<(usize, Token)>)
    requires
        pos <= v@.len(),
    ensures
        res_token_view(r) == spec_bracket_group(v@, pos as int),
        r matches Some(p) ==> pos < p.0 <= v@.len(),
    decreases v@.len() - pos, 5int,
{
    let n = v.len();
    if pos < n && v[pos] == '{' {
        match p_find_close(v, pos + 1) {
            Option::None => None,
            Option::Some(u) => {
                let inner = subvec(v, pos + 1, u);
                let q = sk_line_spaces(&inner, 0);
                let t = p_token(&inner, q);
                Some((u + 1, t.1))
            },
        }
    } else {
        None
    }
}

fn p_paren(v: &Vec<char>, pos: usize) -> (r: Option<(usize, Token)>)
    requires
        pos <= v@.len(),
    ensures
        res_token_view(r) == spec_paren(v@, pos as int),
        r matches Some(p) ==> pos < p.0 <= v@.len(),
    decreases v@.len() - pos, 0int,
{
    if t1(v, pos, '(') {
        let p1 = sk_spaces(v, pos + 1);
        let t = p_token(v, p1);
        let p3 = sk_spaces(v, t.0);
        if t1(v, p3, ')') {
            Some((p3 + 1, t.1))
        } else {
            None
        }
    } else {
        None
    }
}

fn p_singleton(v: &Vec<char>, pos: usize) -> (r: Option<(usize, Token)>)
    requires
        pos <= v@.len(),
    ensures
        res_token_view(r) == spec_singleton(v@, pos as int),
        r matches Some(p) ==> pos < p.0 <= v@.len(),
    decreases v@.len() - pos, 1int,
{
    match p_paren(v, pos) {
        Option::Some(r) => Some(r),
        Option::None => match p_ident(v, pos) {
            Option::Some((p, name)) => Some((p, Token::Ident(name))),
            Option::None => match literal(v, pos) {
                Option::Some((p, l)) => Some((p, Token::Literal(l))),
                Option::None => None,
            },
        },
    }
}

fn p_binop(v: &Vec<char>, pos: usize, k: OpKind) -> (r: Option<(usize, Token)>)
    requires
        pos <= v@.len(),
    ensures
        res_token_view(r) == spec_binop(v@, pos as int, k),
        r matches Some(p) ==> pos < p.0 <= v@.len(),
    decreases v@.len() - pos, 2int,
{
    match p_singleton(v, pos) {
        Option::None => None,
        Option::Some((p1, l)) => {
            let p2 = sk_spaces(v, p1);
            if op_tag_check(v, p2, k) {
                let tl = op_len(k);
                let p3 = sk_spaces(v, p2 + tl);
                match p_singleton(v, p3) {
                    Option::None => None,
                    Option::Some((p4, rr)) => Some((p4, mk_op(k, l, rr))),
                }
            } else {
                None
            }
        },
    }
}

/// Recognizes one comparison operation at `pos`.
pub fn comparison(v: &Vec<char>, pos: usize) -> (r: Option<(usize, Token)>)
    requires
        pos <= v@.len(),
    ensures
        res_token_view(r) == spec_comparison(v@, pos as int),
        r matches Some(p) ==> pos < p.0 <= v@.len(),
    decreases v@.len() - pos, 3int,
{
    if let Some(r) = p_binop(v, pos, OpKind::Eq) {
        return Some(r);
    }
    if let Some(r) = p_binop(v, pos, OpKind::Neq) {
        return Some(r);
    }
    if let Some(r) = p_binop(v, pos, OpKind::Gte) {
        return Some(r);
    }
    if let Some(r) = p_binop(v, pos, OpKind::Lte) {
        return Some(r);
    }
    if let Some(r) = p_binop(v, pos, OpKind::Gt) {
        return Some(r);
    }
    p_binop(v, pos, OpKind::Lt)
}

/// Recognizes one binary operation at `pos`, comparisons first.
pub fn ops(v: &Vec<char>, pos: usize) -> (r: Option<(usize, Token)>)
    requires
        pos <= v@.len(),
    ensures
        res_token_view(r) == spec_ops(v@, pos as int),
        r matches Some(p) ==> pos < p.0 <= v@.len(),
    decreases v@.len() - pos, 4int,
{
    if let Some(r) = comparison(v, pos) {
        return Some(r);
    }
    if let Some(r) = p_binop(v, pos, OpKind::Subtract) {
        return Some(r);
    }
    p_binop(v, pos, OpKind::Add)
}

fn p_method(v: &Vec<char>, pos: usize) -> (r: Option<(usize, Token)>)
    requires
        pos <= v@.len(),
    ensures
        res_token_view(r) == spec_method(v@, pos as int),
        r matches Some(p) ==> pos < p.0 <= v@.len(),
    decreases v@.len() - pos, 2int,
{
    match p_singleton(v, pos) {
        Option::None => None,
        Option::Some((p1, recv)) => {
            let p2 = sk_spaces(v, p1);
            if t1(v, p2, ';') {
                let p3 = sk_spaces(v, p2 + 1);
                let rest = p_token(v, p3);
                Some((rest.0, Token::Method(Box::new(recv), Box::new(rest.1))))
            } else {
                None
            }
        },
    }
}

fn p_method_def(v: &Vec<char>, pos: usize) -> (r: Option<(usize, Token)>)
    requires
        pos <= v@.len(),
    ensures
        res_token_view(r) == spec_method_def(v@, pos as int),
        r matches Some(p) ==> pos < p.0 <= v@.len(),
    decreases v@.len() - pos, 5int,
{
    if t1(v, pos, '|') {
        let p1 = sk_spaces(v, pos + 1);
        let (p2, params) = p_param_list(v, p1);
        let p3 = sk_spaces(v, p2);
        if t1(v, p3, '|') {
            let p4 = sk_spaces(v, p3 + 1);
            match p_bracket_group(v, p4) {
                Option::None => None,
                Option::Some((p5, body)) => {
                    let p6 = sk_line_spaces(v, p5);
                    let rest = p_token(v, p6);
                    Some(
                        (
                            rest.0,
                            Token::FnPair(
                                TonsOfTokens(params),
                                Box::new(body),
                                Box::new(rest.1),
                            ),
                        ),
                    )
                },
            }
        } else {
            None
        }
    } else {
        None
    }
}

fn p_ifstmt(v: &Vec<char>, pos: usize) -> (r: Option<(usize, Token)>)
    requires
        pos <= v@.len(),
    ensures
        res_token_view(r) == spec_ifstmt(v@, pos as int),
        r matches Some(p) ==> pos < p.0 <= v@.len(),
    decreases v@.len() - pos, 5int,
{
    proof {
        reveal_with_fuel(crate::token::token_view, 2);
    }
    if t2(v, pos, 'i', 'f') {
        let p1 = sk_spaces(v, pos + 2);
        match comparison(v, p1) {
            Option::None => None,
            Option::Some((p2, cond)) => {
                let p3 = sk_spaces(v, p2);
                match p_bracket_group(v, p3) {
                    Option::None => None,
                    Option::Some((p4, block)) => {
                        let p5 = sk_line_spaces(v, p4);
                        let rest = p_token(v, p5);
                        Some(
                            (
                                rest.0,
                                Token::CondPair(
                                    Box::new(Token::IfStmt { cond: Box::new(cond) }),
                                    Box::new(block),
                                    Box::new(rest.1),
                                ),
                            ),
                        )
                    },
                }
            },
        }
    } else {
        None
    }
}

fn p_assignment(v: &Vec<char>, pos: usize) -> (r: Option<(usize, Token)>)
    requires
        pos <= v@.len(),
    ensures
        res_token_view(r) == spec_assignment(v@, pos as int),
        r matches Some(p) ==> pos < p.0 <= v@.len(),
    decreases v@.len() - pos, 5int,
{
    proof {
        reveal_with_fuel(crate::token::token_view, 3);
    }
    let (p1, mutable) = p_opt_mut(v, pos);
    match p_ident(v, p1) {
        Option::None => None,
        Option::Some((p2, first_name)) => {
            let p3 = sk_spaces(v, p2);
            let annot = p_opt_annot(v, p3);
            let p4 = match &annot {
                Option::Some((pa, _)) => *pa,
                Option::None => p3,
            };
            if t1(v, p4, '=') {
                let p5 = sk_spaces(v, p4 + 1);
                let val = p_token(v, p5);
                let p7 = sk_line_spaces(v, val.0);
                let rest = p_token(v, p7);
                let stmt = match annot {
                    Option::Some((_, var_name)) => Token::Assignment {
                        mutable,
                        type_annotation: Some(Box::new(Token::Ident(first_name))),
                        ident: Box::new(Token::Ident(var_name)),
                        value: Box::new(val.1),
                    },
                    Option::None => Token::Assignment {
                        mutable,
                        type_annotation: None,
                        ident: Box::new(Token::Ident(first_name)),
                        value: Box::new(val.1),
                    },
                };
                Some((rest.0, Token::Pair(Box::new(stmt), Box::new(rest.1))))
            } else {
                None
            }
        },
    }
}

fn p_method_unit(v: &Vec<char>, pos: usize) -> (r: Option<(usize, Token)>)
    requires
        pos <= v@.len(),
    ensures
        res_token_view(r) == spec_method_unit(v@, pos as int),
        r matches Some(p) ==> pos < p.0 <= v@.len(),
    decreases v@.len() - pos, 5int,
{
    proof {
        reveal_with_fuel(crate::token::token_view, 3);
    }
    let n = v.len();
    match p_ident(v, pos) {
        Option::None => None,
        Option::Some((p1, name)) => {
            if p1 < n && ch_is_space(v[p1]) {
                let p2 = sk_spaces(v, p1 + 1);
                let arg = p_token(v, p2);
                let p3 = sk_line_spaces(v, arg.0);
                let rest = p_token(v, p3);
                Some(
                    (
                        rest.0,
                        Token::Pair(
                            Box::new(
                                Token::MethodUnit(
                                    Box::new(Token::Ident(name)),
                                    Box::new(arg.1),
                                ),
                            ),
                            Box::new(rest.1),
                        ),
                    ),
                )
            } else {
                None
            }
        },
    }
}

fn p_token_list(v: &Vec<char>, pos: usize) -> (r: (usize, Vec<Token>))
    requires
        pos <= v@.len(),
    ensures
        spec_token_list(v@, pos as int) == (r.0 as int, token_views(r.1@)),
        pos <= r.0 <= v@.len(),
    decreases v@.len() - pos, 8int,
{
    let first = p_token(v, pos);
    let (p2, mut rest) = p_token_list_more(v, first.0);
    let ghost rest_v = rest@;
    rest.insert(0, first.1);
    proof {
        assert(rest@ =~= seq![first.1] + rest_v)
            by { assert(rest@ =~= rest_v.insert(0, first.1)); };
        crate::token::lemma_token_views_cons(first.1, rest_v);
    }
    (p2, rest)
}

fn p_token_list_more(v: &Vec<char>, pos: usize) -> (r: (usize, Vec<Token>))
    requires
        pos <= v@.len(),
    ensures
        spec_token_list_more(v@, pos as int) == (r.0 as int, token_views(r.1@)),
        pos <= r.0 <= v@.len(),
    decreases v@.len() - pos, 7int,
{
    let q = sk_spaces(v, pos);
    if t1(v, q, ',') {
        let q2 = sk_spaces(v, q + 1);
        let elem = p_token(v, q2);
        let (p2, mut rest) = p_token_list_more(v, elem.0);
        let ghost rest_v = rest@;
        rest.insert(0, elem.1);
        proof {
            assert(rest@ =~= seq![elem.1] + rest_v)
                by { assert(rest@ =~= rest_v.insert(0, elem.1)); };
            crate::token::lemma_token_views_cons(elem.1, rest_v);
        }
        (p2, rest)
    } else {
        let out: Vec<Token> = Vec::new();
        proof {
            assert(token_views(out@) =~= Seq::<TokenView>::empty());
        }
        (pos, out)
    }
}

fn p_array(v: &Vec<char>, pos: usize) -> (r: Option<(usize, Token)>)
    requires
        pos <= v@.len(),
    ensures
        res_token_view(r) == spec_array(v@, pos as int),
        r matches Some(p) ==> pos < p.0 <= v@.len(),
    decreases v@.len() - pos, 5int,
{
    if t1(v, pos, '[') {
        let p1 = sk_spaces(v, pos + 1);
        let (p2, elems) = p_token_list(v, p1);
        let p3 = sk_spaces(v, p2);
        if t1(v, p3, ']') {
            Some((p3 + 1, Token::Array(elems)))
        } else {
            None
        }
    } else {
        None
    }
}

fn p_token(v: &Vec<char>, pos: usize) -> (r: (usize, Token))
    requires
        pos <= v@.len(),
    ensures
        spec_token(v@, pos as int).0 == r.0 as int,
        spec_token(v@, pos as int).1 == r.1@,
        pos <= r.0 <= v@.len(),
    decreases v@.len() - pos, 6int,
{
    if let Some(r) = p_method_def(v, pos) {
        return r;
    }
    if let Some(r) = p_ifstmt(v, pos) {
        return r;
    }
    if let Some(r) = p_assignment(v, pos) {
        return r;
    }
    if let Some(r) = p_method(v, pos) {
        return r;
    }
    if let Some(r) = ops(v, pos) {
        return r;
    }
    if let Some(r) = p_method_unit(v, pos) {
        return r;
    }
    if let Some(r) = p_array(v, pos) {
        return r;
    }
    if let Some((p, name)) = p_ident(v, pos) {
        return (p, Token::Ident(name));
    }
    if let Some((p, l)) = literal(v, pos) {
        return (p, Token::Literal(l));
    }
    (v.len(), Token::Nothing)
}

/// Parses a whole source text into the root token of the program. The parse
/// never fails: unmatched trailing content degrades to the `Nothing`
/// terminator.
pub fn parse(i: &str) -> (t: Token)
    ensures
        t@ == spec_parse(i@),
{
    let v = str_to_chars(i);
    let r = p_token(&v, 0);
    r.1
}

/// Why a brace-balanced block failed to parse.
#[derive(Clone, Copy, Debug, PartialEq, Eq)]
pub enum BlockError {
    /// The input does not begin with an opening brace.
    NotABlock,
    /// The opening brace is never balanced by a closing one.
    Unterminated,
}

/// Recognizes a brace-balanced block at `pos`, telling input that does not
/// begin a block apart from a block that never closes.
pub fn bracket_group(v: &Vec<char>, pos: usize) -> (r: Result<(usize, Token), BlockError>)
    requires
        pos <= v@.len(),
    ensures
        (match r {
            Result::Ok(p) => Option::Some((p.0 as int, token_view(p.1))),
            Result::Err(_) => Option::None,
        }) == spec_bracket_group(v@, pos as int),
        r matches Ok(p) ==> pos < p.0 <= v@.len(),
        r matches Err(e) ==> (e == BlockError::NotABlock <==> !(pos < v@.len() && v@[
            pos as int
        ] == '{')),
        r matches Err(e) && e == BlockError::Unterminated ==> find_close(v@, pos + 1, 1) is None,
    decreases v@.len() - pos, 5int,
{
    let n = v.len();
    if !(pos < n && v[pos] == '{') {
        return Err(BlockError::NotABlock);
    }
    match p_find_close(v, pos + 1) {
        Option::None => Err(BlockError::Unterminated),
        Option::Some(u) => {
            let inner = subvec(v, pos + 1, u);
            let q = sk_line_spaces(&inner, 0);
            let t = p_token(&inner, q);
            Ok((u + 1, t.1))
        },
    }
}

/// Why a source text yielded no well-formed program.
#[derive(Clone, Copy, Debug, PartialEq, Eq)]
pub enum ParseError {
    /// A strict numeral in the source does not fit the width named by its
    /// suffix (a value too large for the width, or a negative numeral with
    /// an unsigned suffix); the grammar alone would quietly re-read its
    /// digits as a vague integer.
    NumericOverflow,
    /// The input holds more than whitespace, yet no grammar rule matched any
    /// of it, so the whole text degraded to the terminator.
    UnparseableInput,
    /// A leading part of the input parsed, but non-blank text follows it
    /// that no grammar rule consumed.
    TrailingInput,
}

/// One of the eight width-suffix tokens begins at `pos`.
pub open spec fn suffix_tag_at(s: Seq<char>, pos: int) -> bool {
    tag1(s, pos, 'b') || tag1(s, pos, 's') || tag1(s, pos, 'm') || tag1(s, pos, 'l')
}

/// A strict numeral stands at `pos`, a width suffix follows its digits, and
/// yet the strict recognizer refuses it: the numeral does not fit the width
/// its suffix names.
pub open spec fn overflowing_numeral_at(s: Seq<char>, pos: int) -> bool {
    &&& spec_strict_int(s, pos) is None
    &&& match spec_int(s, pos) {
        Option::Some((p, _ds)) => suffix_tag_at(s, p),
        Option::None => false,
    }
}

/// Whether a strict numeral that does not fit its width stands anywhere in
/// the input, at a position that does not continue an identifier or a
/// number (the position after a letter, digit, underscore or dot is never
/// the start of a numeral). The test is lexical: it does not know the
/// surrounding grammar, so such a numeral is reported even inside a string
/// literal.
pub open spec fn numeral_can_start_at(s: Seq<char>, i: int) -> bool {
    i == 0 || (!is_ident_char(s[i - 1]) && s[i - 1] != '.')
}

/// See `numeral_can_start_at` for the positions considered.
pub open spec fn has_overflowing_numeral(s: Seq<char>) -> bool {
    exists|i: int| 0 <= i < s.len() && numeral_can_start_at(s, i) && overflowing_numeral_at(s, i)
}

fn find_overflowing_numeral(v: &Vec<char>) -> (r: bool)
    ensures
        r == has_overflowing_numeral(v@),
{
    let mut i: usize = 0;
    while i < v.len()
        invariant
            i <= v@.len(),
            forall|j: int|
                0 <= j < i ==> !(numeral_can_start_at(v@, j) && overflowing_numeral_at(v@, j)),
        decreases v@.len() - i,
    {
        let ctx_ok = i == 0 || (!ch_is_ident_char(v[i - 1]) && v[i - 1] != '.');
        if ctx_ok {
            if p_strict_int(v, i).is_none() {
                match p_int(v, i) {
                    Option::Some((p, _text)) => {
                        if t1(v, p, 'b') || t1(v, p, 's') || t1(v, p, 'm') || t1(v, p, 'l') {
                            proof {
                                assert(0 <= i < v@.len() && numeral_can_start_at(v@, i as int)
                                    && overflowing_numeral_at(v@, i as int));
                            }
                            return true;
                        }
                    },
                    Option::None => {},
                }
            }
        }
        i = i + 1;
    }
    false
}

/// What checked parsing of a whole source text yields: the parsed program,
/// or the first reportable fault, in this order: a strict numeral that does
/// not fit its width, input that no rule matched at all, or trailing
/// non-blank text that the parse left unconsumed.
pub open spec fn spec_parse_outcome(s: Seq<char>) -> Result<TokenView, ParseError> {
    if has_overflowing_numeral(s) {
        Result::Err(ParseError::NumericOverflow)
    } else {
        let end = spec_token(s, 0).0;
        let t = spec_token(s, 0).1;
        if t is Nothing && !blankish(s) {
            Result::Err(ParseError::UnparseableInput)
        } else if 0 <= end && end <= s.len() && !blankish(s.subrange(end, s.len() as int)) {
            Result::Err(ParseError::TrailingInput)
        } else {
            Result::Ok(t)
        }
    }
}

/// Whether everything from `from` on is whitespace.
fn blankish_from(v: &Vec<char>, from: usize) -> (r: bool)
    requires
        from <= v@.len(),
    ensures
        r == blankish(v@.subrange(from as int, v@.len() as int)),
{
    let mut i = from;
    while i < v.len()
        invariant
            from <= i <= v@.len(),
            forall|j: int| from <= j < i ==> is_trim_char(v@[j]),
        decreases v@.len() - i,
    {
        if !ch_is_trim_char(v[i]) {
            proof {
                let sub = v@.subrange(from as int, v@.len() as int);
                assert(sub[i - from as int] == v@[i as int]);
            }
            return false;
        }
        i = i + 1;
    }
    proof {
        let sub = v@.subrange(from as int, v@.len() as int);
        assert(forall|k: int| 0 <= k < sub.len() ==> sub[k] == v@[from as int + k]);
    }
    true
}

/// Parses a whole source text, reporting as distinct outcomes the faults
/// that the grammar alone would silently smooth over: an out-of-width
/// strict numeral, input that matched no rule at all, and trailing
/// non-blank text that the parse discarded.
pub fn parse_program(i: &str) -> (r: Result<Token, ParseError>)
    ensures
        (match r {
            Result::Ok(t) => Result::Ok(t@),
            Result::Err(e) => Result::Err(e),
        }) == spec_parse_outcome(i@),
{
    let v = str_to_chars(i);
    if find_overflowing_numeral(&v) {
        return Err(ParseError::NumericOverflow);
    }
    let (end, t) = p_token(&v, 0);
    if matches!(t, Token::Nothing) && !str_blankish(i) {
        return Err(ParseError::UnparseableInput);
    }
    if !blankish_from(&v, end) {
        return Err(ParseError::TrailingInput);
    }
    Ok(t)
}

} // verus!
