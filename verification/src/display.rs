//! The pretty-printer: renders a token tree as nested human-readable text
//! for diagnostics. Indentation is threaded through the recursion as an
//! explicit indent string, so repeated or nested renderings cannot disturb
//! one another; the output is a pure function of the tree and the indent.
//!
//! Sequences render as `<first; rest>`, omitting the separator when the rest
//! is blank; conditional and function blocks render with distinguishing
//! bracket glyphs (`<<? ... ?>` and `<<| ... |>`) and one extra indent level
//! for their bodies.

use vstd::prelude::*;

use crate::literals::{lemma_spec_int_of_rendering, spec_strict_int};
use crate::text::{blankish, dec_digits_of, dec_int_of, i64_to_string, str_blankish,
    u64_to_string};
use crate::token::{op_view, token_view, token_views, Literal, LiteralView, Op, OpView,
    StrictNumber, StrictNumberView, Token, TokenView, VagueLiteral, VagueLiteralView};

verus! {

/// The rendering of a literal: strict numbers carry their suffix, vague
/// numbers a `v` or `vf` marker, strings and booleans their plain text.
pub open spec fn spec_lit_render(l: LiteralView) -> Seq<char> {
    match l {
        LiteralView::Number(n) => match n {
            StrictNumberView::Byte(v) => dec_digits_of(v as nat) + "b"@,
            StrictNumberView::ByteSigned(v) => dec_int_of(v as int) + "bi"@,
            StrictNumberView::Small(v) => dec_digits_of(v as nat) + "s"@,
            StrictNumberView::SmallSigned(v) => dec_int_of(v as int) + "si"@,
            StrictNumberView::Medium(v) => dec_digits_of(v as nat) + "m"@,
            StrictNumberView::MediumSigned(v) => dec_int_of(v as int) + "mi"@,
            StrictNumberView::MediumFloat(txt) => txt + "m"@,
            StrictNumberView::Large(v) => dec_digits_of(v as nat) + "l"@,
            StrictNumberView::LargeSigned(v) => dec_int_of(v as int) + "li"@,
            StrictNumberView::LargeFloat(txt) => txt + "l"@,
        },
        LiteralView::Vague(v) => match v {
            VagueLiteralView::Integer(t) => t + "v"@,
            VagueLiteralView::Float(t) => t + "vf"@,
            VagueLiteralView::String(t) => t,
        },
        LiteralView::Bool(b) => if b {
            "true"@
        } else {
            "false"@
        },
        LiteralView::String(s) => s,
    }
}

/// The rendering of one binary operation: `(left SYM right)`.
pub open spec fn spec_render_op(o: OpView, ind: Seq<char>) -> Seq<char>
    decreases o, 0int,
{
    match o {
        OpView::Add(a, b) => "("@ + spec_render(*a, ind) + " + "@ + spec_render(*b, ind) + ")"@,
        OpView::Subtract(a, b) => "("@ + spec_render(*a, ind) + " - "@ + spec_render(*b, ind)
            + ")"@,
        OpView::Eq(a, b) => "("@ + spec_render(*a, ind) + " == "@ + spec_render(*b, ind) + ")"@,
        OpView::Neq(a, b) => "("@ + spec_render(*a, ind) + " != "@ + spec_render(*b, ind) + ")"@,
        OpView::Gt(a, b) => "("@ + spec_render(*a, ind) + " > "@ + spec_render(*b, ind) + ")"@,
        OpView::Lt(a, b) => "("@ + spec_render(*a, ind) + " < "@ + spec_render(*b, ind) + ")"@,
        OpView::Gte(a, b) => "("@ + spec_render(*a, ind) + " >= "@ + spec_render(*b, ind) + ")"@,
        OpView::Lte(a, b) => "("@ + spec_render(*a, ind) + " <= "@ + spec_render(*b, ind) + ")"@,
    }
}

/// The comma-joined renderings of a token sequence, from index `i` on.
pub open spec fn spec_render_list(ts: Seq<TokenView>, i: int, ind: Seq<char>) -> Seq<char>
    decreases ts, ts.len() - i,
{
    if i < 0 || i >= ts.len() {
        Seq::empty()
    } else if i + 1 >= ts.len() {
        spec_render(ts[i], ind)
    } else {
        spec_render(ts[i], ind) + ", "@ + spec_render_list(ts, i + 1, ind)
    }
}

/// The diagnostic rendering of one token tree at the given indent.
pub open spec fn spec_render(t: TokenView, ind: Seq<char>) -> Seq<char>
    decreases t, 1int,
{
    match t {
        TokenView::Ident(n) => n,
        TokenView::Literal(l) => spec_lit_render(l),
        TokenView::Op(o) => spec_render_op(o, ind),
        TokenView::IfStmt { cond } => "Cond: "@ + spec_render(*cond, ind),
        TokenView::Assignment { mutable, type_annotation, ident, value } => "Assignment"@ + (
        if mutable {
            " (mut)"@
        } else {
            Seq::empty()
        }) + ": "@ + spec_render(*ident, ind) + " ["@ + (match type_annotation {
            Option::Some(a) => spec_render(*a, ind),
            Option::None => "unknown"@,
        }) + "] = "@ + spec_render(*value, ind),
        TokenView::Param { mutable, type_annotation, ident } => spec_render(*type_annotation, ind)
            + " "@ + spec_render(*ident, ind) + (if mutable {
            " (mut)"@
        } else {
            Seq::empty()
        }),
        TokenView::Pair(a, b) => {
            let rest = spec_render(*b, ind);
            "<"@ + spec_render(*a, ind) + (if blankish(rest) {
                ">"@
            } else {
                ";\n"@ + ind + rest + ">"@
            })
        },
        TokenView::CondPair(c, b, r) => {
            let rest = spec_render(*r, ind);
            "<<?"@ + spec_render(*c, ind) + ";\n"@ + ind + "\t"@ + spec_render(*b, ind + "\t"@)
                + "\n"@ + ind + "?>"@ + (if blankish(rest) {
                ">"@
            } else {
                "\n"@ + ind + rest + ">"@
            })
        },
        TokenView::FnPair(ps, b, r) => {
            let rest = spec_render(*r, ind);
            "<<|"@ + spec_render_list(ps, 0, ind) + ";\n"@ + ind + "\t"@ + spec_render(
                *b,
                ind + "\t"@,
            ) + "\n"@ + ind + "|>"@ + (if blankish(rest) {
                ">"@
            } else {
                "\n"@ + ind + rest + ">"@
            })
        },
        TokenView::Method(a, b) => "<"@ + spec_render(*a, ind) + " THEN\n"@ + ind + "\t"@
            + spec_render(*b, ind + "\t"@) + ">"@,
        TokenView::MethodUnit(n, a) => spec_render(*n, ind) + "("@ + spec_render(*a, ind) + ")"@,
        TokenView::Array(ts) => "["@ + spec_render_list(ts, 0, ind) + "]"@,
        TokenView::Nothing => Seq::empty(),
    }
}

/// Law: displaying an integer-kind strict number and parsing the rendering
/// yields the same number back, consuming the whole text — a display/parse
/// round trip over every value of the eight integer kinds.
pub proof fn lemma_strict_number_round_trip(n: StrictNumberView)
    requires
        !(n is MediumFloat),
        !(n is LargeFloat),
    ensures
        ({
            let text = spec_lit_render(LiteralView::Number(n));
            spec_strict_int(text, 0) == Option::Some((text.len() as int, n))
        }),
{
    match n {
        StrictNumberView::Byte(v) => {
            reveal_strlit("b");
            lemma_spec_int_of_rendering(v as int, "b"@);
        },
        StrictNumberView::ByteSigned(v) => {
            reveal_strlit("bi");
            lemma_spec_int_of_rendering(v as int, "bi"@);
        },
        StrictNumberView::Small(v) => {
            reveal_strlit("s");
            lemma_spec_int_of_rendering(v as int, "s"@);
        },
        StrictNumberView::SmallSigned(v) => {
            reveal_strlit("si");
            lemma_spec_int_of_rendering(v as int, "si"@);
        },
        StrictNumberView::Medium(v) => {
            reveal_strlit("m");
            lemma_spec_int_of_rendering(v as int, "m"@);
        },
        StrictNumberView::MediumSigned(v) => {
            reveal_strlit("mi");
            lemma_spec_int_of_rendering(v as int, "mi"@);
        },
        StrictNumberView::Large(v) => {
            reveal_strlit("l");
            lemma_spec_int_of_rendering(v as int, "l"@);
        },
        StrictNumberView::LargeSigned(v) => {
            reveal_strlit("li");
            lemma_spec_int_of_rendering(v as int, "li"@);
        },
        _ => {
        },
    }
}

fn lit_render(l: &Literal) -> (r: String)
    ensures
        r@ == spec_lit_render(l@),
{
    match l {
        Literal::Number(n) => match n {
            StrictNumber::Byte(v) => suffixed(u64_to_string(*v as u64), "b"),
            StrictNumber::ByteSigned(v) => suffixed(i64_to_string(*v as i64), "bi"),
            StrictNumber::Small(v) => suffixed(u64_to_string(*v as u64), "s"),
            StrictNumber::SmallSigned(v) => suffixed(i64_to_string(*v as i64), "si"),
            StrictNumber::Medium(v) => suffixed(u64_to_string(*v as u64), "m"),
            StrictNumber::MediumSigned(v) => suffixed(i64_to_string(*v as i64), "mi"),
            StrictNumber::MediumFloat(txt) => suffixed(txt.clone(), "m"),
            StrictNumber::Large(v) => suffixed(u64_to_string(*v), "l"),
            StrictNumber::LargeSigned(v) => suffixed(i64_to_string(*v), "li"),
            StrictNumber::LargeFloat(txt) => suffixed(txt.clone(), "l"),
        },
        Literal::Vague(v) => match v {
            VagueLiteral::Integer(t) => suffixed(t.clone(), "v"),
            VagueLiteral::Float(t) => suffixed(t.clone(), "vf"),
            VagueLiteral::String(t) => t.clone(),
        },
        Literal::Bool(b) => if *b {
            String::from_str("true")
        } else {
            String::from_str("false")
        },
        Literal::String(s) => s.clone(),
    }
}

fn suffixed(base: String, suffix: &str) -> (r: String)
    ensures
        r@ == base@ + suffix@,
{
    let mut out = base;
    out.append(suffix);
    out
}

fn render_op(o: &Op, ind: &String) -> (r: String)
    ensures
        r@ == spec_render_op(op_view(*o), ind@),
    decreases *o, 0int,
{
    match o {
        Op::Add(a, b) => op_text(render_at(a, ind), " + ", render_at(b, ind)),
        Op::Subtract(a, b) => op_text(render_at(a, ind), " - ", render_at(b, ind)),
        Op::Eq(a, b) => op_text(render_at(a, ind), " == ", render_at(b, ind)),
        Op::Neq(a, b) => op_text(render_at(a, ind), " != ", render_at(b, ind)),
        Op::Gt(a, b) => op_text(render_at(a, ind), " > ", render_at(b, ind)),
        Op::Lt(a, b) => op_text(render_at(a, ind), " < ", render_at(b, ind)),
        Op::Gte(a, b) => op_text(render_at(a, ind), " >= ", render_at(b, ind)),
        Op::Lte(a, b) => op_text(render_at(a, ind), " <= ", render_at(b, ind)),
    }
}

fn op_text(lt: String, sym: &str, rt: String) -> (out: String)
    ensures
        out@ == "("@ + lt@ + sym@ + rt@ + ")"@,
{
    let mut out = String::from_str("(");
    out.append(lt.as_str());
    out.append(sym);
    out.append(rt.as_str());
    out.append(")");
    proof {
        assert(out@ =~= "("@ + lt@ + sym@ + rt@ + ")"@);
    }
    out
}

fn render_list(ts: &Vec<Token>, i: usize, ind: &String) -> (r: String)
    requires
        i <= ts@.len(),
    ensures
        r@ == spec_render_list(token_views(ts@), i as int, ind@),
    decreases ts@, ts@.len() - i,
{
    proof {
        crate::token::lemma_token_views_index(ts@);
    }
    let n = ts.len();
    if i >= n {
        String::new()
    } else if i + 1 >= n {
        render_at(&ts[i], ind)
    } else {
        let mut out = render_at(&ts[i], ind);
        out.append(", ");
        let rest = render_list(ts, i + 1, ind);
        out.append(rest.as_str());
        proof {
            assert(out@ =~= spec_render_list(token_views(ts@), i as int, ind@));
        }
        out
    }
}

/// The given indent, one tab deeper.
fn deeper(ind: &String) -> (r: String)
    ensures
        r@ == ind@ + "\t"@,
{
    let mut out = String::new();
    out.append(ind.as_str());
    out.append("\t");
    proof {
        assert(out@ =~= ind@ + "\t"@);
    }
    out
}

#[verifier::rlimit(50)]
fn render_at(t: &Token, ind: &String) -> (r: String)
    ensures
        r@ == spec_render(token_view(*t), ind@),
    decreases *t, 1int,
{
    proof {
        reveal_with_fuel(crate::token::token_view, 2);
    }
    match t {
        Token::Ident(n) => n.clone(),
        Token::Literal(l) => lit_render(l),
        Token::Op(o) => render_op(o, ind),
        Token::IfStmt { cond } => {
            let mut out = String::from_str("Cond: ");
            let c = render_at(cond, ind);
            out.append(c.as_str());
            proof {
                assert(out@ =~= "Cond: "@ + c@);
            }
            out
        },
        Token::Assignment { mutable, type_annotation, ident, value } => {
            let mut out = String::from_str("Assignment");
            if *mutable {
                out.append(" (mut)");
            }
            out.append(": ");
            let id_text = render_at(ident, ind);
            out.append(id_text.as_str());
            out.append(" [");
            match type_annotation {
                Option::Some(a) => {
                    let ann = render_at(a, ind);
                    out.append(ann.as_str());
                },
                Option::None => {
                    out.append("unknown");
                },
            }
            out.append("] = ");
            let val = render_at(value, ind);
            out.append(val.as_str());
            proof {
                assert(out@ =~= spec_render(token_view(*t), ind@));
            }
            out
        },
        Token::Param { mutable, type_annotation, ident } => {
            let mut out = render_at(type_annotation, ind);
            out.append(" ");
            let id_text = render_at(ident, ind);
            out.append(id_text.as_str());
            if *mutable {
                out.append(" (mut)");
            }
            proof {
                assert(out@ =~= spec_render(token_view(*t), ind@));
            }
            out
        },
        Token::Pair(a, b) => {
            let rest = render_at(b, ind);
            let mut out = String::from_str("<");
            let first = render_at(a, ind);
            out.append(first.as_str());
            if str_blankish(rest.as_str()) {
                out.append(">");
            } else {
                out.append(";\n");
                out.append(ind.as_str());
                out.append(rest.as_str());
                out.append(">");
            }
            proof {
                assert(out@ =~= spec_render(token_view(*t), ind@));
            }
            out
        },
        Token::CondPair(c, b, r) => {
            let rest = render_at(r, ind);
            let ind2 = deeper(ind);
            let mut out = String::from_str("<<?");
            let cond = render_at(c, ind);
            out.append(cond.as_str());
            out.append(";\n");
            out.append(ind2.as_str());
            let block = render_at(b, &ind2);
            out.append(block.as_str());
            out.append("\n");
            out.append(ind.as_str());
            out.append("?>");
            if str_blankish(rest.as_str()) {
                out.append(">");
            } else {
                out.append("\n");
                out.append(ind.as_str());
                out.append(rest.as_str());
                out.append(">");
            }
            proof {
                assert(out@ =~= spec_render(token_view(*t), ind@));
            }
            out
        },
        Token::FnPair(ps, b, r) => {
            let rest = render_at(r, ind);
            let ind2 = deeper(ind);
            let mut out = String::from_str("<<|");
            let params = render_list(&ps.0, 0, ind);
            out.append(params.as_str());
            out.append(";\n");
            out.append(ind2.as_str());
            let block = render_at(b, &ind2);
            out.append(block.as_str());
            out.append("\n");
            out.append(ind.as_str());
            out.append("|>");
            if str_blankish(rest.as_str()) {
                out.append(">");
            } else {
                out.append("\n");
                out.append(ind.as_str());
                out.append(rest.as_str());
                out.append(">");
            }
            proof {
                assert(out@ =~= spec_render(token_view(*t), ind@));
            }
            out
        },
        Token::Method(a, b) => {
            let ind2 = deeper(ind);
            let mut out = String::from_str("<");
            let first = render_at(a, ind);
            out.append(first.as_str());
            out.append(" THEN\n");
            out.append(ind2.as_str());
            let second = render_at(b, &ind2);
            out.append(second.as_str());
            out.append(">");
            proof {
                assert(out@ =~= spec_render(token_view(*t), ind@));
            }
            out
        },
        Token::MethodUnit(n, a) => {
            let mut out = render_at(n, ind);
            out.append("(");
            let arg = render_at(a, ind);
            out.append(arg.as_str());
            out.append(")");
            proof {
                assert(out@ =~= spec_render(token_view(*t), ind@));
            }
            out
        },
        Token::Array(ts) => {
            let mut out = String::from_str("[");
            let elems = render_list(ts, 0, ind);
            out.append(elems.as_str());
            out.append("]");
            proof {
                assert(out@ =~= spec_render(token_view(*t), ind@));
            }
            out
        },
        Token::Nothing => String::new(),
    }
}

impl Token {
    /// Renders this token tree as nested human-readable diagnostic text.
    pub fn render(&self) -> (r: String)
        ensures
            r@ == spec_render(self@, Seq::empty()),
    {
        let ind = String::new();
        render_at(self, &ind)
    }
}

} // verus!
