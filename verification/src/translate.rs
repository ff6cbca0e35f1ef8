//! The lowering pass: walks a token tree and emits target-language source
//! text, or fails with a typed translation error. It performs no parsing,
//! and its output is a pure function of the tree alone.

use vstd::prelude::*;

use crate::text::{dec_digits_of, spec_trim_lines, str_to_chars, trim_lines_chars, u64_to_string,
    chars_to_string};
use crate::token::{token_view, token_views, LiteralView, OpView, Token, TokenView};

verus! {

/// Why a translation failed. Every failure is reported; no partial output is
/// ever produced.
#[derive(Clone, Copy, Debug, PartialEq, Eq)]
pub enum TranslateError {
    /// An identifier used as a type annotation names no known primitive type.
    UnknownTypeName,
    /// A function definition's assignment binds no plain identifier.
    MissingFunctionName,
    /// A function's return-type annotation is not a plain identifier.
    InvalidReturnType,
    /// A token kind that the translator does not lower stood in the tree.
    UnsupportedToken,
    /// A literal kind that the translator does not lower stood in the tree.
    UnsupportedLiteral,
}

/// Ghost reading of a translation result.
pub open spec fn res_chars_view(r: Result<String, TranslateError>) -> Result<
    Seq<char>,
    TranslateError,
> {
    match r {
        Result::Ok(s) => Result::Ok(s@),
        Result::Err(e) => Result::Err(e),
    }
}

/// The fixed lookup table from the language's primitive type names to the
/// target language's.
pub open spec fn spec_transform_literal(name: Seq<char>) -> Option<Seq<char>> {
    if name == "byte"@ {
        Option::Some("u8"@)
    } else if name == "small"@ {
        Option::Some("u16"@)
    } else if name == "medium"@ {
        Option::Some("u32"@)
    } else if name == "large"@ {
        Option::Some("u64"@)
    } else if name == "bytesigned"@ {
        Option::Some("i8"@)
    } else if name == "smallsigned"@ {
        Option::Some("i16"@)
    } else if name == "mediumsigned"@ {
        Option::Some("i32"@)
    } else if name == "largesigned"@ {
        Option::Some("i64"@)
    } else if name == "mediumfloat"@ {
        Option::Some("f32"@)
    } else if name == "largefloat"@ {
        Option::Some("f64"@)
    } else {
        Option::None
    }
}

/// Whether two strings hold the same characters.
fn str_eq(a: &String, b: &str) -> (r: bool)
    ensures
        r == (a@ == b@),
{
    let bs = String::from_str(b);
    a.eq(&bs)
}

/// Translates a primitive type name, failing on any unknown name.
fn transform_literal(lit: &String) -> (r: Result<String, TranslateError>)
    ensures
        match spec_transform_literal(lit@) {
            Option::Some(t) => r matches Ok(s) && s@ == t,
            Option::None => r matches Err(e) && e == TranslateError::UnknownTypeName,
        },
{
    if str_eq(lit, "byte") {
        Ok(String::from_str("u8"))
    } else if str_eq(lit, "small") {
        Ok(String::from_str("u16"))
    } else if str_eq(lit, "medium") {
        Ok(String::from_str("u32"))
    } else if str_eq(lit, "large") {
        Ok(String::from_str("u64"))
    } else if str_eq(lit, "bytesigned") {
        Ok(String::from_str("i8"))
    } else if str_eq(lit, "smallsigned") {
        Ok(String::from_str("i16"))
    } else if str_eq(lit, "mediumsigned") {
        Ok(String::from_str("i32"))
    } else if str_eq(lit, "largesigned") {
        Ok(String::from_str("i64"))
    } else if str_eq(lit, "mediumfloat") {
        Ok(String::from_str("f32"))
    } else if str_eq(lit, "largefloat") {
        Ok(String::from_str("f64"))
    } else {
        Err(TranslateError::UnknownTypeName)
    }
}

/// `mut ` when the binding is mutable, nothing otherwise.
pub open spec fn mut_text(mutable: bool) -> Seq<char> {
    if mutable {
        "mut "@
    } else {
        Seq::empty()
    }
}

/// The rendering of one literal: vague integers as their bare digit text,
/// strings double-quoted, explicitly typed bytes as a `u8(value)`
/// constructor call; every other literal kind is an unimplemented lowering
/// and fails.
pub open spec fn spec_lit_translate(l: LiteralView) -> Result<Seq<char>, TranslateError> {
    match l {
        LiteralView::Vague(v) => match v {
            crate::token::VagueLiteralView::Integer(txt) => Result::Ok(txt),
            _ => Result::Err(TranslateError::UnsupportedLiteral),
        },
        LiteralView::String(s) => Result::Ok("\""@ + s + "\""@),
        LiteralView::Number(n) => match n {
            crate::token::StrictNumberView::Byte(v) => Result::Ok(
                "u8("@ + dec_digits_of(v as nat) + ")"@,
            ),
            _ => Result::Err(TranslateError::UnsupportedLiteral),
        },
        LiteralView::Bool(_) => Result::Err(TranslateError::UnsupportedLiteral),
    }
}

/// The rendering of one binary operation: `(left SYM right)` with the same
/// surface token used during parsing.
pub open spec fn spec_translate_op(o: OpView) -> Result<Seq<char>, TranslateError>
    decreases o, 0int,
{
    match o {
        OpView::Add(a, b) => spec_op_result(spec_translate(*a), " + "@, spec_translate(*b)),
        OpView::Subtract(a, b) => spec_op_result(spec_translate(*a), " - "@, spec_translate(*b)),
        OpView::Eq(a, b) => spec_op_result(spec_translate(*a), " == "@, spec_translate(*b)),
        OpView::Neq(a, b) => spec_op_result(spec_translate(*a), " != "@, spec_translate(*b)),
        OpView::Gt(a, b) => spec_op_result(spec_translate(*a), " > "@, spec_translate(*b)),
        OpView::Lt(a, b) => spec_op_result(spec_translate(*a), " < "@, spec_translate(*b)),
        OpView::Gte(a, b) => spec_op_result(spec_translate(*a), " >= "@, spec_translate(*b)),
        OpView::Lte(a, b) => spec_op_result(spec_translate(*a), " <= "@, spec_translate(*b)),
    }
}

/// Assembles an operation rendering from its operands' results.
pub open spec fn spec_op_result(
    l: Result<Seq<char>, TranslateError>,
    sym: Seq<char>,
    r: Result<Seq<char>, TranslateError>,
) -> Result<Seq<char>, TranslateError> {
    match l {
        Result::Err(e) => Result::Err(e),
        Result::Ok(lt) => match r {
            Result::Err(e) => Result::Err(e),
            Result::Ok(rt) => Result::Ok("("@ + lt + sym + rt + ")"@),
        },
    }
}

/// The rendering of one function parameter: `[mut ]name Type`; the type
/// annotation is mandatory and must resolve through the primitive table.
pub open spec fn spec_param_text(t: TokenView) -> Result<Seq<char>, TranslateError> {
    match t {
        TokenView::Param { mutable, type_annotation, ident } => match (*type_annotation, *ident) {
            (TokenView::Ident(ty), TokenView::Ident(name)) => match spec_transform_literal(ty) {
                Option::Some(target_ty) => Result::Ok(mut_text(mutable) + name + " "@ + target_ty),
                Option::None => Result::Err(TranslateError::UnknownTypeName),
            },
            _ => Result::Err(TranslateError::UnsupportedToken),
        },
        _ => Result::Err(TranslateError::UnsupportedToken),
    }
}

/// The comma-joined renderings of a parameter list, from index `i` on.
pub open spec fn spec_params_text(ts: Seq<TokenView>, i: int) -> Result<
    Seq<char>,
    TranslateError,
>
    decreases ts.len() - i,
{
    if i < 0 || i >= ts.len() {
        Result::Ok(Seq::empty())
    } else {
        match spec_param_text(ts[i]) {
            Result::Err(e) => Result::Err(e),
            Result::Ok(first) => {
                if i + 1 >= ts.len() {
                    Result::Ok(first)
                } else {
                    match spec_params_text(ts, i + 1) {
                        Result::Err(e) => Result::Err(e),
                        Result::Ok(rest) => Result::Ok(first + ", "@ + rest),
                    }
                }
            },
        }
    }
}

/// The comma-joined translations of an argument list, from index `i` on.
pub open spec fn spec_translate_args(ts: Seq<TokenView>, i: int) -> Result<
    Seq<char>,
    TranslateError,
>
    decreases ts, ts.len() - i,
{
    if i < 0 || i >= ts.len() {
        Result::Ok(Seq::empty())
    } else {
        match spec_translate(ts[i]) {
            Result::Err(e) => Result::Err(e),
            Result::Ok(first) => {
                if i + 1 >= ts.len() {
                    Result::Ok(first)
                } else {
                    match spec_translate_args(ts, i + 1) {
                        Result::Err(e) => Result::Err(e),
                        Result::Ok(rest) => Result::Ok(first + ", "@ + rest),
                    }
                }
            },
        }
    }
}

/// The function declaration that an assignment of a function value lowers
/// to: name from the assignment's identifier, parameters comma-joined,
/// return type from the assignment's annotation (absent means none emitted),
/// the translated body, and the translated remainder appended after the
/// closing brace; every line of the assembled text is trimmed.
pub open spec fn spec_gen_function(t: TokenView) -> Result<Seq<char>, TranslateError>
    decreases t, 0int,
{
    match t {
        TokenView::Assignment { mutable: _, type_annotation, ident, value } => match *value {
            TokenView::FnPair(params, body, after) => match *ident {
                TokenView::Ident(name) => match spec_params_text(params, 0) {
                    Result::Err(e) => Result::Err(e),
                    Result::Ok(fnargs) => {
                        let ret = match type_annotation {
                            Option::None => Result::Ok(Seq::<char>::empty()),
                            Option::Some(ann) => match *ann {
                                TokenView::Ident(id) => match spec_transform_literal(id) {
                                    Option::Some(ty) => Result::Ok(ty),
                                    Option::None => Result::Err(TranslateError::UnknownTypeName),
                                },
                                _ => Result::Err(TranslateError::InvalidReturnType),
                            },
                        };
                        match ret {
                            Result::Err(e) => Result::Err(e),
                            Result::Ok(ret_text) => match spec_translate(*body) {
                                Result::Err(e) => Result::Err(e),
                                Result::Ok(inner) => match spec_translate(*after) {
                                    Result::Err(e) => Result::Err(e),
                                    Result::Ok(latter) => Result::Ok(
                                        spec_trim_lines(
                                            "fn "@ + name + "("@ + fnargs + ") "@ + ret_text
                                                + " {\n"@ + inner + "\n}\n\n"@ + latter + "\n"@,
                                        ),
                                    ),
                                },
                            },
                        }
                    },
                },
                _ => Result::Err(TranslateError::MissingFunctionName),
            },
            _ => Result::Err(TranslateError::UnsupportedToken),
        },
        _ => Result::Err(TranslateError::UnsupportedToken),
    }
}

/// The translation of one token tree into target-language source text.
///
/// An assignment whose value is a function value lowers to a function
/// declaration; any other assignment lowers to `[mut ]ident := value`, the
/// value wrapped in a `Type(...)` cast when an annotation is present. A
/// prefix call lowers to function-call syntax. Statement pairs join with
/// newlines; a conditional pair lowers to an `if` block followed by the
/// rest. A bare identifier that names a primitive type lowers to the target
/// primitive. Token kinds with no lowering fail, and never emit partial
/// text.
pub open spec fn spec_translate(t: TokenView) -> Result<Seq<char>, TranslateError>
    decreases t, 1int,
{
    match t {
        TokenView::Assignment { mutable, type_annotation, ident, value } => {
            if *value matches TokenView::FnPair(_, _, _) {
                spec_gen_function(t)
            } else {
                match spec_translate(*ident) {
                    Result::Err(e) => Result::Err(e),
                    Result::Ok(id_text) => {
                        let cast = match type_annotation {
                            Option::None => Result::Ok(Option::<Seq<char>>::None),
                            Option::Some(ann) => match *ann {
                                TokenView::Ident(n) => match spec_transform_literal(n) {
                                    Option::Some(ty) => Result::Ok(Option::Some(ty)),
                                    Option::None => Result::Err(TranslateError::UnknownTypeName),
                                },
                                _ => Result::Err(TranslateError::UnsupportedToken),
                            },
                        };
                        match cast {
                            Result::Err(e) => Result::Err(e),
                            Result::Ok(ty_opt) => match spec_translate(*value) {
                                Result::Err(e) => Result::Err(e),
                                Result::Ok(val_text) => match ty_opt {
                                    Option::None => Result::Ok(
                                        mut_text(mutable) + id_text + " := "@ + val_text,
                                    ),
                                    Option::Some(ty) => Result::Ok(
                                        mut_text(mutable) + id_text + " := "@ + ty + "("@
                                            + val_text + ")"@,
                                    ),
                                },
                            },
                        }
                    },
                }
            }
        },
        TokenView::MethodUnit(name, args) => match *name {
            TokenView::Ident(n) => {
                let name_text = match spec_transform_literal(n) {
                    Option::Some(ty) => ty,
                    Option::None => n,
                };
                match *args {
                    TokenView::Array(elems) => match spec_translate_args(elems, 0) {
                        Result::Err(e) => Result::Err(e),
                        Result::Ok(a) => Result::Ok(name_text + "("@ + a + ")"@),
                    },
                    _ => match spec_translate(*args) {
                        Result::Err(e) => Result::Err(e),
                        Result::Ok(a) => Result::Ok(name_text + "("@ + a + ")"@),
                    },
                }
            },
            _ => Result::Err(TranslateError::UnsupportedToken),
        },
        TokenView::Literal(l) => spec_lit_translate(l),
        TokenView::Pair(a, b) => match spec_translate(*a) {
            Result::Err(e) => Result::Err(e),
            Result::Ok(ta) => match spec_translate(*b) {
                Result::Err(e) => Result::Err(e),
                Result::Ok(tb) => Result::Ok(ta + "\n"@ + tb),
            },
        },
        TokenView::CondPair(c, blk, rest) => match spec_translate(*c) {
            Result::Err(e) => Result::Err(e),
            Result::Ok(tc) => match spec_translate(*blk) {
                Result::Err(e) => Result::Err(e),
                Result::Ok(tb) => match spec_translate(*rest) {
                    Result::Err(e) => Result::Err(e),
                    Result::Ok(tr) => Result::Ok(
                        "if "@ + tc + " {\n"@ + tb + "\n}\n "@ + tr,
                    ),
                },
            },
        },
        TokenView::IfStmt { cond } => spec_translate(*cond),
        TokenView::Op(o) => spec_translate_op(o),
        TokenView::Ident(n) => match spec_transform_literal(n) {
            Option::Some(ty) => Result::Ok(ty),
            Option::None => Result::Ok(n),
        },
        TokenView::Nothing => Result::Ok(Seq::empty()),
        _ => Result::Err(TranslateError::UnsupportedToken),
    }
}

/// What translating a whole tree yields.
pub open spec fn spec_translate_file(t: TokenView) -> Result<Seq<char>, TranslateError> {
    spec_translate(t)
}

fn assemble_op(lt: String, sym: &str, rt: String) -> (out: String)
    ensures
        out@ == "("@ + lt@ + sym@ + rt@ + ")"@,
{
    let mut out = String::from_str("(");
    out.append(lt.as_str());
    out.append(sym);
    out.append(rt.as_str());
    out.append(")");
    proof {
        assert(out@ =~= "("@ + lt@ + sym@ + rt@ + ")"@);
    }
    out
}

fn translate_op(o: &crate::token::Op) -> (res: Result<String, TranslateError>)
    ensures
        res_chars_view(res) == spec_translate_op(crate::token::op_view(*o)),
    decreases *o, 0int,
{
    match o {
        crate::token::Op::Add(a, b) => match (translate(a), translate(b)) {
            (Result::Ok(lt), Result::Ok(rt)) => Ok(assemble_op(lt, " + ", rt)),
            (Result::Err(e), _) => Err(e),
            (_, Result::Err(e)) => Err(e),
        },
        crate::token::Op::Subtract(a, b) => match (translate(a), translate(b)) {
            (Result::Ok(lt), Result::Ok(rt)) => Ok(assemble_op(lt, " - ", rt)),
            (Result::Err(e), _) => Err(e),
            (_, Result::Err(e)) => Err(e),
        },
        crate::token::Op::Eq(a, b) => match (translate(a), translate(b)) {
            (Result::Ok(lt), Result::Ok(rt)) => Ok(assemble_op(lt, " == ", rt)),
            (Result::Err(e), _) => Err(e),
            (_, Result::Err(e)) => Err(e),
        },
        crate::token::Op::Neq(a, b) => match (translate(a), translate(b)) {
            (Result::Ok(lt), Result::Ok(rt)) => Ok(assemble_op(lt, " != ", rt)),
            (Result::Err(e), _) => Err(e),
            (_, Result::Err(e)) => Err(e),
        },
        crate::token::Op::Gt(a, b) => match (translate(a), translate(b)) {
            (Result::Ok(lt), Result::Ok(rt)) => Ok(assemble_op(lt, " > ", rt)),
            (Result::Err(e), _) => Err(e),
            (_, Result::Err(e)) => Err(e),
        },
        crate::token::Op::Lt(a, b) => match (translate(a), translate(b)) {
            (Result::Ok(lt), Result::Ok(rt)) => Ok(assemble_op(lt, " < ", rt)),
            (Result::Err(e), _) => Err(e),
            (_, Result::Err(e)) => Err(e),
        },
        crate::token::Op::Gte(a, b) => match (translate(a), translate(b)) {
            (Result::Ok(lt), Result::Ok(rt)) => Ok(assemble_op(lt, " >= ", rt)),
            (Result::Err(e), _) => Err(e),
            (_, Result::Err(e)) => Err(e),
        },
        crate::token::Op::Lte(a, b) => match (translate(a), translate(b)) {
            (Result::Ok(lt), Result::Ok(rt)) => Ok(assemble_op(lt, " <= ", rt)),
            (Result::Err(e), _) => Err(e),
            (_, Result::Err(e)) => Err(e),
        },
    }
}

fn translate_params(ts: &Vec<Token>, i: usize) -> (r: Result<String, TranslateError>)
    requires
        i <= ts@.len(),
    ensures
        res_chars_view(r) == spec_params_text(token_views(ts@), i as int),
    decreases ts@.len() - i,
{
    proof {
        crate::token::lemma_token_views_index(ts@);
    }
    let n = ts.len();
    if i >= n {
        Ok(String::new())
    } else {
        match param_text(&ts[i]) {
            Result::Err(e) => Err(e),
            Result::Ok(first) => {
                if i + 1 >= n {
                    Ok(first)
                } else {
                    match translate_params(ts, i + 1) {
                        Result::Err(e) => Err(e),
                        Result::Ok(rest) => {
                            let mut out = first;
                            out.append(", ");
                            out.append(rest.as_str());
                            proof {
                                assert(out@ =~= spec_params_text(token_views(ts@), i as int)
                                    ->Ok_0);
                            }
                            Ok(out)
                        },
                    }
                }
            },
        }
    }
}

fn param_text(t: &Token) -> (r: Result<String, TranslateError>)
    ensures
        res_chars_view(r) == spec_param_text(token_view(*t)),
{
    proof {
        reveal_with_fuel(crate::token::token_view, 2);
    }
    match t {
        Token::Param { mutable, type_annotation, ident } => {
            match (&**type_annotation, &**ident) {
                (Token::Ident(ty), Token::Ident(name)) => match transform_literal(ty) {
                    Result::Err(_) => Err(TranslateError::UnknownTypeName),
                    Result::Ok(target_ty) => {
                        let mut out = if *mutable {
                            String::from_str("mut ")
                        } else {
                            String::new()
                        };
                        out.append(name.as_str());
                        out.append(" ");
                        out.append(target_ty.as_str());
                        proof {
                            assert(out@ =~= mut_text(*mutable) + name@ + " "@
                                + spec_transform_literal(ty@)->Some_0);
                        }
                        Ok(out)
                    },
                },
                _ => Err(TranslateError::UnsupportedToken),
            }
        },
        _ => Err(TranslateError::UnsupportedToken),
    }
}

fn translate_args(ts: &Vec<Token>, i: usize) -> (r: Result<String, TranslateError>)
    requires
        i <= ts@.len(),
    ensures
        res_chars_view(r) == spec_translate_args(token_views(ts@), i as int),
    decreases ts@, ts@.len() - i,
{
    proof {
        crate::token::lemma_token_views_index(ts@);
    }
    let n = ts.len();
    if i >= n {
        Ok(String::new())
    } else {
        match translate(&ts[i]) {
            Result::Err(e) => Err(e),
            Result::Ok(first) => {
                if i + 1 >= n {
                    Ok(first)
                } else {
                    match translate_args(ts, i + 1) {
                        Result::Err(e) => Err(e),
                        Result::Ok(rest) => {
                            let mut out = first;
                            out.append(", ");
                            out.append(rest.as_str());
                            proof {
                                assert(out@ =~= spec_translate_args(token_views(ts@), i as int)
                                    ->Ok_0);
                            }
                            Ok(out)
                        },
                    }
                }
            },
        }
    }
}

fn gen_function(t: &Token) -> (r: Result<String, TranslateError>)
    ensures
        res_chars_view(r) == spec_gen_function(token_view(*t)),
    decreases *t, 0int,
{
    proof {
        reveal_with_fuel(crate::token::token_view, 3);
    }
    match t {
        Token::Assignment { mutable: _, type_annotation, ident, value } => match &**value {
            Token::FnPair(params, body, after) => match &**ident {
                Token::Ident(name) => match translate_params(&params.0, 0) {
                    Result::Err(e) => Err(e),
                    Result::Ok(fnargs) => {
                        let ret: Result<String, TranslateError> = match type_annotation {
                            Option::None => Ok(String::new()),
                            Option::Some(ann) => match &**ann {
                                Token::Ident(id) => match transform_literal(id) {
                                    Result::Ok(ty) => Ok(ty),
                                    Result::Err(_) => Err(TranslateError::UnknownTypeName),
                                },
                                _ => Err(TranslateError::InvalidReturnType),
                            },
                        };
                        match ret {
                            Result::Err(e) => Err(e),
                            Result::Ok(ret_text) => match translate(body) {
                                Result::Err(e) => Err(e),
                                Result::Ok(inner) => match translate(after) {
                                    Result::Err(e) => Err(e),
                                    Result::Ok(latter) => {
                                        let mut raw = String::from_str("fn ");
                                        raw.append(name.as_str());
                                        raw.append("(");
                                        raw.append(fnargs.as_str());
                                        raw.append(") ");
                                        raw.append(ret_text.as_str());
                                        raw.append(" {\n");
                                        raw.append(inner.as_str());
                                        raw.append("\n}\n\n");
                                        raw.append(latter.as_str());
                                        raw.append("\n");
                                        proof {
                                            assert(raw@ =~= "fn "@ + name@ + "("@ + fnargs@
                                                + ") "@ + ret_text@ + " {\n"@ + inner@
                                                + "\n}\n\n"@ + latter@ + "\n"@);
                                        }
                                        let chars = str_to_chars(raw.as_str());
                                        let trimmed = trim_lines_chars(&chars);
                                        Ok(chars_to_string(&trimmed))
                                    },
                                },
                            },
                        }
                    },
                },
                _ => Err(TranslateError::MissingFunctionName),
            },
            _ => Err(TranslateError::UnsupportedToken),
        },
        _ => Err(TranslateError::UnsupportedToken),
    }
}

fn translate(t: &Token) -> (r: Result<String, TranslateError>)
    ensures
        res_chars_view(r) == spec_translate(token_view(*t)),
    decreases *t, 1int,
{
    proof {
        reveal_with_fuel(crate::token::token_view, 3);
    }
    match t {
        Token::Assignment { mutable, type_annotation, ident, value } => {
            if matches!(&**value, Token::FnPair(_, _, _)) {
                gen_function(t)
            } else {
                match translate(ident) {
                    Result::Err(e) => Err(e),
                    Result::Ok(id_text) => {
                        let cast: Result<Option<String>, TranslateError> = match type_annotation {
                            Option::None => Ok(None),
                            Option::Some(ann) => match &**ann {
                                Token::Ident(n) => match transform_literal(n) {
                                    Result::Ok(ty) => Ok(Some(ty)),
                                    Result::Err(_) => Err(TranslateError::UnknownTypeName),
                                },
                                _ => Err(TranslateError::UnsupportedToken),
                            },
                        };
                        match cast {
                            Result::Err(e) => Err(e),
                            Result::Ok(ty_opt) => match translate(value) {
                                Result::Err(e) => Err(e),
                                Result::Ok(val_text) => {
                                    let mut out = if *mutable {
                                        String::from_str("mut ")
                                    } else {
                                        String::new()
                                    };
                                    out.append(id_text.as_str());
                                    out.append(" := ");
                                    match ty_opt {
                                        Option::None => {
                                            out.append(val_text.as_str());
                                            proof {
                                                assert(out@ =~= mut_text(*mutable) + id_text@
                                                    + " := "@ + val_text@);
                                            }
                                            Ok(out)
                                        },
                                        Option::Some(ty) => {
                                            out.append(ty.as_str());
                                            out.append("(");
                                            out.append(val_text.as_str());
                                            out.append(")");
                                            proof {
                                                assert(out@ =~= mut_text(*mutable) + id_text@
                                                    + " := "@ + ty@ + "("@ + val_text@ + ")"@);
                                            }
                                            Ok(out)
                                        },
                                    }
                                },
                            },
                        }
                    },
                }
            }
        },
        Token::MethodUnit(name, args) => match &**name {
            Token::Ident(n) => {
                let name_text = match transform_literal(n) {
                    Result::Ok(ty) => ty,
                    Result::Err(_) => n.clone(),
                };
                let arg_text: Result<String, TranslateError> = match &**args {
                    Token::Array(elems) => translate_args(elems, 0),
                    _ => translate(args),
                };
                match arg_text {
                    Result::Err(e) => Err(e),
                    Result::Ok(a) => {
                        let mut out = name_text;
                        out.append("(");
                        out.append(a.as_str());
                        out.append(")");
                        proof {
                            assert(spec_translate(token_view(*t)) matches Result::Ok(s)
                                ==> out@ =~= s);
                        }
                        Ok(out)
                    },
                }
            },
            _ => Err(TranslateError::UnsupportedToken),
        },
        Token::Literal(l) => match l {
            crate::token::Literal::Vague(v) => match v {
                crate::token::VagueLiteral::Integer(txt) => Ok(txt.clone()),
                _ => Err(TranslateError::UnsupportedLiteral),
            },
            crate::token::Literal::String(s) => {
                let mut out = String::from_str("\"");
                out.append(s.as_str());
                out.append("\"");
                proof {
                    assert(out@ =~= "\""@ + s@ + "\""@);
                }
                Ok(out)
            },
            crate::token::Literal::Number(nu) => match nu {
                crate::token::StrictNumber::Byte(v) => {
                    let mut out = String::from_str("u8(");
                    let digits = u64_to_string(*v as u64);
                    out.append(digits.as_str());
                    out.append(")");
                    proof {
                        assert(out@ =~= "u8("@ + dec_digits_of(*v as nat) + ")"@);
                    }
                    Ok(out)
                },
                _ => Err(TranslateError::UnsupportedLiteral),
            },
            crate::token::Literal::Bool(_) => Err(TranslateError::UnsupportedLiteral),
        },
        Token::Pair(a, b) => match translate(a) {
            Result::Err(e) => Err(e),
            Result::Ok(ta) => match translate(b) {
                Result::Err(e) => Err(e),
                Result::Ok(tb) => {
                    let mut out = ta;
                    out.append("\n");
                    out.append(tb.as_str());
                    proof {
                        assert(out@ =~= spec_translate(token_view(*t))->Ok_0);
                    }
                    Ok(out)
                },
            },
        },
        Token::CondPair(c, blk, rest) => match translate(c) {
            Result::Err(e) => Err(e),
            Result::Ok(tc) => match translate(blk) {
                Result::Err(e) => Err(e),
                Result::Ok(tb) => match translate(rest) {
                    Result::Err(e) => Err(e),
                    Result::Ok(tr) => {
                        let mut out = String::from_str("if ");
                        out.append(tc.as_str());
                        out.append(" {\n");
                        out.append(tb.as_str());
                        out.append("\n}\n ");
                        out.append(tr.as_str());
                        proof {
                            assert(out@ =~= "if "@ + tc@ + " {\n"@ + tb@ + "\n}\n "@ + tr@);
                        }
                        Ok(out)
                    },
                },
            },
        },
        Token::IfStmt { cond } => translate(cond),
        Token::Op(o) => translate_op(o),
        Token::Ident(n) => match transform_literal(n) {
            Result::Ok(ty) => Ok(ty),
            Result::Err(_) => Ok(n.clone()),
        },
        Token::Nothing => Ok(String::new()),
        _ => Err(TranslateError::UnsupportedToken),
    }
}

/// Law: translation carries no hidden state: what comes out is a function
/// of the tree alone, so translating the same tree twice yields
/// byte-identical output.
pub proof fn lemma_translate_idempotent(t1: TokenView, t2: TokenView)
    requires
        t1 == t2,
    ensures
        spec_translate_file(t1) == spec_translate_file(t2),
{
}

/// Translates a whole token tree into target-language source text, or fails
/// with the first translation error; there is no partial output.
pub fn translate_file(source: Box<Token>) -> (r: Result<String, TranslateError>)
    ensures
        res_chars_view(r) == spec_translate_file(token_view(*source)),
{
    translate(&*source)
}

} // verus!
