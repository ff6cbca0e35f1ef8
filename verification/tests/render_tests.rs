//! Pretty-printer scenarios: literal suffixes, sequence and block glyphs,
//! indentation, and repeatability (no shared rendering state).

use dolomite::parser::parse;
use dolomite::token::{Literal, Op, StrictNumber, Token, TonsOfTokens, VagueLiteral};

fn ident(name: &str) -> Box<Token> {
    Box::new(Token::Ident(name.to_string()))
}

fn vague_int(digits: &str) -> Box<Token> {
    Box::new(Token::Literal(Literal::Vague(VagueLiteral::Integer(digits.to_string()))))
}

#[test]
fn render_nothing_is_empty() {
    assert_eq!(Token::Nothing.render(), "");
}

#[test]
fn render_literals() {
    assert_eq!(Token::Literal(Literal::Number(StrictNumber::Byte(1))).render(), "1b");
    assert_eq!(
        Token::Literal(Literal::Number(StrictNumber::ByteSigned(-5))).render(),
        "-5bi"
    );
    assert_eq!(
        Token::Literal(Literal::Number(StrictNumber::LargeSigned(i64::MIN))).render(),
        "-9223372036854775808li"
    );
    assert_eq!(
        Token::Literal(Literal::Number(StrictNumber::MediumFloat("3.14".to_string())))
            .render(),
        "3.14m"
    );
    assert_eq!(
        Token::Literal(Literal::Vague(VagueLiteral::Integer("127".to_string()))).render(),
        "127v"
    );
    assert_eq!(
        Token::Literal(Literal::Vague(VagueLiteral::Float("2.5".to_string()))).render(),
        "2.5vf"
    );
    assert_eq!(Token::Literal(Literal::Bool(true)).render(), "true");
    assert_eq!(Token::Literal(Literal::String("hi".to_string())).render(), "hi");
}

#[test]
fn render_pair_omits_separator_when_rest_blank() {
    assert_eq!(
        Token::Pair(ident("a"), Box::new(Token::Nothing)).render(),
        "<a>"
    );
}

#[test]
fn render_pair_chain() {
    let t = Token::Pair(
        vague_int("5"),
        Box::new(Token::Pair(ident("x"), Box::new(Token::Nothing))),
    );
    assert_eq!(t.render(), "<5v;\n<x>>");
}

#[test]
fn render_operator() {
    assert_eq!(
        Token::Op(Op::Gte(ident("dice"), vague_int("127"))).render(),
        "(dice >= 127v)"
    );
}

#[test]
fn render_assignment() {
    let t = Token::Assignment {
        mutable: true,
        type_annotation: Some(ident("byte")),
        ident: ident("x"),
        value: vague_int("5"),
    };
    assert_eq!(t.render(), "Assignment (mut): x [byte] = 5v");
    let u = Token::Assignment {
        mutable: false,
        type_annotation: None,
        ident: ident("x"),
        value: vague_int("5"),
    };
    assert_eq!(u.render(), "Assignment: x [unknown] = 5v");
}

#[test]
fn render_method_indents_body() {
    assert_eq!(
        Token::Method(ident("a"), ident("b")).render(),
        "<a THEN\n\tb>"
    );
}

#[test]
fn render_conditional_block() {
    let t = Token::CondPair(
        Box::new(Token::IfStmt {
            cond: Box::new(Token::Op(Op::Eq(ident("x"), vague_int("1")))),
        }),
        ident("y"),
        Box::new(Token::Nothing),
    );
    assert_eq!(t.render(), "<<?Cond: (x == 1v);\n\ty\n?>>");
}

#[test]
fn render_function_block() {
    let t = Token::FnPair(
        TonsOfTokens(vec![Token::Param {
            mutable: false,
            type_annotation: ident("byte"),
            ident: ident("x"),
        }]),
        ident("y"),
        Box::new(Token::Nothing),
    );
    assert_eq!(t.render(), "<<|byte x;\n\ty\n|>>");
}

#[test]
fn render_prefix_call_and_array() {
    let t = Token::MethodUnit(
        ident("add"),
        Box::new(Token::Array(vec![
            Token::Literal(Literal::Vague(VagueLiteral::Integer("1".to_string()))),
            Token::Literal(Literal::Vague(VagueLiteral::Integer("2".to_string()))),
        ])),
    );
    assert_eq!(t.render(), "add([1v, 2v])");
}

#[test]
fn render_is_repeatable() {
    // Indentation state is threaded through the calls, not shared: a second
    // rendering is identical.
    let t = parse("mut x = 5");
    assert_eq!(t.render(), "<Assignment (mut): x [unknown] = 5v>");
    assert_eq!(t.render(), t.render());
}

#[test]
fn render_parse_round_trip_on_integer_kinds() {
    // The rendering of an integer-kind strict number parses back to the
    // same number, negative values included.
    let samples = vec![
        Token::Literal(Literal::Number(StrictNumber::Byte(255))),
        Token::Literal(Literal::Number(StrictNumber::ByteSigned(-5))),
        Token::Literal(Literal::Number(StrictNumber::SmallSigned(-32768))),
        Token::Literal(Literal::Number(StrictNumber::Medium(7))),
        Token::Literal(Literal::Number(StrictNumber::LargeSigned(i64::MIN))),
        Token::Literal(Literal::Number(StrictNumber::Large(u64::MAX))),
    ];
    for t in samples {
        assert_eq!(parse(&t.render()), t);
    }
}
