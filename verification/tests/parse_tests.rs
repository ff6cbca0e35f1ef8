//! Parsing scenarios: literal classification, assignment forms, operator
//! tie-breaking, and the end-to-end example program, each checked by
//! structural equality against a hand-built token tree.

use dolomite::parser::{bracket_group, parse, parse_program, BlockError, ParseError};
use dolomite::token::{Literal, Op, StrictNumber, Token, TonsOfTokens, VagueLiteral};

fn ident(name: &str) -> Box<Token> {
    Box::new(Token::Ident(name.to_string()))
}

fn vague_int(digits: &str) -> Box<Token> {
    Box::new(Token::Literal(Literal::Vague(VagueLiteral::Integer(digits.to_string()))))
}

#[test]
fn parse_empty_is_nothing() {
    assert_eq!(parse(""), Token::Nothing);
}

#[test]
fn vague_integer_is_not_strict() {
    assert_eq!(
        parse("127"),
        Token::Literal(Literal::Vague(VagueLiteral::Integer("127".to_string())))
    );
}

#[test]
fn byte_literal() {
    assert_eq!(parse("1b"), Token::Literal(Literal::Number(StrictNumber::Byte(1))));
}

#[test]
fn medium_float_literal() {
    assert_eq!(
        parse("3.14m"),
        Token::Literal(Literal::Number(StrictNumber::MediumFloat("3.14".to_string())))
    );
}

#[test]
fn string_literal() {
    assert_eq!(
        parse("\"hello\""),
        Token::Literal(Literal::String("hello".to_string()))
    );
}

#[test]
fn byte_overflow_fails_strict_parse() {
    // 300 does not fit the byte width: the strict recognizer must fail
    // rather than wrap, and the digits fall back to a vague integer.
    assert_eq!(
        parse("300b"),
        Token::Literal(Literal::Vague(VagueLiteral::Integer("300".to_string())))
    );
    assert_eq!(parse("255b"), Token::Literal(Literal::Number(StrictNumber::Byte(255))));
}

#[test]
fn signed_suffix_tried_before_unsigned() {
    assert_eq!(parse("1bi"), Token::Literal(Literal::Number(StrictNumber::ByteSigned(1))));
    assert_eq!(parse("5si"), Token::Literal(Literal::Number(StrictNumber::SmallSigned(5))));
    assert_eq!(parse("5s"), Token::Literal(Literal::Number(StrictNumber::Small(5))));
    assert_eq!(parse("7mi"), Token::Literal(Literal::Number(StrictNumber::MediumSigned(7))));
    assert_eq!(parse("7m"), Token::Literal(Literal::Number(StrictNumber::Medium(7))));
    assert_eq!(parse("9li"), Token::Literal(Literal::Number(StrictNumber::LargeSigned(9))));
    assert_eq!(parse("9l"), Token::Literal(Literal::Number(StrictNumber::Large(9))));
}

#[test]
fn negative_vague_integer_keeps_its_sign() {
    assert_eq!(
        parse("-5"),
        Token::Literal(Literal::Vague(VagueLiteral::Integer("-5".to_string())))
    );
    assert_eq!(
        parse("x = -5"),
        Token::Pair(
            Box::new(Token::Assignment {
                mutable: false,
                type_annotation: None,
                ident: ident("x"),
                value: vague_int("-5"),
            }),
            Box::new(Token::Nothing),
        )
    );
}

#[test]
fn negative_strict_integers_carry_their_sign() {
    assert_eq!(
        parse("-5bi"),
        Token::Literal(Literal::Number(StrictNumber::ByteSigned(-5)))
    );
    assert_eq!(
        parse("-128bi"),
        Token::Literal(Literal::Number(StrictNumber::ByteSigned(-128)))
    );
    assert_eq!(
        parse("-32768si"),
        Token::Literal(Literal::Number(StrictNumber::SmallSigned(i16::MIN)))
    );
    assert_eq!(
        parse("-9223372036854775808li"),
        Token::Literal(Literal::Number(StrictNumber::LargeSigned(i64::MIN)))
    );
}

#[test]
fn out_of_width_numerals_fail_the_strict_parse() {
    // Too negative for the signed width, and negative with an unsigned
    // width: both refuse the strict parse and fall back to a vague integer.
    assert_eq!(
        parse("-129bi"),
        Token::Literal(Literal::Vague(VagueLiteral::Integer("-129".to_string())))
    );
    assert_eq!(
        parse("-5b"),
        Token::Literal(Literal::Vague(VagueLiteral::Integer("-5".to_string())))
    );
}

#[test]
fn float_exponent_forms() {
    assert_eq!(
        parse("1.5e2m"),
        Token::Literal(Literal::Number(StrictNumber::MediumFloat("1.5e2".to_string())))
    );
    assert_eq!(
        parse("-2.5E-3l"),
        Token::Literal(Literal::Number(StrictNumber::LargeFloat("-2.5E-3".to_string())))
    );
    assert_eq!(
        parse("x = +0.5m"),
        Token::Pair(
            Box::new(Token::Assignment {
                mutable: false,
                type_annotation: None,
                ident: ident("x"),
                value: Box::new(Token::Literal(Literal::Number(StrictNumber::MediumFloat(
                    "+0.5".to_string()
                )))),
            }),
            Box::new(Token::Nothing),
        )
    );
}

#[test]
fn mutable_assignment() {
    assert_eq!(
        parse("mut x = 5"),
        Token::Pair(
            Box::new(Token::Assignment {
                mutable: true,
                type_annotation: None,
                ident: ident("x"),
                value: vague_int("5"),
            }),
            Box::new(Token::Nothing),
        )
    );
}

#[test]
fn immutable_assignment() {
    assert_eq!(
        parse("x = 5"),
        Token::Pair(
            Box::new(Token::Assignment {
                mutable: false,
                type_annotation: None,
                ident: ident("x"),
                value: vague_int("5"),
            }),
            Box::new(Token::Nothing),
        )
    );
}

#[test]
fn typed_assignment_has_annotation() {
    assert_eq!(
        parse("byte dice = 1b"),
        Token::Pair(
            Box::new(Token::Assignment {
                mutable: false,
                type_annotation: Some(ident("byte")),
                ident: ident("dice"),
                value: Box::new(Token::Literal(Literal::Number(StrictNumber::Byte(1)))),
            }),
            Box::new(Token::Nothing),
        )
    );
}

#[test]
fn gte_wins_over_gt() {
    // ">=" must parse as one operator token, never as ">" and a stray "=".
    assert_eq!(
        parse("dice >= 127"),
        Token::Op(Op::Gte(ident("dice"), vague_int("127")))
    );
}

#[test]
fn comparison_tokens_longest_first() {
    // At the top level the assignment rule is tried first and its "=" token
    // captures the first half of "==", so equality is exercised through the
    // comparison rule itself, as the if-statement grammar uses it.
    let chars: Vec<char> = "a == b".chars().collect();
    let (_, eq) = dolomite::parser::comparison(&chars, 0).unwrap();
    assert_eq!(eq, Token::Op(Op::Eq(ident("a"), ident("b"))));
    assert_eq!(parse("a != b"), Token::Op(Op::Neq(ident("a"), ident("b"))));
    assert_eq!(parse("a <= b"), Token::Op(Op::Lte(ident("a"), ident("b"))));
    assert_eq!(parse("a > b"), Token::Op(Op::Gt(ident("a"), ident("b"))));
    assert_eq!(parse("a < b"), Token::Op(Op::Lt(ident("a"), ident("b"))));
    assert_eq!(parse("a + b"), Token::Op(Op::Add(ident("a"), ident("b"))));
    assert_eq!(parse("a - b"), Token::Op(Op::Subtract(ident("a"), ident("b"))));
}

#[test]
fn method_chain() {
    assert_eq!(
        parse("output; print"),
        Token::Method(ident("output"), ident("print"))
    );
}

#[test]
fn prefix_call_with_array() {
    assert_eq!(
        parse("add [1, 2]"),
        Token::Pair(
            Box::new(Token::MethodUnit(
                ident("add"),
                Box::new(Token::Array(vec![
                    Token::Literal(Literal::Vague(VagueLiteral::Integer("1".to_string()))),
                    Token::Literal(Literal::Vague(VagueLiteral::Integer("2".to_string()))),
                ])),
            )),
            Box::new(Token::Nothing),
        )
    );
}

#[test]
fn function_definition() {
    assert_eq!(
        parse("f = |byte x| {\nx\n}"),
        Token::Pair(
            Box::new(Token::Assignment {
                mutable: false,
                type_annotation: None,
                ident: ident("f"),
                value: Box::new(Token::FnPair(
                    TonsOfTokens(vec![Token::Param {
                        mutable: false,
                        type_annotation: ident("byte"),
                        ident: ident("x"),
                    }]),
                    ident("x"),
                    Box::new(Token::Nothing),
                )),
            }),
            Box::new(Token::Nothing),
        )
    );
}

#[test]
fn unterminated_block_degrades_to_nothing() {
    assert_eq!(parse("| byte x | { y"), Token::Nothing);
}

#[test]
fn bare_parenthesized_expression_is_not_a_statement() {
    // The top-level dispatcher has no parenthesized alternative; grouping is
    // only available in operand positions, so this degrades to the
    // terminator.
    assert_eq!(parse("(x + 1)"), Token::Nothing);
}

#[test]
fn end_to_end_example() {
    let src = "mut output = 0\nbyte dice = (1b - 1b); randomize; normalize\nif dice >= 127 {\noutput = 1\n}\noutput; print";
    let one_byte = || Box::new(Token::Literal(Literal::Number(StrictNumber::Byte(1))));
    let expected = Token::Pair(
        Box::new(Token::Assignment {
            mutable: true,
            type_annotation: None,
            ident: ident("output"),
            value: vague_int("0"),
        }),
        Box::new(Token::Pair(
            Box::new(Token::Assignment {
                mutable: false,
                type_annotation: Some(ident("byte")),
                ident: ident("dice"),
                value: Box::new(Token::Method(
                    Box::new(Token::Op(Op::Subtract(one_byte(), one_byte()))),
                    Box::new(Token::Method(ident("randomize"), ident("normalize"))),
                )),
            }),
            Box::new(Token::CondPair(
                Box::new(Token::IfStmt {
                    cond: Box::new(Token::Op(Op::Gte(ident("dice"), vague_int("127")))),
                }),
                Box::new(Token::Pair(
                    Box::new(Token::Assignment {
                        mutable: false,
                        type_annotation: None,
                        ident: ident("output"),
                        value: vague_int("1"),
                    }),
                    Box::new(Token::Nothing),
                )),
                Box::new(Token::Method(ident("output"), ident("print"))),
            )),
        )),
    );
    assert_eq!(parse(src), expected);
}

#[test]
fn unparseable_input_is_reported() {
    assert_eq!(parse_program("(x + 1)"), Err(ParseError::UnparseableInput));
    assert_eq!(parse_program(""), Ok(Token::Nothing));
    assert_eq!(parse_program(" \t\n"), Ok(Token::Nothing));
    assert!(matches!(parse_program("x = 5"), Ok(Token::Pair(_, _))));
}

#[test]
fn numeric_overflow_is_reported() {
    assert_eq!(parse_program("x = 300b"), Err(ParseError::NumericOverflow));
    assert_eq!(parse_program("300b"), Err(ParseError::NumericOverflow));
    assert_eq!(parse_program("x = -5b"), Err(ParseError::NumericOverflow));
    assert!(matches!(parse_program("x = 255b"), Ok(Token::Pair(_, _))));
    assert!(matches!(parse_program("x = 300s"), Ok(Token::Pair(_, _))));
    // A numeral continuing an identifier is that identifier, not a literal.
    assert!(matches!(parse_program("x1b"), Ok(Token::Ident(_))));
}

#[test]
fn trailing_input_is_reported() {
    assert_eq!(parse_program("127 xyz"), Err(ParseError::TrailingInput));
    assert!(matches!(parse_program("127  "), Ok(Token::Literal(_))));
    assert!(matches!(parse_program("\r"), Ok(Token::Nothing)));
}

#[test]
fn block_scanner_failure_modes() {
    let not_block: Vec<char> = "x = 5".chars().collect();
    assert_eq!(bracket_group(&not_block, 0), Err(BlockError::NotABlock));
    let unterminated: Vec<char> = "{\nx = 5\n".chars().collect();
    assert_eq!(bracket_group(&unterminated, 0), Err(BlockError::Unterminated));
    let closed: Vec<char> = "{\nx\n} rest".chars().collect();
    assert_eq!(
        bracket_group(&closed, 0),
        Ok((5, Token::Ident("x".to_string())))
    );
}

#[test]
fn parse_is_repeatable() {
    let src = "mut x = 5\nx; print";
    assert_eq!(parse(src), parse(src));
}

#[test]
fn float_tail_digits_are_not_an_overflow() {
    // The digits after a float's dot are part of the float, not a numeral:
    // the grammar reads a vague float here and no overflow is reported.
    assert!(matches!(parse_program("x = 1.300"), Ok(Token::Pair(_, _))));
}
