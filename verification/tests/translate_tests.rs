//! Lowering scenarios: variable bindings, casts, function generation, call
//! desugaring, the error taxonomy, and idempotence of translation.

use dolomite::parser::parse;
use dolomite::token::{Literal, StrictNumber, Token, TonsOfTokens, VagueLiteral};
use dolomite::translate::{translate_file, TranslateError};

fn ident(name: &str) -> Box<Token> {
    Box::new(Token::Ident(name.to_string()))
}

fn vague_int(digits: &str) -> Box<Token> {
    Box::new(Token::Literal(Literal::Vague(VagueLiteral::Integer(digits.to_string()))))
}

#[test]
fn translate_mutable_assignment() {
    let tree = parse("mut output = 0");
    assert_eq!(translate_file(Box::new(tree)), Ok("mut output := 0\n".to_string()));
}

#[test]
fn translate_typed_assignment_wraps_in_cast() {
    let tree = parse("byte dice = 1b");
    assert_eq!(translate_file(Box::new(tree)), Ok("dice := u8(u8(1))\n".to_string()));
}

#[test]
fn translate_prefix_call_scalar() {
    let tree = parse("print x");
    assert_eq!(translate_file(Box::new(tree)), Ok("print(x)\n".to_string()));
}

#[test]
fn translate_prefix_call_array() {
    let tree = parse("add [1, 2]");
    assert_eq!(translate_file(Box::new(tree)), Ok("add(1, 2)\n".to_string()));
}

#[test]
fn type_keyword_as_call_name_becomes_cast() {
    let tree = parse("byte 5");
    assert_eq!(translate_file(Box::new(tree)), Ok("u8(5)\n".to_string()));
}

#[test]
fn translate_conditional() {
    let tree = parse("if x == 1 {\ny = 2\n}\nz = 3");
    assert_eq!(
        translate_file(Box::new(tree)),
        Ok("if (x == 1) {\ny := 2\n\n}\n z := 3\n".to_string())
    );
}

fn one_param_function() -> Token {
    // f = |byte x| { x } with no return-type annotation.
    Token::Assignment {
        mutable: false,
        type_annotation: None,
        ident: ident("f"),
        value: Box::new(Token::FnPair(
            TonsOfTokens(vec![Token::Param {
                mutable: false,
                type_annotation: ident("byte"),
                ident: ident("x"),
            }]),
            ident("x"),
            Box::new(Token::Nothing),
        )),
    }
}

#[test]
fn function_lowering() {
    // One u8 parameter, no explicit return type, the body translated, and no
    // trailing remainder code after the closing brace.
    assert_eq!(
        translate_file(Box::new(one_param_function())),
        Ok("fn f(x u8)  {\nx\n}\n\n\n".to_string())
    );
}

#[test]
fn function_lowering_with_return_type() {
    let tree = Token::Assignment {
        mutable: false,
        type_annotation: Some(ident("large")),
        ident: ident("g"),
        value: Box::new(Token::FnPair(
            TonsOfTokens(vec![]),
            vague_int("4"),
            Box::new(Token::Nothing),
        )),
    };
    assert_eq!(
        translate_file(Box::new(tree)),
        Ok("fn g() u64 {\n4\n}\n\n\n".to_string())
    );
}

#[test]
fn function_lowering_from_source() {
    // The parse wraps the assignment in a statement pair whose tail is the
    // terminator, so one more newline follows the generated function.
    let tree = parse("f = |byte x| {\nx\n}");
    assert_eq!(
        translate_file(Box::new(tree)),
        Ok("fn f(x u8)  {\nx\n}\n\n\n\n".to_string())
    );
}

#[test]
fn translation_is_idempotent() {
    let first = translate_file(Box::new(one_param_function()));
    let second = translate_file(Box::new(one_param_function()));
    assert_eq!(first, second);
    let src = "mut output = 0\nbyte dice = 1b\nx; print";
    // A failing translation is reproduced identically too.
    assert_eq!(
        translate_file(Box::new(parse(src))),
        translate_file(Box::new(parse(src)))
    );
}

#[test]
fn unknown_type_name_fails() {
    let tree = parse("foo dice = 5");
    assert_eq!(
        translate_file(Box::new(tree)),
        Err(TranslateError::UnknownTypeName)
    );
}

#[test]
fn unknown_parameter_type_fails() {
    let tree = Token::Assignment {
        mutable: false,
        type_annotation: None,
        ident: ident("f"),
        value: Box::new(Token::FnPair(
            TonsOfTokens(vec![Token::Param {
                mutable: false,
                type_annotation: ident("gigantic"),
                ident: ident("x"),
            }]),
            ident("x"),
            Box::new(Token::Nothing),
        )),
    };
    assert_eq!(
        translate_file(Box::new(tree)),
        Err(TranslateError::UnknownTypeName)
    );
}

#[test]
fn missing_function_name_fails() {
    let tree = Token::Assignment {
        mutable: false,
        type_annotation: None,
        ident: vague_int("1"),
        value: Box::new(Token::FnPair(
            TonsOfTokens(vec![]),
            ident("x"),
            Box::new(Token::Nothing),
        )),
    };
    assert_eq!(
        translate_file(Box::new(tree)),
        Err(TranslateError::MissingFunctionName)
    );
}

#[test]
fn invalid_return_type_fails() {
    let tree = Token::Assignment {
        mutable: false,
        type_annotation: Some(vague_int("2")),
        ident: ident("f"),
        value: Box::new(Token::FnPair(
            TonsOfTokens(vec![]),
            ident("x"),
            Box::new(Token::Nothing),
        )),
    };
    assert_eq!(
        translate_file(Box::new(tree)),
        Err(TranslateError::InvalidReturnType)
    );
}

#[test]
fn unsupported_literal_kinds_fail() {
    assert_eq!(
        translate_file(Box::new(Token::Literal(Literal::Bool(true)))),
        Err(TranslateError::UnsupportedLiteral)
    );
    assert_eq!(
        translate_file(Box::new(Token::Literal(Literal::Vague(VagueLiteral::Float(
            "1.5".to_string()
        ))))),
        Err(TranslateError::UnsupportedLiteral)
    );
    assert_eq!(
        translate_file(Box::new(Token::Literal(Literal::Number(StrictNumber::Large(4))))),
        Err(TranslateError::UnsupportedLiteral)
    );
}

#[test]
fn unsupported_token_kinds_fail() {
    let method = Token::Method(ident("a"), ident("b"));
    assert_eq!(
        translate_file(Box::new(method)),
        Err(TranslateError::UnsupportedToken)
    );
    let param = Token::Param {
        mutable: false,
        type_annotation: ident("byte"),
        ident: ident("x"),
    };
    assert_eq!(
        translate_file(Box::new(param)),
        Err(TranslateError::UnsupportedToken)
    );
}

#[test]
fn translate_string_and_byte_literals() {
    let tree = parse("x = \"hi\"");
    assert_eq!(translate_file(Box::new(tree)), Ok("x := \"hi\"\n".to_string()));
    let tree2 = parse("y = 200b");
    assert_eq!(translate_file(Box::new(tree2)), Ok("y := u8(200)\n".to_string()));
}

#[test]
fn translate_operator_rendering() {
    let tree = parse("x = a + 1");
    assert_eq!(translate_file(Box::new(tree)), Ok("x := (a + 1)\n".to_string()));
}

#[test]
fn translate_empty_program() {
    assert_eq!(translate_file(Box::new(Token::Nothing)), Ok(String::new()));
}

#[test]
fn translate_negative_vague_integer() {
    let tree = parse("x = -5");
    assert_eq!(translate_file(Box::new(tree)), Ok("x := -5\n".to_string()));
}
