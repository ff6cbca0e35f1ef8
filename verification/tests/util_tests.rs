//! The collector's rule, the program name holder, and the text utilities.

use std::path::PathBuf;

use dolomite::collector::{collect, CollectError};
use dolomite::compiler::Program;
use dolomite::text::{chars_to_string, i64_to_string, str_to_chars, trim_lines_chars,
    u64_to_string};

#[test]
fn collect_test_1() {
    collect(PathBuf::from("../core/lib").to_str().unwrap(), true).unwrap();
}

#[test]
fn collect_refuses_non_directory() {
    assert_eq!(collect("somewhere", false), Err(CollectError::NotADirectory));
}

#[test]
fn program_keeps_its_name() {
    let p = Program::new("parse_test_1");
    assert_eq!(p.name().as_str(), "parse_test_1");
}

#[test]
fn program_default_is_unnamed() {
    let p = Program::default();
    assert_eq!(p.name().as_str(), "");
}

#[test]
fn decimal_rendering() {
    assert_eq!(u64_to_string(0), "0");
    assert_eq!(u64_to_string(10), "10");
    assert_eq!(u64_to_string(255), "255");
    assert_eq!(u64_to_string(u64::MAX), "18446744073709551615");
    assert_eq!(i64_to_string(0), "0");
    assert_eq!(i64_to_string(-5), "-5");
    assert_eq!(i64_to_string(i64::MIN), "-9223372036854775808");
    assert_eq!(i64_to_string(i64::MAX), "9223372036854775807");
}

#[test]
fn chars_round_trip() {
    assert_eq!(chars_to_string(&vec!['a', 'b']), "ab");
    let v = str_to_chars("hello world");
    assert_eq!(v, "hello world".chars().collect::<Vec<char>>());
    assert_eq!(chars_to_string(&v), "hello world");
}

#[test]
fn trim_lines_trims_each_line() {
    let v = str_to_chars("  fn f() {  \n\t x \n}\t\n");
    assert_eq!(chars_to_string(&trim_lines_chars(&v)), "fn f() {\nx\n}\n");
    let w = str_to_chars("x");
    assert_eq!(chars_to_string(&trim_lines_chars(&w)), "x");
    let e = str_to_chars("");
    assert_eq!(chars_to_string(&trim_lines_chars(&e)), "");
}

#[test]
fn trim_lines_removes_carriage_returns() {
    let v = str_to_chars("a \r\nb");
    assert_eq!(chars_to_string(&trim_lines_chars(&v)), "a\nb");
}
