use cptool::error::Error;
use cptool::text::{copy_strings, decimal, hex, join_words, write_centi};
use cptool::utils::random_string;

fn strings(words: &[&str]) -> Vec<String> {
    words.iter().map(|w| w.to_string()).collect()
}

#[test]
fn join_words_puts_one_space_between() {
    assert_eq!(join_words(&strings(&["-O2", "-std=c++17"])), "-O2 -std=c++17");
    assert_eq!(join_words(&strings(&["5"])), "5");
    assert_eq!(join_words(&Vec::new()), "");
}

#[test]
fn decimal_writes_without_leading_zeros() {
    assert_eq!(decimal(0), "0");
    assert_eq!(decimal(7), "7");
    assert_eq!(decimal(10), "10");
    assert_eq!(decimal(1234567890), "1234567890");
    assert_eq!(decimal(u128::MAX), u128::MAX.to_string());
}

#[test]
fn hex_writes_lower_case() {
    assert_eq!(hex(0), "0");
    assert_eq!(hex(255), "ff");
    assert_eq!(hex(0xdead_beef), "deadbeef");
    assert_eq!(hex(u64::MAX), "ffffffffffffffff");
}

#[test]
fn centi_has_two_decimals() {
    assert_eq!(write_centi(10000), "100.00");
    assert_eq!(write_centi(5), "0.05");
    assert_eq!(write_centi(1234), "12.34");
    assert_eq!(write_centi(0), "0.00");
}

#[test]
fn copy_strings_keeps_order() {
    let v = strings(&["a", "b", "c"]);
    assert_eq!(copy_strings(&v), v);
}

#[test]
fn random_string_is_hexadecimal() {
    let s = random_string();
    assert!(!s.is_empty() && s.len() <= 16);
    assert!(s.chars().all(|c| c.is_ascii_digit() || ('a'..='f').contains(&c)));
    assert!(s == "0" || !s.starts_with('0'));
}

#[test]
fn error_texts() {
    assert_eq!(Error::file_not_found("x").to_text(), "file not found: x");
    assert_eq!(Error::test_bundle_not_found("b2").to_text(), "test bundle not found: b2");
    assert_eq!(
        Error::compiler_error("Cpp a.cpp", "boom").to_text(),
        "Cpp a.cpp compile error: boom"
    );
    assert_eq!(Error::time_limit_exceeded("p").to_text(), "p time limit exceeded");
    assert_eq!(Error::runtime_error("p", None).to_text(), "p runtime error");
    assert_eq!(
        Error::runtime_error("p", Some(3)).to_text(),
        "p runtime error (exit status 3)"
    );
    assert_eq!(
        Error::runtime_error("p", Some(-11)).to_text(),
        "p runtime error (exit status -11)"
    );
    assert_eq!(Error::export_error("no").to_text(), "export error: no");
}

#[test]
fn error_constructors_keep_their_text() {
    assert_eq!(Error::file_not_found("x"), Error::FileNotFound("x".to_string()));
    assert_eq!(
        Error::runtime_error("p", Some(1)),
        Error::RuntimeError("p".to_string(), Some(1))
    );
    assert_eq!(
        Error::compiler_error("i", "m"),
        Error::CompileError("i".to_string(), "m".to_string())
    );
}
