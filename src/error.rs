//! The failures of a generation run, classified by kind.

use crate::text::{decimal, decimal_digits};
use vstd::prelude::*;

verus! {

/// A failure, with the name of what failed.
#[derive(Debug, Clone, PartialEq, Eq)]
pub enum Error {
    /// A program, role or file that a name refers to does not exist.
    FileNotFound(String),
    /// A task refers to a bundle that is not declared.
    TestBundleNotFound(String),
    /// The compiler rejected a program: the program and what the compiler wrote.
    CompileError(String, String),
    /// A program ran out of time or memory and was stopped.
    TimeLimitExceeded(String),
    /// A program exited unsuccessfully within its limits: the program and its exit
    /// status, if it exited with one.
    RuntimeError(String, Option<i64>),
    /// The problem cannot be exported in the asked format.
    ExportError(String),
}

/// `n` in decimal, with a minus sign when negative.
pub open spec fn signed_digits(n: int) -> Seq<char> {
    if n < 0 {
        seq!['-'] + decimal_digits((-n) as nat)
    } else {
        decimal_digits(n as nat)
    }
}

/// The message that tells a user of the failure `e`.
pub open spec fn error_text(e: Error) -> Seq<char> {
    match e {
        Error::FileNotFound(info) => "file not found: "@ + info@,
        Error::TestBundleNotFound(info) => "test bundle not found: "@ + info@,
        Error::CompileError(info, message) => info@ + " compile error: "@ + message@,
        Error::TimeLimitExceeded(info) => info@ + " time limit exceeded"@,
        Error::RuntimeError(info, code) => match code {
            Some(c) => info@ + " runtime error (exit status "@ + signed_digits(c as int) + ")"@,
            None => info@ + " runtime error"@,
        },
        Error::ExportError(info) => "export error: "@ + info@,
    }
}

/// `n` in decimal, with a minus sign when negative.
pub fn write_signed(n: i64) -> (r: String)
    ensures
        r@ == signed_digits(n as int),
{
    if n < 0 {
        let mut r = String::from_str("-");
        let magnitude = decimal((-(n as i128)) as u128);
        r.append(magnitude.as_str());
        proof {
            reveal_strlit("-");
        }
        r
    } else {
        decimal(n as u128)
    }
}

impl Error {
    pub fn file_not_found(message: &str) -> (r: Error)
        ensures
            r matches Error::FileNotFound(m) && m@ == message@,
    {
        Error::FileNotFound(String::from_str(message))
    }

    pub fn test_bundle_not_found(message: &str) -> (r: Error)
        ensures
            r matches Error::TestBundleNotFound(m) && m@ == message@,
    {
        Error::TestBundleNotFound(String::from_str(message))
    }

    pub fn compiler_error(info: &str, message: &str) -> (r: Error)
        ensures
            r matches Error::CompileError(i, m) && i@ == info@ && m@ == message@,
    {
        Error::CompileError(String::from_str(info), String::from_str(message))
    }

    pub fn time_limit_exceeded(info: &str) -> (r: Error)
        ensures
            r matches Error::TimeLimitExceeded(i) && i@ == info@,
    {
        Error::TimeLimitExceeded(String::from_str(info))
    }

    pub fn runtime_error(info: &str, code: Option<i64>) -> (r: Error)
        ensures
            r matches Error::RuntimeError(i, c) && i@ == info@ && c == code,
    {
        Error::RuntimeError(String::from_str(info), code)
    }

    pub fn export_error(info: &str) -> (r: Error)
        ensures
            r matches Error::ExportError(i) && i@ == info@,
    {
        Error::ExportError(String::from_str(info))
    }

    /// The message that tells a user of this failure.
    pub fn to_text(&self) -> (r: String)
        ensures
            r@ == error_text(*self),
    {
        let (mut r, tail) = match self {
            Error::FileNotFound(info) => (String::from_str("file not found: "), info.clone()),
            Error::TestBundleNotFound(info) => (
                String::from_str("test bundle not found: "),
                info.clone(),
            ),
            Error::CompileError(info, message) => {
                let mut head = info.clone();
                head.append(" compile error: ");
                (head, message.clone())
            },
            Error::TimeLimitExceeded(info) => (info.clone(), String::from_str(" time limit exceeded")),
            Error::RuntimeError(info, code) => {
                let mut head = info.clone();
                match code {
                    Some(c) => {
                        head.append(" runtime error (exit status ");
                        let status = write_signed(*c);
                        head.append(status.as_str());
                        (head, String::from_str(")"))
                    },
                    None => (head, String::from_str(" runtime error")),
                }
            },
            Error::ExportError(info) => (String::from_str("export error: "), info.clone()),
        };
        r.append(tail.as_str());
        r
    }
}

} // verus!
