//! The library's error type.
use vstd::prelude::*;

use crate::text::{chars_of, push_str, string_of};

verus! {

/// An error of one of the application's subsystems, with its message.
#[derive(Debug, Clone)]
pub enum AppError {
    Config(String),
    Input(String),
    Llm(String),
    Audio(String),
    Whisper(String),
    Io(String),
}

/// The subsystem an error comes from.
#[derive(Debug, Clone, Copy, PartialEq, Eq, Structural)]
pub enum ErrorKind {
    Config,
    Input,
    Llm,
    Audio,
    Whisper,
    Io,
}

impl AppError {
    /// The subsystem of the error.
    pub open spec fn kind(&self) -> ErrorKind {
        match self {
            AppError::Config(_) => ErrorKind::Config,
            AppError::Input(_) => ErrorKind::Input,
            AppError::Llm(_) => ErrorKind::Llm,
            AppError::Audio(_) => ErrorKind::Audio,
            AppError::Whisper(_) => ErrorKind::Whisper,
            AppError::Io(_) => ErrorKind::Io,
        }
    }

    /// The message carried by the error.
    pub open spec fn text(&self) -> Seq<char> {
        match self {
            AppError::Config(m) => m@,
            AppError::Input(m) => m@,
            AppError::Llm(m) => m@,
            AppError::Audio(m) => m@,
            AppError::Whisper(m) => m@,
            AppError::Io(m) => m@,
        }
    }

    /// The message carried by the error.
    pub fn message(&self) -> (s: String)
        ensures
            s@ == self.text(),
    {
        let m = match self {
            AppError::Config(m) => m,
            AppError::Input(m) => m,
            AppError::Llm(m) => m,
            AppError::Audio(m) => m,
            AppError::Whisper(m) => m,
            AppError::Io(m) => m,
        };
        string_of(&chars_of(m.as_str()))
    }
}

/// The kind and message of an error.
pub open spec fn error_view(e: AppError) -> (ErrorKind, Seq<char>) {
    (e.kind(), e.text())
}

/// A `String` holding `s`.
pub fn owned(s: &str) -> (r: String)
    ensures
        r@ == s@,
{
    string_of(&chars_of(s))
}

/// A `String` holding `a` followed by `b`.
pub fn concat2(a: &str, b: &str) -> (r: String)
    ensures
        r@ == a@ + b@,
{
    let mut v = chars_of(a);
    push_str(&mut v, b);
    string_of(&v)
}

/// A `String` holding `a`, `b` and `c` in turn.
pub fn concat3(a: &str, b: &str, c: &str) -> (r: String)
    ensures
        r@ == a@ + b@ + c@,
{
    let mut v = chars_of(a);
    push_str(&mut v, b);
    push_str(&mut v, c);
    string_of(&v)
}

} // verus!
