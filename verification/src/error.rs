//! Errors reported by the blame operations.
use vstd::prelude::*;
use vstd::string::to_string_from_display_ensures;

verus! {

/// The error codes that the blame operations report.
#[derive(Clone, Copy, Debug, PartialEq, Eq)]
pub enum ErrorCode {
    /// Generic error.
    GenericError,
}

/// The classes of error that the blame operations report.
#[derive(Clone, Copy, Debug, PartialEq, Eq)]
pub enum ErrorClass {
    /// Uncategorized.
    Unclassified,
    /// Invalid input.
    Invalid,
}

/// An error: a code, a class and a message.
#[derive(Debug, PartialEq, Eq)]
pub struct Error {
    code: ErrorCode,
    class: ErrorClass,
    message: String,
}

/// `m` is the display text of the UTF-8 error `e`, as `to_string` gives it.
pub open spec fn utf8_error_message(e: std::str::Utf8Error, m: Seq<char>) -> bool {
    exists|s: String| to_string_from_display_ensures::<std::str::Utf8Error>(&e, s) && m == s@
}

/// The raw number of an error code.
pub open spec fn spec_raw_code(code: ErrorCode) -> int {
    match code {
        ErrorCode::GenericError => -1,
    }
}

/// The raw number of an error class.
pub open spec fn spec_raw_class(class: ErrorClass) -> int {
    match class {
        ErrorClass::Unclassified => 0,
        ErrorClass::Invalid => 3,
    }
}

impl Error {
    /// The code of this error.
    pub closed spec fn spec_code(&self) -> ErrorCode {
        self.code
    }

    /// The class of this error.
    pub closed spec fn spec_class(&self) -> ErrorClass {
        self.class
    }

    /// The message of this error.
    pub closed spec fn spec_message(&self) -> Seq<char> {
        self.message@
    }

    /// Creates a new error from a code, a class and a message.
    pub fn new(code: ErrorCode, class: ErrorClass, message: &str) -> (e: Error)
        ensures
            e.spec_code() == code,
            e.spec_class() == class,
            e.spec_message() == message@,
    {
        Error { code, class, message: message.to_string() }
    }

    /// Creates an error of code `GenericError` and class `Unclassified` with the given message.
    pub fn from_str(message: &str) -> (e: Error)
        ensures
            e.spec_code() == ErrorCode::GenericError,
            e.spec_class() == ErrorClass::Unclassified,
            e.spec_message() == message@,
    {
        Error::new(ErrorCode::GenericError, ErrorClass::Unclassified, message)
    }

    /// The error for bytes that are not valid UTF-8: code `GenericError`,
    /// class `Unclassified`, and the text of the UTF-8 error as its message.
    pub fn from_utf8_error(e: &std::str::Utf8Error) -> (r: Error)
        ensures
            r.spec_code() == ErrorCode::GenericError,
            r.spec_class() == ErrorClass::Unclassified,
            utf8_error_message(*e, r.spec_message()),
    {
        let text = e.to_string();
        Error::from_str(text.as_str())
    }

    /// The code of this error.
    pub fn code(&self) -> (c: ErrorCode)
        ensures
            c == self.spec_code(),
    {
        self.code
    }

    /// The class of this error.
    pub fn class(&self) -> (c: ErrorClass)
        ensures
            c == self.spec_class(),
    {
        self.class
    }

    /// The raw number of the code of this error.
    pub fn raw_code(&self) -> (c: i32)
        ensures
            c == spec_raw_code(self.spec_code()),
    {
        match self.code {
            ErrorCode::GenericError => -1,
        }
    }

    /// The raw number of the class of this error.
    pub fn raw_class(&self) -> (c: i32)
        ensures
            c == spec_raw_class(self.spec_class()),
    {
        match self.class {
            ErrorClass::Unclassified => 0,
            ErrorClass::Invalid => 3,
        }
    }

    /// The message of this error.
    pub fn message(&self) -> (m: &str)
        ensures
            m@ == self.spec_message(),
    {
        self.message.as_str()
    }
}

} // verus!
