//! Errors reported to a client: a numeric code and a message.

use vstd::prelude::*;

verus! {

/// An error as it is sent back: its code and a message.
#[derive(Debug, Clone)]
pub struct Exception {
    pub code: i16,
    pub msg: String,
}

/// The kinds of error. All but `ConnectionFatalError` leave the connection open.
#[derive(Debug, Clone, Copy, PartialEq, Eq, Structural)]
pub enum ExceptionKind {
    ParamParseError,
    TSNameExistsError,
    QueueIsNullError,
    TimeSerieError,
    SaveTypeError,
    TSNameNotFoundError,
    ConnectionFatalError,
}

/// Code of an error that ends the connection.
pub const FATAL_CODE: i16 = -1;

impl ExceptionKind {
    pub open spec fn spec_code(self) -> i16 {
        match self {
            ExceptionKind::ParamParseError => 4001,
            ExceptionKind::TSNameExistsError => 4002,
            ExceptionKind::QueueIsNullError => 4003,
            ExceptionKind::TimeSerieError => 4004,
            ExceptionKind::SaveTypeError => 4005,
            ExceptionKind::TSNameNotFoundError => 4006,
            ExceptionKind::ConnectionFatalError => -1i16,
        }
    }

    pub fn as_code(&self) -> (r: i16)
        ensures
            r == self.spec_code(),
    {
        match self {
            ExceptionKind::ParamParseError => 4001,
            ExceptionKind::TSNameExistsError => 4002,
            ExceptionKind::QueueIsNullError => 4003,
            ExceptionKind::TimeSerieError => 4004,
            ExceptionKind::SaveTypeError => 4005,
            ExceptionKind::TSNameNotFoundError => 4006,
            ExceptionKind::ConnectionFatalError => FATAL_CODE,
        }
    }
}

impl Exception {
    pub fn new(code: i16, msg: &str) -> (r: Exception)
        ensures
            r.code == code,
            r.msg@ == msg@,
    {
        Exception { code, msg: msg.to_owned() }
    }

    pub fn err(kind: ExceptionKind, msg: &str) -> (r: Exception)
        ensures
            r.code == kind.spec_code(),
            r.msg@ == msg@,
    {
        Exception::new(kind.as_code(), msg)
    }

    /// A success record (code 0) with the given message.
    pub fn ok(&self, msg: &str) -> (r: Exception)
        ensures
            r.code == 0,
            r.msg@ == msg@,
    {
        Exception::new(0, msg)
    }

    /// Whether this error ends the connection it was raised on.
    pub fn is_fatal(&self) -> (r: bool)
        ensures
            r == (self.code == ExceptionKind::ConnectionFatalError.spec_code()),
    {
        self.code == FATAL_CODE
    }
}

} // verus!
