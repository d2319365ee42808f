//! Errors of the radio drivers, and the outcome of parsing radio replies.

use vstd::prelude::*;
use crate::bytes::push_all;

verus! {

/// Why a parser could not produce a value.
#[derive(Clone, Copy, Debug, PartialEq, Eq)]
pub enum ParseError {
    /// The input ends before the value does; more input may complete it
    Incomplete,
    /// The input cannot hold the value
    Error(ErrorKind),
}

/// Which check of a parser failed.
#[derive(Clone, Copy, Debug, PartialEq, Eq)]
pub enum ErrorKind {
    /// A field could not be converted (text that is not UTF-8 or not a number)
    MapRes,
    /// A byte is none of the expected ones
    OneOf,
    /// Fixed text is not there, or a date does not read as one
    Tag,
    /// None of the alternatives fits
    Alt,
    /// Whitespace is missing
    MultiSpace,
    /// Text does not convert to the number it spells
    ParseTo,
    /// A digit is missing
    Digit,
    /// A given character is missing
    Char,
}

impl ErrorKind {
    /// Description of the failed check.
    pub open spec fn spec_description(&self) -> Seq<char> {
        match self {
            ErrorKind::MapRes => "Map on Result"@,
            ErrorKind::OneOf => "OneOf"@,
            ErrorKind::Tag => "Tag"@,
            ErrorKind::Alt => "Alternative"@,
            ErrorKind::MultiSpace => "Multiple spaces"@,
            ErrorKind::ParseTo => "Parse string to the specified type"@,
            ErrorKind::Digit => "Digit"@,
            ErrorKind::Char => "Char"@,
        }
    }

    /// Description of the failed check.
    pub fn description(&self) -> (r: &'static str)
        ensures
            r@ == self.spec_description(),
    {
        match self {
            ErrorKind::MapRes => "Map on Result",
            ErrorKind::OneOf => "OneOf",
            ErrorKind::Tag => "Tag",
            ErrorKind::Alt => "Alternative",
            ErrorKind::MultiSpace => "Multiple spaces",
            ErrorKind::ParseTo => "Parse string to the specified type",
            ErrorKind::Digit => "Digit",
            ErrorKind::Char => "Char",
        }
    }
}

/// Result of a parser: the rest of the input and the value.
pub type ParseResult<'a, T> = Result<(&'a [u8], T), ParseError>;

/// Errors of the radio drivers.
#[derive(Clone, Debug)]
pub enum RadioError {
    /// There was a problem parsing the result data
    ParseError {
        /// The message of the underlying error
        message: String,
    },
    /// There was a problem with the radio hardware
    HardwareError {
        /// The message of the underlying error
        message: String,
    },
}

impl RadioError {
    /// Text of the error, as the error's display form shows it.
    pub fn to_string(&self) -> (r: String)
        ensures
            r@ == match self {
                RadioError::ParseError { message } => "Parse error: "@ + message@,
                RadioError::HardwareError { message } => "Hardware error: "@ + message@,
            },
    {
        match self {
            RadioError::ParseError { message } => {
                let mut s: String = "Parse error: ".to_owned();
                s.append(message.as_str());
                s
            },
            RadioError::HardwareError { message } => {
                let mut s: String = "Hardware error: ".to_owned();
                s.append(message.as_str());
                s
            },
        }
    }
}

/// Converts a parser failure into a radio error (a parse error whose
/// message names the failed check, or says that the data is incomplete).
pub fn nom_to_radio_error<T>(err: ParseError) -> (r: Result<T, RadioError>)
    ensures
        r matches Err(RadioError::ParseError { message }) && message@ == match err {
            ParseError::Incomplete => "Incomplete data"@,
            ParseError::Error(k) => k.spec_description(),
        },
{
    Err(
        match err {
            ParseError::Incomplete => RadioError::ParseError { message: "Incomplete data".to_owned() },
            ParseError::Error(k) => RadioError::ParseError { message: k.description().to_owned() },
        },
    )
}

/// What reading the next value of a connection comes to after one parse
/// of the bytes received so far.
#[derive(Debug)]
pub enum ReadStep<T> {
    /// The bytes end before the value does: receive more and parse again
    More,
    /// Reading is over, with this result
    Done(Result<T, RadioError>),
}

/// The bytes a radio connection has received and not yet consumed.
pub struct ReadBuffer {
    data: Vec<u8>,
}

impl ReadBuffer {
    /// The bytes held.
    pub closed spec fn spec_contents(&self) -> Seq<u8> {
        self.data@
    }

    /// An empty buffer.
    pub fn new() -> (r: ReadBuffer)
        ensures
            r.spec_contents() == Seq::<u8>::empty(),
    {
        ReadBuffer { data: Vec::new() }
    }

    /// The bytes held, for the parser.
    pub fn contents(&self) -> (r: &[u8])
        ensures
            r@ == self.spec_contents(),
    {
        self.data.as_slice()
    }

    /// Appends bytes received from the stream.
    pub fn extend(&mut self, more: &[u8])
        ensures
            final(self).spec_contents() == old(self).spec_contents() + more@,
    {
        push_all(&mut self.data, more);
    }

    /// Takes the outcome of parsing the bytes held (the rest of them after
    /// the value, and the value): when they are incomplete, keep them all
    /// and receive more; when they cannot hold a value, keep them and fail
    /// with a parse error naming the failed check; else keep only the rest
    /// and give the value.
    pub fn settle<T>(&mut self, outcome: Result<(Vec<u8>, T), ParseError>) -> (r: ReadStep<T>)
        ensures
            match outcome {
                Err(ParseError::Incomplete) => r is More && final(self).spec_contents()
                    == old(self).spec_contents(),
                Err(ParseError::Error(k)) => (r matches ReadStep::Done(
                    Err(RadioError::ParseError { message }),
                ) && message@ == k.spec_description()) && final(self).spec_contents() == old(
                    self,
                ).spec_contents(),
                Ok((rest, v)) => r == ReadStep::Done(Ok::<T, RadioError>(v))
                    && final(self).spec_contents() == rest@,
            },
    {
        match outcome {
            Err(ParseError::Incomplete) => ReadStep::More,
            Err(e) => ReadStep::Done(nom_to_radio_error(e)),
            Ok((rest, v)) => {
                self.data = rest;
                ReadStep::Done(Ok(v))
            },
        }
    }
}

} // verus!
