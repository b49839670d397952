//! What can go wrong while a keymap is read.

use crate::decimal::{decimal, number_error_message, number_error_text, push_decimal, NumberError};
use vstd::prelude::*;
use vstd::string::*;

verus! {

/// `std::io::Error`, carried as it is: nothing inside it is looked at.
#[verifier::external_type_specification]
#[verifier::external_body]
pub struct ExIoError(std::io::Error);

/// Why a line, or a whole keymap, could not be read.
#[derive(Debug)]
pub enum ParseError {
    /// The underlying stream failed.
    IoError(std::io::Error),
    /// A field that the entry's tag requires is absent.
    MissingField { tag: &'static str, field: &'static str },
    /// A numeric field is no number of the expected width.
    InvalidNumber { tag: &'static str, field: &'static str, err: String },
    /// The modifier byte stands for no set of modifiers.
    InvalidModifierCode(u8),
    /// The key code names no key.
    InvalidKeyCode(u16),
    /// The section code names no section.
    InvalidSectionCode(u32),
    /// The termination code names no termination behaviour.
    InvalidTermination(u32),
    /// The line starts with a tag that is none of `KEY`, `SCR`, `ACT`.
    InvalidTag(String),
}

/// A `ParseError` with its texts as character sequences; of an I/O failure only the
/// kind is kept.
pub enum ParseErrorView {
    IoError,
    MissingField { tag: Seq<char>, field: Seq<char> },
    InvalidNumber { tag: Seq<char>, field: Seq<char>, err: Seq<char> },
    InvalidModifierCode(u8),
    InvalidKeyCode(u16),
    InvalidSectionCode(u32),
    InvalidTermination(u32),
    InvalidTag(Seq<char>),
}

impl View for ParseError {
    type V = ParseErrorView;

    open spec fn view(&self) -> ParseErrorView {
        match self {
            ParseError::IoError(_) => ParseErrorView::IoError,
            ParseError::MissingField { tag, field } => ParseErrorView::MissingField {
                tag: tag@,
                field: field@,
            },
            ParseError::InvalidNumber { tag, field, err } => ParseErrorView::InvalidNumber {
                tag: tag@,
                field: field@,
                err: err@,
            },
            ParseError::InvalidModifierCode(b) => ParseErrorView::InvalidModifierCode(*b),
            ParseError::InvalidKeyCode(c) => ParseErrorView::InvalidKeyCode(*c),
            ParseError::InvalidSectionCode(n) => ParseErrorView::InvalidSectionCode(*n),
            ParseError::InvalidTermination(n) => ParseErrorView::InvalidTermination(*n),
            ParseError::InvalidTag(t) => ParseErrorView::InvalidTag(t@),
        }
    }
}

/// The start of the message of an I/O failure.
pub open spec fn io_error_prefix() -> Seq<char> {
    "I/O error: "@
}

/// The message of an error that is no I/O failure.
pub open spec fn error_text(e: ParseErrorView) -> Seq<char> {
    match e {
        ParseErrorView::IoError => io_error_prefix(),
        ParseErrorView::MissingField { tag, field } => tag + " entry missing field "@ + field,
        ParseErrorView::InvalidNumber { tag, field, err } => tag + " entry invalid number in "@
            + field + ": "@ + err,
        ParseErrorView::InvalidModifierCode(b) => "invalid modifier code "@ + decimal(b as nat),
        ParseErrorView::InvalidKeyCode(c) => "invalid key code "@ + decimal(c as nat),
        ParseErrorView::InvalidSectionCode(n) => "invalid section code "@ + decimal(n as nat),
        ParseErrorView::InvalidTermination(n) => "invalid termination behavior "@ + decimal(
            n as nat,
        ),
        ParseErrorView::InvalidTag(t) => "invalid entry tag: "@ + t,
    }
}

/// What `std::io::Error` prints for itself, through `ToString::to_string`. The text
/// depends on the platform, so nothing is claimed of it.
#[verifier::external_body]
fn io_error_message(e: &std::io::Error) -> (r: String) {
    e.to_string()
}

impl ParseError {
    /// The message of the error. Of an I/O failure it is the fixed prefix followed by
    /// what the platform says.
    pub fn to_string(&self) -> (r: String)
        ensures
            self@ !is IoError ==> r@ == error_text(self@),
            self@ is IoError ==> r@.len() >= io_error_prefix().len() && r@.take(
                io_error_prefix().len() as int,
            ) == io_error_prefix(),
    {
        let mut out = String::new();
        match self {
            ParseError::IoError(e) => {
                out.append("I/O error: ");
                let ghost before = out@;
                let text = io_error_message(e);
                out.append(text.as_str());
                assert(out@.take(before.len() as int) =~= before);
            },
            ParseError::MissingField { tag, field } => {
                out.append(tag);
                out.append(" entry missing field ");
                out.append(field);
                assert(out@ =~= error_text(self@));
            },
            ParseError::InvalidNumber { tag, field, err } => {
                out.append(tag);
                out.append(" entry invalid number in ");
                out.append(field);
                out.append(": ");
                out.append(err.as_str());
                assert(out@ =~= error_text(self@));
            },
            ParseError::InvalidModifierCode(b) => {
                out.append("invalid modifier code ");
                push_decimal(&mut out, *b as u32);
                assert(out@ =~= error_text(self@));
            },
            ParseError::InvalidKeyCode(c) => {
                out.append("invalid key code ");
                push_decimal(&mut out, *c as u32);
                assert(out@ =~= error_text(self@));
            },
            ParseError::InvalidSectionCode(n) => {
                out.append("invalid section code ");
                push_decimal(&mut out, *n);
                assert(out@ =~= error_text(self@));
            },
            ParseError::InvalidTermination(n) => {
                out.append("invalid termination behavior ");
                push_decimal(&mut out, *n);
                assert(out@ =~= error_text(self@));
            },
            ParseError::InvalidTag(t) => {
                out.append("invalid entry tag: ");
                out.append(t.as_str());
                assert(out@ =~= error_text(self@));
            },
        }
        out
    }
}

impl From<std::io::Error> for ParseError {
    fn from(e: std::io::Error) -> (r: ParseError) {
        ParseError::IoError(e)
    }
}

impl vstd::std_specs::convert::FromSpecImpl<std::io::Error> for ParseError {
    open spec fn obeys_from_spec() -> bool {
        true
    }

    open spec fn from_spec(e: std::io::Error) -> ParseError {
        ParseError::IoError(e)
    }
}

impl From<NumberError> for ParseError {
    /// The error of a number that stands on its own, outside any entry.
    fn from(e: NumberError) -> (r: ParseError)
        ensures
            r@ == (ParseErrorView::InvalidNumber {
                tag: "<number>"@,
                field: "<value>"@,
                err: number_error_text(e),
            }),
    {
        ParseError::InvalidNumber {
            tag: "<number>",
            field: "<value>",
            err: number_error_message(e).to_string(),
        }
    }
}

impl vstd::std_specs::convert::FromSpecImpl<NumberError> for ParseError {
    open spec fn obeys_from_spec() -> bool {
        false
    }

    open spec fn from_spec(e: NumberError) -> ParseError {
        arbitrary()
    }
}

} // verus!
