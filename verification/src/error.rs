//! Error types for HTML extraction and for parsing text into values.

use vstd::prelude::*;

verus! {

/// Why a decimal integer could not be read, as `str::parse` reports it.
#[derive(Debug, Clone, Copy, PartialEq, Eq, Structural)]
pub enum IntErrorKind {
    /// The text (after trimming) was empty.
    Empty,
    /// A character that is not a decimal digit, or a sign where none is allowed.
    InvalidDigit,
    /// The number is larger than the target type holds.
    PosOverflow,
    /// The number is smaller than the target type holds.
    NegOverflow,
}

impl IntErrorKind {
    pub open spec fn spec_message(self) -> Seq<char> {
        match self {
            IntErrorKind::Empty => "cannot parse integer from empty string"@,
            IntErrorKind::InvalidDigit => "invalid digit found in string"@,
            IntErrorKind::PosOverflow => "number too large to fit in target type"@,
            IntErrorKind::NegOverflow => "number too small to fit in target type"@,
        }
    }

    /// The description of the error.
    pub fn to_string(&self) -> (r: String)
        ensures
            r@ == self.spec_message(),
    {
        match self {
            IntErrorKind::Empty => "cannot parse integer from empty string".to_owned(),
            IntErrorKind::InvalidDigit => "invalid digit found in string".to_owned(),
            IntErrorKind::PosOverflow => "number too large to fit in target type".to_owned(),
            IntErrorKind::NegOverflow => "number too small to fit in target type".to_owned(),
        }
    }
}

/// An integer that could not be read, with why, as `str::parse` reports it.
#[derive(Debug, Clone, Copy, PartialEq, Eq, Structural)]
pub struct ParseIntError {
    pub kind: IntErrorKind,
}

impl ParseIntError {
    /// Why the integer could not be read.
    pub fn kind(&self) -> (r: &IntErrorKind)
        ensures
            *r == self.kind,
    {
        &self.kind
    }

    /// The description of the error.
    pub fn to_string(&self) -> (r: String)
        ensures
            r@ == self.kind.spec_message(),
    {
        self.kind.to_string()
    }
}

#[verifier::external_type_specification]
#[verifier::external_body]
pub struct ExParseFloatError(std::num::ParseFloatError);

/// Errors that can occur when parsing text into Rust types. Each variant
/// holds the text, as given, that failed to parse.
#[derive(Debug)]
#[allow(inconsistent_fields)]
pub enum ParseError {
    /// Failed to parse an integer.
    InvalidNumber { text: String, error: ParseIntError },
    /// Failed to parse a floating point number; `error` describes why.
    InvalidFloat { text: String, error: std::num::ParseFloatError },
    /// Failed to parse a boolean. Valid values are "true", "1", "yes", "on"
    /// and "false", "0", "no", "off", "" (in any letter case, around
    /// whitespace).
    InvalidBool { text: String },
    /// Error of a custom `FromHtml` implementation.
    Custom { message: String },
}

impl ParseError {
    /// The message of the error.
    pub open spec fn spec_message(self) -> Seq<char> {
        match self {
            ParseError::InvalidNumber { text, .. } => "Invalid number: "@ + text@,
            ParseError::InvalidFloat { text, .. } => "Invalid float: "@ + text@,
            ParseError::InvalidBool { text } => "Invalid boolean: "@ + text@,
            ParseError::Custom { message } => "Custom parse error: "@ + message@,
        }
    }

    /// The message of the error.
    pub fn to_string(&self) -> (r: String)
        ensures
            r@ == self.spec_message(),
    {
        match self {
            ParseError::InvalidNumber { text, .. } => concat_str("Invalid number: ", text.as_str()),
            ParseError::InvalidFloat { text, .. } => concat_str("Invalid float: ", text.as_str()),
            ParseError::InvalidBool { text } => concat_str("Invalid boolean: ", text.as_str()),
            ParseError::Custom { message } => concat_str("Custom parse error: ", message.as_str()),
        }
    }
}

/// Errors that can occur during HTML extraction, each with the context of
/// what went wrong.
#[derive(Debug)]
#[allow(inconsistent_fields)]
pub enum ExtractionError {
    /// Failed to parse a CSS selector.
    InvalidSelector { selector: String, error: String },
    /// A required field's selector matched no element (or the element lacks
    /// the attribute). Optional fields never give this error.
    MissingField { field: String, selector: String },
    /// The extracted text could not be converted to the field's type; the
    /// text, as read, is kept.
    ParseError { field: String, text: String, error: ParseError },
    /// Several errors occurred while extracting several items.
    Multiple { errors: Vec<ExtractionError> },
}

/// The `Debug` rendering of a list of errors.
#[verifier::external_body]
fn debug_errors(errors: &Vec<ExtractionError>) -> String {
    format!("{:?}", errors)
}

impl ExtractionError {
    /// The message of the error.
    pub fn to_string(&self) -> (r: String)
        ensures
            match self {
                ExtractionError::InvalidSelector { selector, error } => r@ == "Failed to parse selector '"@
                    + selector@ + "': "@ + error@,
                ExtractionError::MissingField { field, selector } => r@ == "Required field '"@ + field@
                    + "' not found using selector '"@ + selector@ + "'"@,
                ExtractionError::ParseError { field, text, error } => r@ == "Failed to parse field '"@
                    + field@ + "' from text '"@ + text@ + "': "@ + error.spec_message(),
                ExtractionError::Multiple { .. } => exists|d: Seq<char>|
                    r@ == "Multiple errors occurred: "@ + d,
            },
    {
        match self {
            ExtractionError::InvalidSelector { selector, error } => {
                let mut r = concat_str("Failed to parse selector '", selector.as_str());
                r.append("': ");
                r.append(error.as_str());
                r
            },
            ExtractionError::MissingField { field, selector } => {
                let mut r = concat_str("Required field '", field.as_str());
                r.append("' not found using selector '");
                r.append(selector.as_str());
                r.append("'");
                r
            },
            ExtractionError::ParseError { field, text, error } => {
                let mut r = concat_str("Failed to parse field '", field.as_str());
                r.append("' from text '");
                r.append(text.as_str());
                r.append("': ");
                let e = error.to_string();
                r.append(e.as_str());
                r
            },
            ExtractionError::Multiple { errors } => {
                let d = debug_errors(errors);
                let r = concat_str("Multiple errors occurred: ", d.as_str());
                assert(r@ == "Multiple errors occurred: "@ + d@);
                r
            },
        }
    }
}

/// `a` followed by `b`, as a new string.
pub fn concat_str(a: &str, b: &str) -> (r: String)
    ensures
        r@ == a@ + b@,
{
    let mut r = a.to_owned();
    r.append(b);
    r
}

} // verus!
