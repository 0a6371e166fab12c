//! The ways a request can fail, and the diagnostic shown for a failure.

use vstd::prelude::*;
use vstd::string::StringExecFns;

verus! {

/// Why no constant could be described. Each kind carries a message for the
/// person who wrote the request.
#[derive(Debug, PartialEq, Eq)]
pub enum Error {
    /// The syntax of the request could not be read.
    ParseError(String),
    /// An option is known but its value is not usable, or the option has a
    /// form that is not supported.
    ConfigurationError(String),
    /// The declaration uses a feature for which no size can be stated.
    UnsupportedFeatureError(String),
}

/// An [`Error`] as a mathematical value.
pub enum ErrorView {
    ParseError(Seq<char>),
    ConfigurationError(Seq<char>),
    UnsupportedFeatureError(Seq<char>),
}

impl ErrorView {
    /// The message that the error carries.
    pub open spec fn message(self) -> Seq<char> {
        match self {
            ErrorView::ParseError(message) => message,
            ErrorView::ConfigurationError(message) => message,
            ErrorView::UnsupportedFeatureError(message) => message,
        }
    }

    /// The text of the diagnostic: the tool's name, a colon and a space, then
    /// the message.
    pub open spec fn diagnostic(self) -> Seq<char> {
        "size_of_const_macro: "@ + self.message()
    }
}

impl View for Error {
    type V = ErrorView;

    open spec fn view(&self) -> ErrorView {
        match self {
            Error::ParseError(message) => ErrorView::ParseError(message@),
            Error::ConfigurationError(message) => ErrorView::ConfigurationError(message@),
            Error::UnsupportedFeatureError(message) => ErrorView::UnsupportedFeatureError(
                message@,
            ),
        }
    }
}

impl Clone for Error {
    fn clone(&self) -> (copy: Self)
        ensures
            copy@ == self@,
    {
        match self {
            Error::ParseError(message) => Error::ParseError(message.clone()),
            Error::ConfigurationError(message) => Error::ConfigurationError(message.clone()),
            Error::UnsupportedFeatureError(message) => Error::UnsupportedFeatureError(
                message.clone(),
            ),
        }
    }
}

impl Error {
    /// The message that the error carries.
    pub fn message(&self) -> (message: &str)
        ensures
            message@ == self@.message(),
    {
        match self {
            Error::ParseError(message) => message.as_str(),
            Error::ConfigurationError(message) => message.as_str(),
            Error::UnsupportedFeatureError(message) => message.as_str(),
        }
    }

    /// The diagnostic to show in place of the constant: the message behind
    /// the tool's name.
    pub fn diagnostic(&self) -> (text: String)
        ensures
            text@ == self@.diagnostic(),
    {
        let mut text = String::from_str("size_of_const_macro: ");
        text.append(self.message());
        text
    }
}

} // verus!
