//! Errors that extraction and command invocation can produce.

use vstd::prelude::*;
use vstd::string::StringExecFns;

verus! {

/// Why an extractor could not build its value from a message.
#[derive(Debug)]
pub enum ExtensionRejection {
    /// The extension map was already taken by an earlier extractor.
    ExtensionsAlreadyExtracted,
    /// No value with the requested tag is stored; the text names the tag.
    MissingExtension(String),
}

/// The single error type that every command invocation is normalised to.
#[derive(Debug)]
pub enum Errors {
    /// A failure described by its human-readable message.
    CustomError(String),
}

impl ExtensionRejection {
    /// The human-readable text of this rejection.
    pub open spec fn text(&self) -> Seq<char> {
        match self {
            ExtensionRejection::ExtensionsAlreadyExtracted => {
                "Extensions taken by other extractor"@
            },
            ExtensionRejection::MissingExtension(message) => message@,
        }
    }

    /// Renders the rejection as text.
    pub fn message(&self) -> (s: String)
        ensures
            s@ == self.text(),
    {
        match self {
            ExtensionRejection::ExtensionsAlreadyExtracted => String::from_str(
                "Extensions taken by other extractor",
            ),
            ExtensionRejection::MissingExtension(message) => message.clone(),
        }
    }
}

impl Errors {
    /// The human-readable text of this error.
    pub open spec fn text(&self) -> Seq<char> {
        match self {
            Errors::CustomError(message) => message@,
        }
    }

    /// Renders the error as text.
    pub fn message(&self) -> (s: String)
        ensures
            s@ == self.text(),
    {
        match self {
            Errors::CustomError(message) => message.clone(),
        }
    }
}

} // verus!
