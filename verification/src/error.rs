//! What can go wrong, as a closed set of variants that carry their context.
//!
//! Each error type has a view that holds texts in place of strings; contracts
//! are stated over the views.

use crate::text::{decimal, render_i32};
use vstd::prelude::*;

verus! {

/// A keyboard identifier that was not accepted.
#[derive(Debug, Clone, PartialEq, Eq)]
pub enum ValidationError {
    /// The identifier is empty or holds whitespace only.
    Empty,
    /// The identifier holds a character other than a letter, a digit, `_` or
    /// `-`.
    IllegalCharacter { id: String },
}

/// Why a configuration document was not accepted.
#[derive(Debug, Clone, PartialEq, Eq)]
pub enum ParseFailure {
    /// The text is not a JSON document; `detail` is the parser's complaint.
    Malformed { detail: String },
    /// The document is not an object with a member `qmk_keyboard`.
    MissingField,
    /// The member `qmk_keyboard` is not a string.
    NotAString,
}

/// A configuration file that could not be used, with the path of the file.
#[derive(Debug, Clone, PartialEq, Eq)]
pub enum ConfigError {
    /// The file is missing or unreadable.
    Read { path: String, reason: String },
    /// The file was read and its content was not accepted.
    Parse { path: String, failure: ParseFailure },
}

/// A build tool that did not run to a successful end.
#[derive(Debug, Clone, PartialEq, Eq)]
pub enum SubprocessError {
    /// The tool could not be started.
    Launch { reason: String },
    /// The tool ended without success; `code` is its exit code where the
    /// system gave one.
    Failed { code: Option<i32> },
}

/// Every failure of the library.
#[derive(Debug, Clone, PartialEq, Eq)]
pub enum KeymapError {
    Validation(ValidationError),
    Config(ConfigError),
    Subprocess(SubprocessError),
}

/// The view of a `ValidationError`.
pub enum ValidationErrorView {
    Empty,
    IllegalCharacter { id: Seq<char> },
}

/// The view of a `ParseFailure`.
pub enum ParseFailureView {
    Malformed { detail: Seq<char> },
    MissingField,
    NotAString,
}

/// The view of a `ConfigError`.
pub enum ConfigErrorView {
    Read { path: Seq<char>, reason: Seq<char> },
    Parse { path: Seq<char>, failure: ParseFailureView },
}

/// The view of a `SubprocessError`.
pub enum SubprocessErrorView {
    Launch { reason: Seq<char> },
    Failed { code: Option<i32> },
}

/// The view of a `KeymapError`.
pub enum KeymapErrorView {
    Validation(ValidationErrorView),
    Config(ConfigErrorView),
    Subprocess(SubprocessErrorView),
}

impl View for ValidationError {
    type V = ValidationErrorView;

    open spec fn view(&self) -> ValidationErrorView {
        match self {
            ValidationError::Empty => ValidationErrorView::Empty,
            ValidationError::IllegalCharacter { id } => ValidationErrorView::IllegalCharacter {
                id: id@,
            },
        }
    }
}

impl View for ParseFailure {
    type V = ParseFailureView;

    open spec fn view(&self) -> ParseFailureView {
        match self {
            ParseFailure::Malformed { detail } => ParseFailureView::Malformed { detail: detail@ },
            ParseFailure::MissingField => ParseFailureView::MissingField,
            ParseFailure::NotAString => ParseFailureView::NotAString,
        }
    }
}

impl View for ConfigError {
    type V = ConfigErrorView;

    open spec fn view(&self) -> ConfigErrorView {
        match self {
            ConfigError::Read { path, reason } => ConfigErrorView::Read {
                path: path@,
                reason: reason@,
            },
            ConfigError::Parse { path, failure } => ConfigErrorView::Parse {
                path: path@,
                failure: failure@,
            },
        }
    }
}

impl View for SubprocessError {
    type V = SubprocessErrorView;

    open spec fn view(&self) -> SubprocessErrorView {
        match self {
            SubprocessError::Launch { reason } => SubprocessErrorView::Launch { reason: reason@ },
            SubprocessError::Failed { code } => SubprocessErrorView::Failed { code: *code },
        }
    }
}

impl View for KeymapError {
    type V = KeymapErrorView;

    open spec fn view(&self) -> KeymapErrorView {
        match self {
            KeymapError::Validation(e) => KeymapErrorView::Validation(e@),
            KeymapError::Config(e) => KeymapErrorView::Config(e@),
            KeymapError::Subprocess(e) => KeymapErrorView::Subprocess(e@),
        }
    }
}

/// The view of a result: that of its value, or that of its error.
pub open spec fn outcome<T: View, E: View>(r: Result<T, E>) -> Result<T::V, E::V> {
    match r {
        Ok(value) => Ok(value@),
        Err(e) => Err(e@),
    }
}

impl ValidationErrorView {
    /// The message for a human reader.
    pub open spec fn message(self) -> Seq<char> {
        match self {
            ValidationErrorView::Empty => "Keyboard ID cannot be empty"@,
            ValidationErrorView::IllegalCharacter { id } => "Invalid Keyboard ID '"@ + id
                + "': Only alphanumeric characters, underscores, and hyphens are allowed"@,
        }
    }
}

impl ParseFailureView {
    /// The message for a human reader.
    pub open spec fn message(self) -> Seq<char> {
        match self {
            ParseFailureView::Malformed { detail } => detail,
            ParseFailureView::MissingField => "missing field `qmk_keyboard`"@,
            ParseFailureView::NotAString => "field `qmk_keyboard` is not a string"@,
        }
    }
}

impl ConfigErrorView {
    /// The path of the file that the error is about.
    pub open spec fn path(self) -> Seq<char> {
        match self {
            ConfigErrorView::Read { path, .. } => path,
            ConfigErrorView::Parse { path, .. } => path,
        }
    }

    /// The message for a human reader. It holds the path of the file.
    pub open spec fn message(self) -> Seq<char> {
        match self {
            ConfigErrorView::Read { path, reason } => "Failed to read config at \""@ + path
                + "\": "@ + reason,
            ConfigErrorView::Parse { path, failure } => "Failed to parse config at \""@ + path
                + "\": "@ + failure.message(),
        }
    }
}

impl SubprocessErrorView {
    /// The message for a human reader. It holds the exit code where one is
    /// known, and says that none is where none is.
    pub open spec fn message(self) -> Seq<char> {
        match self {
            SubprocessErrorView::Launch { reason } => "Failed to execute qmk compile: "@ + reason,
            SubprocessErrorView::Failed { code: Some(code) } =>
                "qmk compile failed with exit code: Some("@ + decimal(code as int) + ")"@,
            SubprocessErrorView::Failed { code: None } => "qmk compile failed with exit code: None"@,
        }
    }
}

impl KeymapErrorView {
    /// The message for a human reader.
    pub open spec fn message(self) -> Seq<char> {
        match self {
            KeymapErrorView::Validation(e) => e.message(),
            KeymapErrorView::Config(e) => e.message(),
            KeymapErrorView::Subprocess(e) => e.message(),
        }
    }
}

impl ValidationError {
    /// A message for a human reader.
    pub fn message(&self) -> (r: String)
        ensures
            r@ == self@.message(),
    {
        match self {
            ValidationError::Empty => String::from_str("Keyboard ID cannot be empty"),
            ValidationError::IllegalCharacter { id } => {
                let mut text = String::from_str("Invalid Keyboard ID '");
                text.append(id.as_str());
                text.append(
                    "': Only alphanumeric characters, underscores, and hyphens are allowed",
                );
                text
            },
        }
    }
}

impl ParseFailure {
    /// A message for a human reader.
    pub fn message(&self) -> (r: String)
        ensures
            r@ == self@.message(),
    {
        match self {
            ParseFailure::Malformed { detail } => detail.clone(),
            ParseFailure::MissingField => String::from_str("missing field `qmk_keyboard`"),
            ParseFailure::NotAString => String::from_str("field `qmk_keyboard` is not a string"),
        }
    }
}

impl ConfigError {
    /// The path of the file that the error is about.
    pub fn path(&self) -> (r: &str)
        ensures
            r@ == self@.path(),
    {
        match self {
            ConfigError::Read { path, .. } => path.as_str(),
            ConfigError::Parse { path, .. } => path.as_str(),
        }
    }

    /// A message for a human reader.
    pub fn message(&self) -> (r: String)
        ensures
            r@ == self@.message(),
    {
        match self {
            ConfigError::Read { path, reason } => {
                let mut text = String::from_str("Failed to read config at \"");
                text.append(path.as_str());
                text.append("\": ");
                text.append(reason.as_str());
                text
            },
            ConfigError::Parse { path, failure } => {
                let mut text = String::from_str("Failed to parse config at \"");
                text.append(path.as_str());
                text.append("\": ");
                let detail = failure.message();
                text.append(detail.as_str());
                text
            },
        }
    }
}

impl SubprocessError {
    /// A message for a human reader.
    pub fn message(&self) -> (r: String)
        ensures
            r@ == self@.message(),
    {
        match self {
            SubprocessError::Launch { reason } => {
                let mut text = String::from_str("Failed to execute qmk compile: ");
                text.append(reason.as_str());
                text
            },
            SubprocessError::Failed { code: Some(code) } => {
                let mut text = String::from_str("qmk compile failed with exit code: Some(");
                let digits = render_i32(*code);
                text.append(digits.as_str());
                text.append(")");
                text
            },
            SubprocessError::Failed { code: None } => String::from_str(
                "qmk compile failed with exit code: None",
            ),
        }
    }
}

impl KeymapError {
    /// A message for a human reader.
    pub fn message(&self) -> (r: String)
        ensures
            r@ == self@.message(),
    {
        match self {
            KeymapError::Validation(e) => e.message(),
            KeymapError::Config(e) => e.message(),
            KeymapError::Subprocess(e) => e.message(),
        }
    }
}

} // verus!
