//! The ways in which a run can fail.

use vstd::prelude::*;

verus! {

/// How a filesystem failure is classified: a missing file is told apart from
/// every other failure, because it alone starts the first-time setup.
#[derive(Debug, PartialEq, Eq, Structural)]
pub enum IoKind {
    NotFound,
    Other,
}

/// What ends a run, one variant for each source of failure. The text that a
/// variant carries is the detail that its source reported.
#[derive(Debug, PartialEq, Eq)]
pub enum Error {
    /// The HTTP exchange failed.
    Surf(String),
    /// A response or the settings file could not be decoded.
    Serde(String),
    /// The login response carried no token header.
    TokenMissing,
    /// The OpenPGP engine failed: key lookup, encryption or signing.
    Gpg(String),
    /// The filesystem or the terminal failed.
    Io { kind: IoKind, detail: String },
    /// The key's fingerprint is not valid UTF-8.
    KeyUtf8(String),
    /// The credential store failed.
    Keyring(String),
    /// The password and its repetition differ.
    PasswordMismatch,
}

/// An [`Error`] with its texts as sequences of characters.
pub enum ErrorView {
    Surf(Seq<char>),
    Serde(Seq<char>),
    TokenMissing,
    Gpg(Seq<char>),
    Io { kind: IoKind, detail: Seq<char> },
    KeyUtf8(Seq<char>),
    Keyring(Seq<char>),
    PasswordMismatch,
}

impl View for Error {
    type V = ErrorView;

    open spec fn view(&self) -> ErrorView {
        match *self {
            Error::Surf(d) => ErrorView::Surf(d@),
            Error::Serde(d) => ErrorView::Serde(d@),
            Error::TokenMissing => ErrorView::TokenMissing,
            Error::Gpg(d) => ErrorView::Gpg(d@),
            Error::Io { kind, detail } => ErrorView::Io { kind, detail: detail@ },
            Error::KeyUtf8(d) => ErrorView::KeyUtf8(d@),
            Error::Keyring(d) => ErrorView::Keyring(d@),
            Error::PasswordMismatch => ErrorView::PasswordMismatch,
        }
    }
}

impl ErrorView {
    /// The error is a filesystem failure classified as a missing file.
    pub open spec fn is_not_found(self) -> bool {
        self matches ErrorView::Io { kind, .. } && kind == IoKind::NotFound
    }

    /// The line shown to the user.
    pub open spec fn message(self) -> Seq<char> {
        match self {
            ErrorView::Surf(d) => "HTTP request error "@ + d,
            ErrorView::Serde(d) => "Deserialization error "@ + d,
            ErrorView::TokenMissing => "Token was not returned as expected from server"@,
            ErrorView::Gpg(d) => "Gpg error "@ + d,
            ErrorView::Io { detail, .. } => "IO error "@ + detail,
            ErrorView::KeyUtf8(d) => "Key UTF8 decoding error "@ + d,
            ErrorView::Keyring(d) => "Keyring error "@ + d,
            ErrorView::PasswordMismatch => "Error: the passwords don't match."@,
        }
    }
}

/// `label` followed by `detail`.
fn labelled(label: &str, detail: &String) -> (r: String)
    ensures
        r@ == label@ + detail@,
{
    let mut text = String::from_str(label);
    text.append(detail.as_str());
    text
}

impl Error {
    /// Whether the error says that a file is missing.
    pub fn is_not_found(&self) -> (r: bool)
        ensures
            r == self@.is_not_found(),
    {
        match self {
            Error::Io { kind: IoKind::NotFound, .. } => true,
            _ => false,
        }
    }

    /// The line shown to the user.
    pub fn message(&self) -> (r: String)
        ensures
            r@ == self@.message(),
    {
        match self {
            Error::Surf(d) => labelled("HTTP request error ", d),
            Error::Serde(d) => labelled("Deserialization error ", d),
            Error::TokenMissing => String::from_str(
                "Token was not returned as expected from server",
            ),
            Error::Gpg(d) => labelled("Gpg error ", d),
            Error::Io { detail, .. } => labelled("IO error ", detail),
            Error::KeyUtf8(d) => labelled("Key UTF8 decoding error ", d),
            Error::Keyring(d) => labelled("Keyring error ", d),
            Error::PasswordMismatch => String::from_str("Error: the passwords don't match."),
        }
    }
}

} // verus!
