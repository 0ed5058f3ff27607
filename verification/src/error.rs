//! The error taxonomy of the library.

use vstd::prelude::*;

use crate::response::Response;
use crate::response::SpecResponse;

verus! {

/// Why a command or the IDLE handle failed.
#[derive(Clone, PartialEq, Eq, Debug)]
pub enum Error {
    /// The response stream ended while a reply was still owed.
    Io,
    /// IDLE initialisation reached the end of the stream before a
    /// continuation request arrived.
    ConnectionRefused,
    /// The terminating reply carried status `NO`, with its information text.
    No(Option<String>),
    /// The terminating reply carried status `BAD`, with its information text.
    Bad(Option<String>),
    /// A response matched neither the expected command shape nor a
    /// unilateral event; it is carried here.
    Protocol(Response),
}

/// Spec mirror of [`Error`].
pub enum SpecError {
    Io,
    ConnectionRefused,
    No(Option<Seq<char>>),
    Bad(Option<Seq<char>>),
    Protocol(SpecResponse),
}

impl View for Error {
    type V = SpecError;

    open spec fn view(&self) -> SpecError {
        match self {
            Error::Io => SpecError::Io,
            Error::ConnectionRefused => SpecError::ConnectionRefused,
            Error::No(info) => SpecError::No(info.deep_view()),
            Error::Bad(info) => SpecError::Bad(info.deep_view()),
            Error::Protocol(r) => SpecError::Protocol(r@),
        }
    }
}

impl DeepView for Error {
    type V = SpecError;

    open spec fn deep_view(&self) -> SpecError {
        self.view()
    }
}

} // verus!
