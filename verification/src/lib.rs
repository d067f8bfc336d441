//! Acceleration middleware: a broker that takes capability calls from
//! clients and hands each to a backend that declared the capability.
//!
//! The crate holds the decisions of the broker and proves them: the dispatch
//! table with its load order ([`plugin`]), the session and resource
//! registries with their ids ([`server`]), the naming of run directories
//! ([`rundir`]) and the resources themselves ([`resource`], [`tensorflow`]).
//! It opens no library, touches no file and speaks over no socket: whoever
//! runs the broker does that and reports the outcome.
use vstd::prelude::*;
use libloading::Error as LibraryFault;

pub mod capability;
pub mod client;
pub mod noop;
pub mod plugin;
pub mod resource;
pub mod rundir;
pub mod server;
pub mod session;
pub mod tensorflow;

verus! {

/// The errors of the broker.
#[derive(Debug)]
pub enum Error {
    /// An invalid argument was passed by the user.
    InvalidArgument,
    /// Error while performing I/O.
    IOError(String),
    /// Error while loading a plugin.
    Plugin(String),
    /// Undefined error.
    UndefinedError,
    /// No loaded plugin supports the requested function.
    NotImplemented,
    /// A failure reported by a backend, which only it can interpret.
    Implementation { error_code: u64, msg: String },
}

/// What an `Error` says, with its texts as sequences of characters.
pub enum ErrorView {
    InvalidArgument,
    IOError(Seq<char>),
    Plugin(Seq<char>),
    UndefinedError,
    NotImplemented,
    Implementation { error_code: u64, msg: Seq<char> },
}

impl View for Error {
    type V = ErrorView;

    open spec fn view(&self) -> ErrorView {
        match *self {
            Error::InvalidArgument => ErrorView::InvalidArgument,
            Error::IOError(text) => ErrorView::IOError(text@),
            Error::Plugin(text) => ErrorView::Plugin(text@),
            Error::UndefinedError => ErrorView::UndefinedError,
            Error::NotImplemented => ErrorView::NotImplemented,
            Error::Implementation { error_code, msg } => ErrorView::Implementation {
                error_code,
                msg: msg@,
            },
        }
    }
}

impl From<crate::capability::InvocationError> for Error {
    /// The error a failed invocation is reported as: the kind is kept, the
    /// detail of an invalid argument or of an unknown error is dropped.
    fn from(err: crate::capability::InvocationError) -> (r: Error) {
        match err {
            crate::capability::InvocationError::InvalidArgument(_) => Error::InvalidArgument,
            crate::capability::InvocationError::NotImplemented => Error::NotImplemented,
            crate::capability::InvocationError::Implementation { error_code, msg } => {
                Error::Implementation { error_code, msg }
            },
            crate::capability::InvocationError::Unknown(_) => Error::UndefinedError,
        }
    }
}

impl vstd::std_specs::convert::FromSpecImpl<crate::capability::InvocationError> for Error {
    open spec fn obeys_from_spec() -> bool {
        true
    }

    open spec fn from_spec(err: crate::capability::InvocationError) -> Error {
        match err {
            crate::capability::InvocationError::InvalidArgument(_) => Error::InvalidArgument,
            crate::capability::InvocationError::NotImplemented => Error::NotImplemented,
            crate::capability::InvocationError::Implementation { error_code, msg } => {
                Error::Implementation { error_code, msg }
            },
            crate::capability::InvocationError::Unknown(_) => Error::UndefinedError,
        }
    }
}

/// `std::io::Error`, an error of an I/O operation.
#[verifier::external_type_specification]
#[verifier::external_body]
pub struct ExIoError(std::io::Error);

/// `libloading::Error`, an error of loading a library or of finding a symbol in it.
#[verifier::external_type_specification]
#[verifier::external_body]
pub struct ExLibraryFault(LibraryFault);

/// The text a `libloading::Error` displays as.
pub uninterp spec fn library_error_text(err: LibraryFault) -> Seq<char>;

/// `to_string` on a `std::io::Error`: the text it displays as. The text of
/// an error of the operating system is the system's own, so nothing is said
/// of it.
#[verifier::external_body]
fn io_error_to_string(err: &std::io::Error) -> (text: String) {
    err.to_string()
}

/// `to_string` on a `libloading::Error`: the text it displays as, which the
/// error alone determines.
#[verifier::external_body]
fn library_error_to_string(err: &LibraryFault) -> (text: String)
    ensures
        text@ == library_error_text(*err),
{
    err.to_string()
}

impl From<std::io::Error> for Error {
    /// An I/O error, with the text of `err`.
    fn from(err: std::io::Error) -> (r: Error)
        ensures
            r is IOError,
    {
        Error::IOError(io_error_to_string(&err))
    }
}

/// The text of the result is not modelled, so the conversion has no value
/// in specifications: what `from` ensures is all that is known of it.
impl vstd::std_specs::convert::FromSpecImpl<std::io::Error> for Error {
    open spec fn obeys_from_spec() -> bool {
        false
    }

    open spec fn from_spec(err: std::io::Error) -> Error {
        arbitrary()
    }
}

impl From<LibraryFault> for Error {
    /// A plugin loading error, with the text of `err`.
    fn from(err: LibraryFault) -> (r: Error)
        ensures
            r@ == ErrorView::Plugin(library_error_text(err)),
    {
        Error::Plugin(library_error_to_string(&err))
    }
}

/// The result holds a string, which no specification can build, so the
/// conversion has no value in specifications: what `from` ensures, over the
/// view of the result, is what is known of it.
impl vstd::std_specs::convert::FromSpecImpl<LibraryFault> for Error {
    open spec fn obeys_from_spec() -> bool {
        false
    }

    open spec fn from_spec(err: LibraryFault) -> Error {
        arbitrary()
    }
}

/// What a failed invocation is reported as, over what the errors say.
pub open spec fn reported(err: crate::capability::InvocationErrorView) -> ErrorView {
    match err {
        crate::capability::InvocationErrorView::InvalidArgument(_) => ErrorView::InvalidArgument,
        crate::capability::InvocationErrorView::NotImplemented => ErrorView::NotImplemented,
        crate::capability::InvocationErrorView::Implementation { error_code, msg } => {
            ErrorView::Implementation { error_code, msg }
        },
        crate::capability::InvocationErrorView::Unknown(_) => ErrorView::UndefinedError,
    }
}

} // verus!
