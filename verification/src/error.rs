//! The ways in which an operation of the client can fail.

use vstd::prelude::*;

verus! {

/// Why an operation failed.
#[derive(Debug, PartialEq, Eq)]
pub enum Error {
    /// The credential cannot be carried in a request header.
    Configuration,
    /// No response arrived: the connection, name resolution or the timeout
    /// failed. `detail` is the transport's own description.
    Transport { detail: String },
    /// The identity lookup was answered with a status other than success.
    Authentication { status: u16 },
    /// A response arrived, but its body does not have the expected shape.
    Protocol,
    /// The service rejected a request. `repository` names the repository that
    /// the request was about, where it was about one.
    Remote { status: u16, repository: Option<String> },
}

/// The mathematical value of an [`Error`].
pub enum ErrorModel {
    Configuration,
    Transport { detail: Seq<char> },
    Authentication { status: u16 },
    Protocol,
    Remote { status: u16, repository: Option<Seq<char>> },
}

impl View for Error {
    type V = ErrorModel;

    open spec fn view(&self) -> ErrorModel {
        match self {
            Error::Configuration => ErrorModel::Configuration,
            Error::Transport { detail } => ErrorModel::Transport { detail: detail@ },
            Error::Authentication { status } => ErrorModel::Authentication { status: *status },
            Error::Protocol => ErrorModel::Protocol,
            Error::Remote { status, repository } => ErrorModel::Remote {
                status: *status,
                repository: match repository {
                    Some(name) => Some(name@),
                    None => None,
                },
            },
        }
    }
}

impl Clone for Error {
    fn clone(&self) -> (copy: Self)
        ensures
            copy == *self,
    {
        match self {
            Error::Configuration => Error::Configuration,
            Error::Transport { detail } => Error::Transport { detail: detail.clone() },
            Error::Authentication { status } => Error::Authentication { status: *status },
            Error::Protocol => Error::Protocol,
            Error::Remote { status, repository } => Error::Remote {
                status: *status,
                repository: match repository {
                    Some(name) => Some(name.clone()),
                    None => None,
                },
            },
        }
    }
}

} // verus!
