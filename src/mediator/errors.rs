//! What can go wrong when a request is dispatched.

use vstd::prelude::*;
use vstd::string::*;

verus! {

/// A dispatch failure. Each variant carries the key of the request type
/// concerned.
#[derive(Clone, Debug, PartialEq, Eq)]
pub enum MediatorError {
    /// No handler is registered for the request type.
    HandlerNotFound(String),
    /// The stored handler could not read the request back; unreachable while
    /// every type has a key of its own.
    RequestTypeMismatch(String),
    /// The handler's result is not of the type the caller asked for.
    ResultTypeMismatch(String),
}

/// The model of a [`MediatorError`].
pub enum ErrorModel {
    HandlerNotFound(Seq<char>),
    RequestTypeMismatch(Seq<char>),
    ResultTypeMismatch(Seq<char>),
}

impl View for MediatorError {
    type V = ErrorModel;

    open spec fn view(&self) -> ErrorModel {
        match self {
            MediatorError::HandlerNotFound(k) => ErrorModel::HandlerNotFound(k@),
            MediatorError::RequestTypeMismatch(k) => ErrorModel::RequestTypeMismatch(k@),
            MediatorError::ResultTypeMismatch(k) => ErrorModel::ResultTypeMismatch(k@),
        }
    }
}

impl ErrorModel {
    /// The text that describes the failure.
    pub open spec fn message(self) -> Seq<char> {
        match self {
            ErrorModel::HandlerNotFound(k) => "No handler registered for type "@ + k,
            ErrorModel::RequestTypeMismatch(k) => "Request type mismatch for "@ + k,
            ErrorModel::ResultTypeMismatch(k) => "Query result type mismatch for "@ + k,
        }
    }
}

impl MediatorError {
    /// The text that describes the failure.
    pub fn message(&self) -> (r: String)
        ensures
            r@ == self@.message(),
    {
        let (lead, key) = match self {
            MediatorError::HandlerNotFound(k) => ("No handler registered for type ", k),
            MediatorError::RequestTypeMismatch(k) => ("Request type mismatch for ", k),
            MediatorError::ResultTypeMismatch(k) => ("Query result type mismatch for ", k),
        };
        let mut text = lead.to_owned();
        text.append(key.as_str());
        text
    }

    /// The key of the request type the failure concerns.
    pub fn type_key(&self) -> (r: &String)
        ensures
            r@ == match self@ {
                ErrorModel::HandlerNotFound(k) => k,
                ErrorModel::RequestTypeMismatch(k) => k,
                ErrorModel::ResultTypeMismatch(k) => k,
            },
    {
        match self {
            MediatorError::HandlerNotFound(k) => k,
            MediatorError::RequestTypeMismatch(k) => k,
            MediatorError::ResultTypeMismatch(k) => k,
        }
    }
}

/// `r` failed with an error whose model is `e`.
pub open spec fn fails_with<T>(r: Result<T, MediatorError>, e: ErrorModel) -> bool {
    r matches Err(err) && err@ == e
}

} // verus!
