//! Error taxonomy of the aggregation engine.

use vstd::prelude::*;

verus! {

/// Spec-level value of an [`Error`]: the same variants over character
/// sequences instead of heap strings.
pub ghost enum ErrorV {
    Generic(Seq<char>),
    CredentialNotFound(Seq<char>),
    CredentialMalformed(Seq<char>),
    ScanFailed(Seq<char>),
    ClusterUnreachable(Seq<char>),
}

/// Everything that can go wrong while aggregating routes.
///
/// `Generic` wraps upstream API failures uniformly; the other variants name
/// the failing step: a missing credential secret, a credential secret whose
/// contents cannot be used, a failed route-object listing, and a remote
/// cluster for which no client could be constructed.
#[derive(Debug)]
pub enum Error {
    Generic(String),
    CredentialNotFound(String),
    CredentialMalformed(String),
    ScanFailed(String),
    ClusterUnreachable(String),
}

impl DeepView for Error {
    type V = ErrorV;

    open spec fn deep_view(&self) -> ErrorV {
        match self {
            Error::Generic(s) => ErrorV::Generic(s@),
            Error::CredentialNotFound(s) => ErrorV::CredentialNotFound(s@),
            Error::CredentialMalformed(s) => ErrorV::CredentialMalformed(s@),
            Error::ScanFailed(s) => ErrorV::ScanFailed(s@),
            Error::ClusterUnreachable(s) => ErrorV::ClusterUnreachable(s@),
        }
    }
}

impl Error {
    /// A structurally equal copy of the error.
    pub fn dup(&self) -> (r: Error)
        ensures
            r.deep_view() == self.deep_view(),
    {
        match self {
            Error::Generic(s) => Error::Generic(s.clone()),
            Error::CredentialNotFound(s) => Error::CredentialNotFound(s.clone()),
            Error::CredentialMalformed(s) => Error::CredentialMalformed(s.clone()),
            Error::ScanFailed(s) => Error::ScanFailed(s.clone()),
            Error::ClusterUnreachable(s) => Error::ClusterUnreachable(s.clone()),
        }
    }

    /// The message the error carries.
    pub fn message(&self) -> (r: &String)
        ensures
            self.deep_view() matches ErrorV::Generic(m) ==> r@ == m,
            self.deep_view() matches ErrorV::CredentialNotFound(m) ==> r@ == m,
            self.deep_view() matches ErrorV::CredentialMalformed(m) ==> r@ == m,
            self.deep_view() matches ErrorV::ScanFailed(m) ==> r@ == m,
            self.deep_view() matches ErrorV::ClusterUnreachable(m) ==> r@ == m,
    {
        match self {
            Error::Generic(s) => s,
            Error::CredentialNotFound(s) => s,
            Error::CredentialMalformed(s) => s,
            Error::ScanFailed(s) => s,
            Error::ClusterUnreachable(s) => s,
        }
    }
}

} // verus!
