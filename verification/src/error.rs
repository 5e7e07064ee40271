//! Application-level error used at layer boundaries.
use vstd::prelude::*;

verus! {

#[derive(Debug, Clone, Copy, PartialEq, Eq, Structural)]
pub enum AppErrorKind {
    Database,
    Configuration,
    Validation,
    Internal,
}

/// An error with a stable kind and an internal (never user-facing) message.
#[derive(Debug)]
pub struct AppError {
    kind: AppErrorKind,
    message: String,
}

impl AppError {
    pub closed spec fn spec_kind(&self) -> AppErrorKind {
        self.kind
    }

    pub closed spec fn spec_message(&self) -> Seq<char> {
        self.message@
    }

    /// An internal error.
    pub fn new(message: &str) -> (r: Self)
        ensures
            r.spec_kind() == AppErrorKind::Internal,
            r.spec_message() == message@,
    {
        Self::internal(message)
    }

    pub fn database(message: &str) -> (r: Self)
        ensures
            r.spec_kind() == AppErrorKind::Database,
            r.spec_message() == message@,
    {
        Self::with_kind(AppErrorKind::Database, message)
    }

    pub fn configuration(message: &str) -> (r: Self)
        ensures
            r.spec_kind() == AppErrorKind::Configuration,
            r.spec_message() == message@,
    {
        Self::with_kind(AppErrorKind::Configuration, message)
    }

    pub fn validation(message: &str) -> (r: Self)
        ensures
            r.spec_kind() == AppErrorKind::Validation,
            r.spec_message() == message@,
    {
        Self::with_kind(AppErrorKind::Validation, message)
    }

    pub fn internal(message: &str) -> (r: Self)
        ensures
            r.spec_kind() == AppErrorKind::Internal,
            r.spec_message() == message@,
    {
        Self::with_kind(AppErrorKind::Internal, message)
    }

    pub fn kind(&self) -> (r: AppErrorKind)
        ensures
            r == self.spec_kind(),
    {
        self.kind
    }

    /// The internal message, as `Display` would print it.
    pub fn message(&self) -> (r: &str)
        ensures
            r@ == self.spec_message(),
    {
        self.message.as_str()
    }

    fn with_kind(kind: AppErrorKind, message: &str) -> (r: Self)
        ensures
            r.spec_kind() == kind,
            r.spec_message() == message@,
    {
        Self { kind, message: message.to_owned() }
    }
}

impl Clone for AppError {
    fn clone(&self) -> (r: Self)
        ensures
            r == *self,
    {
        Self { kind: self.kind, message: self.message.clone() }
    }
}

} // verus!
