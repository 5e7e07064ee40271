//! Errors of the plugin system.
use vstd::prelude::*;

verus! {

#[derive(Debug, Clone, Copy, PartialEq, Eq, Structural)]
pub enum PluginServiceErrorKind {
    InvalidInput,
    InvalidManifest,
    NotFound,
    AlreadyInstalled,
    Conflict,
    PackageTooLarge,
    RuntimeRejected,
    ExecutionFailed,
    Io,
}

#[derive(Debug)]
pub struct PluginServiceError {
    kind: PluginServiceErrorKind,
    message: String,
}

impl PluginServiceError {
    pub closed spec fn spec_kind(&self) -> PluginServiceErrorKind {
        self.kind
    }

    pub closed spec fn spec_message(&self) -> Seq<char> {
        self.message@
    }

    pub fn new(kind: PluginServiceErrorKind, message: &str) -> (r: Self)
        ensures
            r.spec_kind() == kind,
            r.spec_message() == message@,
    {
        Self { kind, message: message.to_owned() }
    }

    pub fn with_message(kind: PluginServiceErrorKind, message: String) -> (r: Self)
        ensures
            r.spec_kind() == kind,
            r.spec_message() == message@,
    {
        Self { kind, message }
    }

    pub fn invalid_input(message: &str) -> (r: Self)
        ensures
            r.spec_kind() == PluginServiceErrorKind::InvalidInput,
            r.spec_message() == message@,
    {
        Self::new(PluginServiceErrorKind::InvalidInput, message)
    }

    pub fn invalid_manifest(message: &str) -> (r: Self)
        ensures
            r.spec_kind() == PluginServiceErrorKind::InvalidManifest,
            r.spec_message() == message@,
    {
        Self::new(PluginServiceErrorKind::InvalidManifest, message)
    }

    pub fn runtime_rejected(message: &str) -> (r: Self)
        ensures
            r.spec_kind() == PluginServiceErrorKind::RuntimeRejected,
            r.spec_message() == message@,
    {
        Self::new(PluginServiceErrorKind::RuntimeRejected, message)
    }

    pub fn execution_failed(message: &str) -> (r: Self)
        ensures
            r.spec_kind() == PluginServiceErrorKind::ExecutionFailed,
            r.spec_message() == message@,
    {
        Self::new(PluginServiceErrorKind::ExecutionFailed, message)
    }

    pub fn kind(&self) -> (r: PluginServiceErrorKind)
        ensures
            r == self.spec_kind(),
    {
        self.kind
    }

    /// The internal message, as `Display` would print it.
    pub fn message(&self) -> (r: &str)
        ensures
            r@ == self.spec_message(),
    {
        self.message.as_str()
    }
}

} // verus!
