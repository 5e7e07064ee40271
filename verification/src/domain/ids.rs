//! Identifiers shared across modules.
use vstd::prelude::*;

verus! {

#[derive(Debug, Clone, PartialEq, Eq, Hash)]
pub struct UserId(pub String);

#[derive(Debug, Clone, PartialEq, Eq, Hash)]
pub struct ProjectId(pub String);

#[derive(Debug, Clone, PartialEq, Eq, Hash)]
pub struct DocumentId(pub String);

} // verus!
