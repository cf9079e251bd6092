use vstd::prelude::*;

verus! {

/// The kinds of failure that the library reports.
#[derive(Debug, PartialEq, Eq)]
pub enum BootError {
    /// A required configuration value (the artifacts directory) is absent.
    Config(String),
    /// The identifier has no entry in the local state.
    NotFound(String),
    /// The checksum could not be determined (no matching manifest line).
    Checksum(String),
    /// A backend response lacks an expected attribute, or holds a bad one.
    Backend(String),
    /// The code reference lacks the form that the backend requires.
    Capability(String),
}

impl BootError {
    /// A not-found error that names `id`.
    pub open spec fn is_not_found(self, id: Seq<char>) -> bool {
        self is NotFound && self->NotFound_0@ == id
    }
}

} // verus!
