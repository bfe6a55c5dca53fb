//! The error taxonomy shared by every command handler.
use vstd::prelude::*;

verus! {

/// Kind of failure a command handler reports to its caller.
#[derive(Debug, Clone, Copy, PartialEq, Eq, Structural)]
pub enum ErrorKind {
    /// The input has the wrong shape or lies outside its allowed range.
    Validation,
    /// A textual input could not be parsed.
    Parse,
    /// The operation is not allowed in the current lifecycle phase.
    State,
    /// Memory or threads could not be obtained.
    Resource,
    /// A conflicting long-running operation is already in progress.
    Busy,
}

/// HTTP status code that the network endpoint reports for each kind.
pub open spec fn status_code_of(kind: ErrorKind) -> u16 {
    match kind {
        ErrorKind::Parse => 400,
        ErrorKind::State => 409,
        ErrorKind::Validation => 422,
        ErrorKind::Busy => 503,
        ErrorKind::Resource => 507,
    }
}

impl ErrorKind {
    /// HTTP status code for this kind; distinct kinds get distinct codes,
    /// all of them in the client- or server-error range.
    pub fn status_code(&self) -> (r: u16)
        ensures
            r == status_code_of(*self),
            400 <= r < 600,
    {
        match self {
            ErrorKind::Parse => 400,
            ErrorKind::State => 409,
            ErrorKind::Validation => 422,
            ErrorKind::Busy => 503,
            ErrorKind::Resource => 507,
        }
    }

    /// Short lower-case name of the kind, as shown to the user.
    pub fn name(&self) -> (r: &'static str)
        ensures
            r@ == name_of(*self),
    {
        match self {
            ErrorKind::Validation => "validation",
            ErrorKind::Parse => "parse",
            ErrorKind::State => "state",
            ErrorKind::Resource => "resource",
            ErrorKind::Busy => "busy",
        }
    }
}

/// Name of each kind as a character sequence.
pub open spec fn name_of(kind: ErrorKind) -> Seq<char> {
    match kind {
        ErrorKind::Validation => "validation"@,
        ErrorKind::Parse => "parse"@,
        ErrorKind::State => "state"@,
        ErrorKind::Resource => "resource"@,
        ErrorKind::Busy => "busy"@,
    }
}

/// Distinct error kinds map to distinct status codes, so a network caller
/// can tell every kind apart by the code alone.
pub proof fn lemma_status_codes_distinct(a: ErrorKind, b: ErrorKind)
    requires
        a != b,
    ensures
        status_code_of(a) != status_code_of(b),
{
}

} // verus!
