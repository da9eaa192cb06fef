use vstd::prelude::*;

verus! {

/// What a performed collaborator call reported back.
#[derive(Clone, Copy, Debug, PartialEq, Eq, Structural)]
pub enum Outcome {
    /// The call failed: the operation stops here.
    Failed,
    /// The call succeeded and returned nothing the decisions read.
    Succeeded,
    /// A capability query succeeded with this answer.
    Supported(bool),
    /// A listing succeeded and returned this many entries.
    Listed(usize),
}

/// A capability counts as present only when a query reported it so.
pub open spec fn supported(o: Outcome) -> bool {
    o == Outcome::Supported(true)
}

/// The length of a listing; any other success counts as an empty list.
pub open spec fn listed(o: Outcome) -> nat {
    match o {
        Outcome::Listed(n) => n as nat,
        _ => 0,
    }
}

/// What an operation asks of its driver next.
#[derive(Clone, Copy, Debug, PartialEq, Eq, Structural)]
pub enum Next<C> {
    /// Perform this call and report its outcome.
    Perform(C),
    /// The operation completed successfully.
    Finished,
    /// The operation failed at this stage; nothing more is performed.
    Aborted(crate::error::ResourceError),
}

pub fn is_supported(o: Outcome) -> (r: bool)
    ensures
        r == supported(o),
{
    match o {
        Outcome::Supported(b) => b,
        _ => false,
    }
}

pub fn listed_len(o: Outcome) -> (r: usize)
    ensures
        r as nat == listed(o),
{
    match o {
        Outcome::Listed(n) => n,
        _ => 0,
    }
}

} // verus!
