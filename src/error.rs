use vstd::prelude::*;

verus! {

/// The failures that storage operations surface to their caller.
#[derive(Clone, Copy, Debug, PartialEq, Eq, Structural)]
pub enum HostError {
    /// An enforced access named a key that the footprint does not declare.
    AccessToUnknownEntry,
    /// An enforced write named a key that the footprint declares read-only.
    ReadwriteAccessToReadonlyEntry,
    /// A read named a key that was never loaded.
    MissingKeyInGet,
    /// A read named a key that is recorded as deleted.
    GetOnDeletedKey,
    /// The cost budget could not pay for an operation.
    BudgetExceeded,
    /// A failure raised by a collaborator (a snapshot source), with its code.
    Other(u32),
}

} // verus!
