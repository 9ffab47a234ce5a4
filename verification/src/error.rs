use vstd::prelude::*;

verus! {

/// The only failures the state machine surfaces. Both are terminal for the
/// attempted operation and leave the stored record untouched.
#[derive(Clone, Copy, Debug, PartialEq, Eq, Structural)]
pub enum ContractError {
    /// The caller fails the operation's authorization predicate: not a
    /// member for a relay, or not "member of a still-mutable record" for a
    /// freeze or an admin-set update.
    Unauthorized,
    /// A submitted address was rejected by the external address validator
    /// during initialization or an admin-set update.
    InvalidAddress,
}

} // verus!
