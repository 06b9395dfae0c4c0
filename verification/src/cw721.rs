use vstd::prelude::*;

verus! {

/// The migration message the child non-fungible-token contract declares;
/// migration of the child is reserved and does nothing.
pub enum MigrateMsg {
    /// The only shape a migration request can take; it carries nothing.
    Reserved,
}

} // verus!
