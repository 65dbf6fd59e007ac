use vstd::prelude::*;

verus! {

/// A domain in which reputation is earned. The set is closed.
#[derive(Clone, Copy, Debug, PartialEq, Eq, Hash, Structural)]
pub enum Category {
    DeFi,
    Governance,
    Social,
}

/// The score from which an account qualifies for a badge, in every category.
pub const BADGE_THRESHOLD: u32 = 100;

} // verus!
