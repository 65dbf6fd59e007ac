use crate::category::Category;
use ink::primitives::AccountId;
use vstd::prelude::*;

verus! {

/// Notice that a boost raised the score of `account` in `category` to
/// `new_score`.
#[derive(Clone, Copy, Debug, PartialEq, Eq)]
pub struct RepBoosted {
    pub account: AccountId,
    pub category: Category,
    pub new_score: u32,
}

/// Notice that `account` was granted the badge of `category`.
#[derive(Clone, Copy, Debug, PartialEq, Eq)]
pub struct BadgeMinted {
    pub account: AccountId,
    pub category: Category,
}

} // verus!
