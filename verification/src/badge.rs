use crate::category::{Category, BADGE_THRESHOLD};
use vstd::prelude::*;

verus! {

/// The badges of one account, one flag per category.
#[derive(Clone, Copy, Debug, PartialEq, Eq, Structural)]
pub struct Badge {
    pub has_defi_badge: bool,
    pub has_governance_badge: bool,
    pub has_social_badge: bool,
}

impl Badge {
    /// The badges of an account that holds none.
    pub open spec fn empty() -> Badge {
        Badge { has_defi_badge: false, has_governance_badge: false, has_social_badge: false }
    }

    /// Whether the badge of `category` is held.
    pub open spec fn has(self, category: Category) -> bool {
        match category {
            Category::DeFi => self.has_defi_badge,
            Category::Governance => self.has_governance_badge,
            Category::Social => self.has_social_badge,
        }
    }

    /// These badges with the flag of `category` replaced by `held`.
    pub open spec fn updated(self, category: Category, held: bool) -> Badge {
        match category {
            Category::DeFi => Badge { has_defi_badge: held, ..self },
            Category::Governance => Badge { has_governance_badge: held, ..self },
            Category::Social => Badge { has_social_badge: held, ..self },
        }
    }

    /// These badges after the score in `category` has become `score`: the badge
    /// of that category is lost below the threshold, and nothing is ever gained.
    pub open spec fn reevaluated(self, category: Category, score: u32) -> Badge {
        if score < BADGE_THRESHOLD {
            self.updated(category, false)
        } else {
            self
        }
    }

    /// Creates badges with no flag set.
    pub fn new() -> (badge: Self)
        ensures
            badge == Self::empty(),
    {
        Self { has_defi_badge: false, has_governance_badge: false, has_social_badge: false }
    }

    /// Brings the badge of `category` in line with a new `score` in it. The badge
    /// is revoked where the score is below the threshold and left alone
    /// otherwise; this never grants one.
    pub fn update_status(&mut self, category: Category, score: u32)
        ensures
            *final(self) == old(self).reevaluated(category, score),
    {
        if score < BADGE_THRESHOLD {
            match category {
                Category::DeFi => self.has_defi_badge = false,
                Category::Governance => self.has_governance_badge = false,
                Category::Social => self.has_social_badge = false,
            }
        }
    }

    /// Sets the badge of `category`.
    pub fn grant(&mut self, category: Category)
        ensures
            *final(self) == old(self).updated(category, true),
    {
        match category {
            Category::DeFi => self.has_defi_badge = true,
            Category::Governance => self.has_governance_badge = true,
            Category::Social => self.has_social_badge = true,
        }
    }
}

impl Default for Badge {
    fn default() -> (badge: Self)
        ensures
            badge == Self::empty(),
    {
        Self::new()
    }
}

} // verus!
