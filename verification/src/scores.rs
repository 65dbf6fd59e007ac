use crate::category::Category;
use vstd::prelude::*;

verus! {

/// A total as a score: itself where a `u32` holds it, `u32::MAX` above that.
pub open spec fn capped(total: int) -> u32 {
    if total > u32::MAX {
        u32::MAX
    } else {
        total as u32
    }
}

/// A difference as a score: itself where it is not negative, zero below that.
pub open spec fn floored(difference: int) -> u32 {
    if difference < 0 {
        0
    } else {
        difference as u32
    }
}

/// The scores of one account, one per category.
#[derive(Clone, Copy, Debug, PartialEq, Eq, Structural)]
pub struct RepScores {
    pub defi: u32,
    pub governance: u32,
    pub social: u32,
}

impl RepScores {
    /// The scores of an account that has earned nothing yet.
    pub open spec fn zero() -> RepScores {
        RepScores { defi: 0, governance: 0, social: 0 }
    }

    /// The score in one category.
    pub open spec fn get(self, category: Category) -> u32 {
        match category {
            Category::DeFi => self.defi,
            Category::Governance => self.governance,
            Category::Social => self.social,
        }
    }

    /// These scores with the one in `category` replaced by `score`.
    pub open spec fn updated(self, category: Category, score: u32) -> RepScores {
        match category {
            Category::DeFi => RepScores { defi: score, ..self },
            Category::Governance => RepScores { governance: score, ..self },
            Category::Social => RepScores { social: score, ..self },
        }
    }

    /// These scores after a boost of `amount` in `category`.
    pub open spec fn boosted(self, category: Category, amount: u32) -> RepScores {
        self.updated(category, capped(self.get(category) + amount))
    }

    /// These scores after a decay of `amount` in every category.
    pub open spec fn decayed(self, amount: u32) -> RepScores {
        RepScores {
            defi: floored(self.defi - amount),
            governance: floored(self.governance - amount),
            social: floored(self.social - amount),
        }
    }

    /// Creates scores that are zero in every category.
    pub fn new() -> (scores: Self)
        ensures
            scores == Self::zero(),
    {
        Self { defi: 0, governance: 0, social: 0 }
    }

    /// Sets the score in `category`, leaving the other two as they are.
    pub fn set_score(&mut self, category: Category, score: u32)
        ensures
            *final(self) == old(self).updated(category, score),
    {
        match category {
            Category::DeFi => self.defi = score,
            Category::Governance => self.governance = score,
            Category::Social => self.social = score,
        }
    }

    /// Reads the score in `category`.
    pub fn score(&self, category: Category) -> (score: u32)
        ensures
            score == self.get(category),
    {
        match category {
            Category::DeFi => self.defi,
            Category::Governance => self.governance,
            Category::Social => self.social,
        }
    }

    /// Adds `amount` to the score in `category`, saturating at `u32::MAX`, and
    /// returns the new score.
    pub fn boost(&mut self, category: Category, amount: u32) -> (new_score: u32)
        ensures
            *final(self) == old(self).boosted(category, amount),
            new_score == capped(old(self).get(category) + amount),
    {
        let new_score = self.score(category).saturating_add(amount);
        self.set_score(category, new_score);
        new_score
    }

    /// Takes `amount` off the score in every category, saturating at zero.
    pub fn decay(&mut self, amount: u32)
        ensures
            *final(self) == old(self).decayed(amount),
    {
        self.defi = self.defi.saturating_sub(amount);
        self.governance = self.governance.saturating_sub(amount);
        self.social = self.social.saturating_sub(amount);
    }
}

impl Default for RepScores {
    fn default() -> (scores: Self)
        ensures
            scores == Self::zero(),
    {
        Self::new()
    }
}

} // verus!
