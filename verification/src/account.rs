use crate::badge::Badge;
use crate::category::{Category, BADGE_THRESHOLD};
use crate::scores::RepScores;
use vstd::prelude::*;

verus! {

/// What is kept for one account: its scores and its badges.
///
/// The rules of the system are the four changes below. Each is a function of
/// the record alone, so whoever keeps the records (a [`crate::Pond`], or a
/// host with storage of its own) applies the same rules.
#[derive(Clone, Copy, Debug, PartialEq, Eq, Structural)]
pub struct Account {
    pub scores: RepScores,
    pub badge: Badge,
}

impl Account {
    /// The record of an account that was never touched.
    pub open spec fn fresh() -> Account {
        Account { scores: RepScores::zero(), badge: Badge::empty() }
    }

    /// Whether the score in `category` has reached the threshold.
    pub open spec fn ready(self, category: Category) -> bool {
        self.scores.get(category) >= BADGE_THRESHOLD
    }

    /// The badge of `category`, if held, is carried by the score.
    pub open spec fn earned(self, category: Category) -> bool {
        self.badge.has(category) ==> self.ready(category)
    }

    /// No badge is held in a category whose score is below the threshold.
    pub open spec fn consistent(self) -> bool {
        &&& self.earned(Category::DeFi)
        &&& self.earned(Category::Governance)
        &&& self.earned(Category::Social)
    }

    /// The record after a boost of `amount` in `category`: the score rises, and
    /// the badge of that category is reevaluated against the new score.
    pub open spec fn boosted(self, category: Category, amount: u32) -> Account {
        let scores = self.scores.boosted(category, amount);
        Account { scores, badge: self.badge.reevaluated(category, scores.get(category)) }
    }

    /// The record after the boosts of a batch, applied in the order of the list.
    pub open spec fn multi_boosted(self, boosts: Seq<(Category, u32)>) -> Account
        decreases boosts.len(),
    {
        if boosts.len() == 0 {
            self
        } else {
            self.multi_boosted(boosts.drop_last()).boosted(boosts.last().0, boosts.last().1)
        }
    }

    /// The scores that the boosts of a batch arrive at, one per boost: each is the
    /// score in the boosted category once that boost and those before it are in.
    pub open spec fn running_scores(self, boosts: Seq<(Category, u32)>) -> Seq<u32> {
        Seq::new(
            boosts.len(),
            |i: int| self.multi_boosted(boosts.take(i + 1)).scores.get(boosts[i].0),
        )
    }

    /// The record after a decay of `amount`: every score falls, and every badge
    /// is reevaluated against the new score of its category.
    pub open spec fn decayed(self, amount: u32) -> Account {
        let scores = self.scores.decayed(amount);
        Account {
            scores,
            badge: self.badge.reevaluated(Category::DeFi, scores.defi).reevaluated(
                Category::Governance,
                scores.governance,
            ).reevaluated(Category::Social, scores.social),
        }
    }

    /// The record after a request for the badge of `category`: granted where the
    /// account is ready for it, and without effect otherwise.
    pub open spec fn minted(self, category: Category) -> Account {
        if self.ready(category) {
            Account { badge: self.badge.updated(category, true), ..self }
        } else {
            self
        }
    }

    /// Creates the record of an account that was never touched.
    pub fn new() -> (account: Self)
        ensures
            account == Self::fresh(),
    {
        Self { scores: RepScores::new(), badge: Badge::new() }
    }

    /// Tells whether the account qualifies for the badge of `category`.
    pub fn is_ready(&self, category: Category) -> (ready: bool)
        ensures
            ready == self.ready(category),
    {
        self.scores.score(category) >= BADGE_THRESHOLD
    }

    /// Boosts the score in `category` by `amount`, re-evaluates the badge of that
    /// category, and returns the new score.
    pub fn boost(&mut self, category: Category, amount: u32) -> (new_score: u32)
        ensures
            *final(self) == old(self).boosted(category, amount),
            new_score == final(self).scores.get(category),
    {
        let new_score = self.scores.boost(category, amount);
        self.badge.update_status(category, new_score);
        new_score
    }

    /// Applies a batch of boosts in the order of the list. Returns the new score
    /// of each boost, in that order: a boost of a category that occurred before
    /// in the list builds on the score that the earlier one left.
    pub fn multi_boost(&mut self, boosts: &Vec<(Category, u32)>) -> (new_scores: Vec<u32>)
        ensures
            *final(self) == old(self).multi_boosted(boosts@),
            new_scores@ == old(self).running_scores(boosts@),
    {
        let mut new_scores: Vec<u32> = Vec::new();
        let mut i: usize = 0;
        while i < boosts.len()
            invariant
                i <= boosts.len(),
                *self == old(self).multi_boosted(boosts@.take(i as int)),
                new_scores@ == old(self).running_scores(boosts@.take(i as int)),
            decreases boosts.len() - i,
        {
            let boost = boosts[i];
            let new_score = self.boost(boost.0, boost.1);
            new_scores.push(new_score);
            proof {
                let done = boosts@.take(i + 1);
                assert(done.drop_last() == boosts@.take(i as int));
                assert forall|k: int| 0 <= k < done.len() implies #[trigger] new_scores@[k]
                    == old(self).running_scores(done)[k] by {
                    assert(done.take(k + 1) == boosts@.take(k + 1));
                    assert(k < i ==> boosts@.take(i as int).take(k + 1) == boosts@.take(k + 1));
                }
            }
            i += 1;
        }
        proof {
            assert(boosts@.take(i as int) == boosts@);
        }
        new_scores
    }

    /// Takes `amount` off every score and re-evaluates every badge.
    pub fn decay(&mut self, amount: u32)
        ensures
            *final(self) == old(self).decayed(amount),
    {
        self.scores.decay(amount);
        self.badge.update_status(Category::DeFi, self.scores.defi);
        self.badge.update_status(Category::Governance, self.scores.governance);
        self.badge.update_status(Category::Social, self.scores.social);
    }

    /// Grants the badge of `category` if the account is ready for it, and tells
    /// whether it did. An account that holds the badge already and is still
    /// ready is told so again, with nothing changed.
    pub fn mint(&mut self, category: Category) -> (minted: bool)
        ensures
            minted == old(self).ready(category),
            *final(self) == old(self).minted(category),
    {
        if self.is_ready(category) {
            self.badge.grant(category);
            true
        } else {
            false
        }
    }
}

impl Default for Account {
    fn default() -> (account: Self)
        ensures
            account == Self::fresh(),
    {
        Self::new()
    }
}

} // verus!
