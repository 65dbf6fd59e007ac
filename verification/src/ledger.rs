use crate::account::Account;
use crate::category::Category;
use crate::event::RepBoosted;
use ink::primitives::AccountId;
use vstd::prelude::*;

verus! {

/// The mathematical model of a pond: the record of every account that was ever
/// written. An account without a record reads as [`Account::fresh`].
#[verifier::ext_equal]
pub struct Ledger {
    pub accounts: Map<AccountId, Account>,
}

/// A request that changes a ledger.
pub enum Change {
    Boost { user: AccountId, category: Category, amount: u32 },
    MultiBoost { user: AccountId, boosts: Seq<(Category, u32)> },
    Decay { user: AccountId, amount: u32 },
    Mint { user: AccountId, category: Category },
}

impl Change {
    /// The account that the request names.
    pub open spec fn user(self) -> AccountId {
        match self {
            Change::Boost { user, .. } => user,
            Change::MultiBoost { user, .. } => user,
            Change::Decay { user, .. } => user,
            Change::Mint { user, .. } => user,
        }
    }
}

impl Ledger {
    /// The ledger in which nothing was written yet.
    pub open spec fn empty() -> Ledger {
        Ledger { accounts: Map::empty() }
    }

    /// The record of `user`, written or not.
    pub open spec fn account(self, user: AccountId) -> Account {
        if self.accounts.contains_key(user) {
            self.accounts[user]
        } else {
            Account::fresh()
        }
    }

    /// This ledger with the record of `user` replaced by `account`.
    pub open spec fn put(self, user: AccountId, account: Account) -> Ledger {
        Ledger { accounts: self.accounts.insert(user, account) }
    }

    /// The ledger after a boost of `amount` for `user` in `category`.
    pub open spec fn boost(self, user: AccountId, category: Category, amount: u32) -> Ledger {
        self.put(user, self.account(user).boosted(category, amount))
    }

    /// The ledger after a batch of boosts for `user`.
    pub open spec fn multi_boost(self, user: AccountId, boosts: Seq<(Category, u32)>) -> Ledger {
        self.put(user, self.account(user).multi_boosted(boosts))
    }

    /// The notices that a batch of boosts for `user` gives rise to: one per
    /// boost, in the order of the list, each with the score that the category
    /// has once that boost is in.
    pub open spec fn boost_events(self, user: AccountId, boosts: Seq<(Category, u32)>) -> Seq<
        RepBoosted,
    > {
        Seq::new(
            boosts.len(),
            |i: int|
                RepBoosted {
                    account: user,
                    category: boosts[i].0,
                    new_score: self.account(user).running_scores(boosts)[i],
                },
        )
    }

    /// The ledger after a decay of `amount` for `user`.
    pub open spec fn decay(self, user: AccountId, amount: u32) -> Ledger {
        self.put(user, self.account(user).decayed(amount))
    }

    /// The ledger after `user` asked for the badge of `category`. A request that
    /// is turned down writes nothing.
    pub open spec fn mint(self, user: AccountId, category: Category) -> Ledger {
        if self.account(user).ready(category) {
            self.put(user, self.account(user).minted(category))
        } else {
            self
        }
    }

    /// No account holds a badge in a category in which its score is below the
    /// threshold.
    pub open spec fn consistent(self) -> bool {
        forall|user: AccountId| #[trigger] self.account(user).consistent()
    }

    /// The ledger after one request.
    pub open spec fn apply(self, change: Change) -> Ledger {
        match change {
            Change::Boost { user, category, amount } => self.boost(user, category, amount),
            Change::MultiBoost { user, boosts } => self.multi_boost(user, boosts),
            Change::Decay { user, amount } => self.decay(user, amount),
            Change::Mint { user, category } => self.mint(user, category),
        }
    }

    /// The ledger after a run of requests, served in order.
    pub open spec fn run(self, changes: Seq<Change>) -> Ledger
        decreases changes.len(),
    {
        if changes.len() == 0 {
            self
        } else {
            self.run(changes.drop_last()).apply(changes.last())
        }
    }
}

} // verus!
