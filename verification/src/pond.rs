use crate::account::Account;
use crate::badge::Badge;
use crate::category::Category;
use crate::event::{BadgeMinted, RepBoosted};
use crate::identity::same_account;
use crate::laws::{lemma_batch_keeps_consistent, lemma_boost_keeps_consistent};
use crate::ledger::Ledger;
use crate::scores::RepScores;
use ink::primitives::AccountId;
use vstd::prelude::*;

verus! {

/// The record of one account, as a pond keeps it.
struct Entry {
    user: AccountId,
    account: Account,
}

/// Whether `entries` keeps the record of `user` at index `i`.
spec fn kept_at(entries: Seq<Entry>, user: AccountId, i: int) -> bool {
    0 <= i < entries.len() && entries[i].user == user
}

/// No account has two records.
spec fn distinct(entries: Seq<Entry>) -> bool {
    forall|i: int, j: int|
        0 <= i < j < entries.len() ==> #[trigger] entries[i].user != #[trigger] entries[j].user
}

/// What `entries` holds, as a ledger.
spec fn ledger_of(entries: Seq<Entry>) -> Ledger {
    Ledger {
        accounts: Map::new(
            |user: AccountId| exists|i: int| kept_at(entries, user, i),
            |user: AccountId| entries[choose|i: int| kept_at(entries, user, i)].account,
        ),
    }
}

/// Among distinct records, the one found for an account is the one that the
/// ledger shows.
proof fn lemma_kept(entries: Seq<Entry>, user: AccountId, i: int)
    requires
        distinct(entries),
        kept_at(entries, user, i),
    ensures
        ledger_of(entries).accounts.contains_key(user),
        ledger_of(entries).accounts[user] == entries[i].account,
{
    // by `distinct`, the index that the ledger's map chooses is `i`
    assert(kept_at(entries, user, choose|k: int| kept_at(entries, user, k)));
}

/// A record written over the one found for its account, or behind all the
/// others where the account had none, is the one change to the ledger, and the
/// records stay distinct.
proof fn lemma_written(
    before: Seq<Entry>,
    after: Seq<Entry>,
    user: AccountId,
    account: Account,
    i: int,
)
    requires
        distinct(before),
        0 <= i <= before.len(),
        i < before.len() ==> before[i].user == user && after == before.update(
            i,
            Entry { user, account },
        ),
        i == before.len() ==> (forall|k: int| !kept_at(before, user, k)) && after == before.push(
            Entry { user, account },
        ),
    ensures
        distinct(after),
        ledger_of(after) == ledger_of(before).put(user, account),
{
    assert(kept_at(after, user, i));
    assert forall|k: int| 0 <= k < after.len() && k != i implies k < before.len() && after[k]
        == before[k] by {}
    assert forall|a: int, b: int| 0 <= a < b < after.len() implies after[a].user
        != after[b].user by {
        if a == i || b == i {
            let k = if a == i { b } else { a };
            assert(!kept_at(before, user, k) || before[k].user != before[i].user);
        }
    }
    assert forall|other: AccountId|
        ledger_of(after).accounts.contains_key(other) == ledger_of(before).put(
            user,
            account,
        ).accounts.contains_key(other) by {
        if other != user {
            if ledger_of(after).accounts.contains_key(other) {
                let k = choose|k: int| kept_at(after, other, k);
                assert(kept_at(before, other, k));
            }
            if ledger_of(before).accounts.contains_key(other) {
                let k = choose|k: int| kept_at(before, other, k);
                assert(kept_at(after, other, k));
            }
        }
    }
    assert forall|other: AccountId|
        ledger_of(after).accounts.contains_key(other) implies ledger_of(after).accounts[other]
        == ledger_of(before).put(user, account).accounts[other] by {
        let k = choose|k: int| kept_at(after, other, k);
        lemma_kept(after, other, k);
        if other != user {
            lemma_kept(before, other, k);
        } else {
            lemma_kept(after, other, i);
        }
    }
}

/// The store of the accounts' records, with the operations of the system on it.
///
/// A pond is made empty and changed only by the operations below, so at all
/// times no account has two records in it and no account holds a badge that its
/// score does not carry. Its view is the [`Ledger`] of what it holds.
pub struct Pond {
    entries: Vec<Entry>,
}

impl View for Pond {
    type V = Ledger;

    closed spec fn view(&self) -> Ledger {
        ledger_of(self.entries@)
    }
}

impl Pond {
    #[verifier::type_invariant]
    spec fn well_formed(self) -> bool {
        &&& distinct(self.entries@)
        &&& forall|i: int|
            0 <= i < self.entries.len() ==> (#[trigger] self.entries[i]).account.consistent()
    }

    /// Creates a pond that holds no record.
    pub fn new() -> (pond: Self)
        ensures
            pond@ == Ledger::empty(),
            pond@.consistent(),
    {
        let pond = Pond { entries: Vec::new() };
        pond
    }

    /// Reads the scores of `user`: all zero for an account that was never
    /// written.
    pub fn get_reputation(&self, user: AccountId) -> (scores: RepScores)
        ensures
            scores == self@.account(user).scores,
            self@.consistent(),
    {
        self.load(user).scores
    }

    /// Reads the score of `user` in `category`.
    pub fn get_rep_in_category(&self, user: AccountId, category: Category) -> (score: u32)
        ensures
            score == self@.account(user).scores.get(category),
            self@.consistent(),
    {
        self.load(user).scores.score(category)
    }

    /// Boosts the score of `user` in `category` by `score`, saturating, and
    /// re-evaluates the badge of that category against the new score. Returns the
    /// notice of the boost.
    pub fn update_reputation(&mut self, user: AccountId, category: Category, score: u32) -> (event:
        RepBoosted)
        ensures
            final(self)@ == old(self)@.boost(user, category, score),
            final(self)@.consistent(),
            event == (RepBoosted {
                account: user,
                category,
                new_score: final(self)@.account(user).scores.get(category),
            }),
    {
        let mut account = self.load(user);
        let new_score = account.boost(category, score);
        proof {
            lemma_boost_keeps_consistent(self@.account(user), category, score);
        }
        self.store(user, account);
        RepBoosted { account: user, category, new_score }
    }

    /// Applies a batch of boosts for `user` in the order of the list, each on
    /// the score that the boosts before it left, and writes the record once.
    /// Returns one notice per boost, in that order.
    pub fn multi_boost_reputation(&mut self, user: AccountId, boosts: Vec<(Category, u32)>) -> (events:
        Vec<RepBoosted>)
        ensures
            final(self)@ == old(self)@.multi_boost(user, boosts@),
            final(self)@.consistent(),
            events@ == old(self)@.boost_events(user, boosts@),
    {
        let mut account = self.load(user);
        let new_scores = account.multi_boost(&boosts);
        proof {
            lemma_batch_keeps_consistent(self@.account(user), boosts@);
        }
        self.store(user, account);
        let mut events: Vec<RepBoosted> = Vec::new();
        let mut i: usize = 0;
        while i < boosts.len()
            invariant
                i <= boosts.len(),
                new_scores@.len() == boosts@.len(),
                events@.len() == i,
                forall|k: int|
                    0 <= k < i ==> events@[k] == (RepBoosted {
                        account: user,
                        category: boosts@[k].0,
                        new_score: new_scores@[k],
                    }),
            decreases boosts.len() - i,
        {
            events.push(RepBoosted { account: user, category: boosts[i].0, new_score: new_scores[i] });
            i += 1;
        }
        events
    }

    /// Takes `amount` off every score of `user`, saturating, and re-evaluates every
    /// badge against the new scores. No notice is given.
    pub fn decay_reputation(&mut self, user: AccountId, amount: u32)
        ensures
            final(self)@ == old(self)@.decay(user, amount),
            final(self)@.consistent(),
    {
        let mut account = self.load(user);
        account.decay(amount);
        self.store(user, account);
    }

    /// Tells whether `user` qualifies for the badge of `category`.
    pub fn is_ready_for_badge(&self, user: AccountId, category: Category) -> (ready: bool)
        ensures
            ready == self@.account(user).ready(category),
            self@.consistent(),
    {
        self.load(user).is_ready(category)
    }

    /// Grants `user` the badge of `category` if the account is ready for it, and
    /// returns the notice of it. Where the account is not ready nothing is
    /// written and no notice is given.
    pub fn mint_badge(&mut self, user: AccountId, category: Category) -> (event: Option<BadgeMinted>)
        ensures
            final(self)@ == old(self)@.mint(user, category),
            final(self)@.consistent(),
            event == if old(self)@.account(user).ready(category) {
                Some(BadgeMinted { account: user, category })
            } else {
                None
            },
    {
        let mut account = self.load(user);
        if account.mint(category) {
            self.store(user, account);
            Some(BadgeMinted { account: user, category })
        } else {
            None
        }
    }

    /// Reads the badges of `user`: none for an account that was never written.
    pub fn get_badges(&self, user: AccountId) -> (badge: Badge)
        ensures
            badge == self@.account(user).badge,
            self@.consistent(),
    {
        self.load(user).badge
    }

    /// Finds the index of the record of `user`, if there is one.
    fn find(&self, user: AccountId) -> (found: Option<usize>)
        ensures
            match found {
                Some(i) => kept_at(self.entries@, user, i as int),
                None => forall|i: int| !kept_at(self.entries@, user, i),
            },
    {
        let mut i: usize = 0;
        while i < self.entries.len()
            invariant
                i <= self.entries.len(),
                forall|k: int| 0 <= k < i ==> !kept_at(self.entries@, user, k),
            decreases self.entries.len() - i,
        {
            if same_account(&self.entries[i].user, &user) {
                return Some(i);
            }
            i += 1;
        }
        None
    }

    /// Reads the record of `user`; that of an account without one is fresh.
    fn load(&self, user: AccountId) -> (account: Account)
        ensures
            account == self@.account(user),
            account.consistent(),
            self@.consistent(),
    {
        proof {
            use_type_invariant(self);
            self.lemma_consistent();
        }
        match self.find(user) {
            Some(i) => {
                proof {
                    lemma_kept(self.entries@, user, i as int);
                }
                self.entries[i].account
            },
            None => Account::new(),
        }
    }

    /// What the invariant says of the records holds of the ledger.
    proof fn lemma_consistent(&self)
        requires
            distinct(self.entries@),
            forall|i: int|
                0 <= i < self.entries.len() ==> (#[trigger] self.entries[i]).account.consistent(),
        ensures
            self@.consistent(),
    {
        assert forall|user: AccountId| #[trigger] self@.account(user).consistent() by {
            if self@.accounts.contains_key(user) {
                let i = choose|i: int| kept_at(self.entries@, user, i);
                lemma_kept(self.entries@, user, i);
            }
        }
    }

    /// Writes `account` as the record of `user`, in place of the one before.
    fn store(&mut self, user: AccountId, account: Account)
        requires
            account.consistent(),
        ensures
            final(self)@ == old(self)@.put(user, account),
            final(self)@.consistent(),
    {
        proof {
            use_type_invariant(&*self);
        }
        let found = self.find(user);
        let mut entries: Vec<Entry> = Vec::new();
        std::mem::swap(&mut entries, &mut self.entries);
        let ghost before = entries@;
        match found {
            Some(i) => {
                entries.set(i, Entry { user, account });
                proof {
                    lemma_written(before, entries@, user, account, i as int);
                }
            },
            None => {
                entries.push(Entry { user, account });
                proof {
                    lemma_written(before, entries@, user, account, before.len() as int);
                }
            },
        }
        self.entries = entries;
        proof {
            self.lemma_consistent();
        }
    }
}

impl Default for Pond {
    fn default() -> (pond: Self)
        ensures
            pond@ == Ledger::empty(),
            pond@.consistent(),
    {
        Self::new()
    }
}

} // verus!
