//! What holds of the rules, proved over the model: of one account's record
//! first, then of a whole ledger.

use crate::account::Account;
use crate::category::{Category, BADGE_THRESHOLD};
use crate::ledger::{Change, Ledger};
use crate::scores::capped;
use ink::primitives::AccountId;
use vstd::prelude::*;

verus! {

/// The sum of the amounts by which a batch boosts `category`.
pub open spec fn batch_total(boosts: Seq<(Category, u32)>, category: Category) -> nat
    decreases boosts.len(),
{
    if boosts.len() == 0 {
        0
    } else {
        let rest = batch_total(boosts.drop_last(), category);
        if boosts.last().0 == category {
            rest + boosts.last().1 as nat
        } else {
            rest
        }
    }
}

/// Whether a batch boosts `category` at all.
pub open spec fn batch_names(boosts: Seq<(Category, u32)>, category: Category) -> bool {
    exists|i: int| 0 <= i < boosts.len() && (#[trigger] boosts[i]).0 == category
}

/// A boost keeps an account consistent.
pub proof fn lemma_boost_keeps_consistent(account: Account, category: Category, amount: u32)
    requires
        account.consistent(),
    ensures
        account.boosted(category, amount).consistent(),
{
}

/// A batch of boosts keeps an account consistent.
pub proof fn lemma_batch_keeps_consistent(account: Account, boosts: Seq<(Category, u32)>)
    requires
        account.consistent(),
    ensures
        account.multi_boosted(boosts).consistent(),
    decreases boosts.len(),
{
    if boosts.len() > 0 {
        lemma_batch_keeps_consistent(account, boosts.drop_last());
        lemma_boost_keeps_consistent(
            account.multi_boosted(boosts.drop_last()),
            boosts.last().0,
            boosts.last().1,
        );
    }
}

/// A boost never lowers a score and never wraps: the boosted score is the old
/// one plus the amount, or `u32::MAX` where that sum is larger, and a score at
/// `u32::MAX` stays there. The other two scores are as before.
pub proof fn lemma_boost_saturates(account: Account, category: Category, amount: u32)
    ensures
        account.boosted(category, amount).scores.get(category) == capped(
            account.scores.get(category) + amount,
        ),
        account.scores.get(category) <= account.boosted(category, amount).scores.get(category)
            <= u32::MAX,
        account.scores.get(category) + amount <= u32::MAX ==> account.boosted(
            category,
            amount,
        ).scores.get(category) == account.scores.get(category) + amount,
        account.scores.get(category) == u32::MAX ==> account.boosted(
            category,
            amount,
        ).scores.get(category) == u32::MAX,
        forall|other: Category|
            other != category ==> account.boosted(category, amount).scores.get(other)
                == account.scores.get(other),
{
}

/// Two boosts of one category, one after the other, leave the scores that a
/// single boost by the sum of the two amounts leaves, wherever a `u32` holds
/// that sum.
pub proof fn lemma_boosts_add_up(account: Account, category: Category, first: u32, second: u32)
    requires
        first + second <= u32::MAX,
    ensures
        account.boosted(category, first).boosted(category, second).scores == account.boosted(
            category,
            (first + second) as u32,
        ).scores,
{
}

/// After a batch, the score of each category is the old score plus all that the
/// batch boosts that category by, or `u32::MAX` where that is larger: the order
/// of the boosts does not matter to the scores.
pub proof fn lemma_batch_totals(account: Account, boosts: Seq<(Category, u32)>, category: Category)
    ensures
        account.multi_boosted(boosts).scores.get(category) == capped(
            account.scores.get(category) + batch_total(boosts, category),
        ),
    decreases boosts.len(),
{
    if boosts.len() > 0 {
        lemma_batch_totals(account, boosts.drop_last(), category);
    }
}

/// A decay never takes a score below zero and never raises one: the decayed
/// score is the old one less the amount, or zero where the amount is larger.
pub proof fn lemma_decay_saturates(account: Account, amount: u32, category: Category)
    ensures
        0 <= account.decayed(amount).scores.get(category) <= account.scores.get(category),
        amount <= account.scores.get(category) ==> account.decayed(amount).scores.get(category)
            == account.scores.get(category) - amount,
        amount > account.scores.get(category) ==> account.decayed(amount).scores.get(category)
            == 0,
{
}

/// Where a boost leaves the score of its category below the threshold, the
/// badge of that category is not held afterwards, whether it was held before
/// or not.
pub proof fn lemma_boost_revokes(account: Account, category: Category, amount: u32)
    ensures
        account.boosted(category, amount).earned(category),
        account.boosted(category, amount).scores.get(category) < BADGE_THRESHOLD
            ==> !account.boosted(category, amount).badge.has(category),
{
}

/// Where a batch leaves the score of a category that it boosts below the
/// threshold, the badge of that category is not held afterwards, whether it
/// was held before or not.
pub proof fn lemma_batch_revokes(account: Account, boosts: Seq<(Category, u32)>, category: Category)
    requires
        batch_names(boosts, category),
    ensures
        account.multi_boosted(boosts).earned(category),
        account.multi_boosted(boosts).scores.get(category) < BADGE_THRESHOLD
            ==> !account.multi_boosted(boosts).badge.has(category),
    decreases boosts.len(),
{
    let i = choose|i: int| 0 <= i < boosts.len() && (#[trigger] boosts[i]).0 == category;
    if boosts.last().0 != category {
        assert(boosts.drop_last()[i].0 == category);
        lemma_batch_revokes(account, boosts.drop_last(), category);
    }
}

/// Where a decay leaves a score below the threshold, the badge of that category
/// is not held afterwards, whether it was held before or not: a decayed account
/// is consistent.
pub proof fn lemma_decay_revokes(account: Account, amount: u32, category: Category)
    ensures
        account.decayed(amount).consistent(),
        account.decayed(amount).scores.get(category) < BADGE_THRESHOLD ==> !account.decayed(
            amount,
        ).badge.has(category),
{
}

/// A boost costs a consistent account no badge, and never brings one.
pub proof fn lemma_boost_spares_badges(account: Account, category: Category, amount: u32)
    requires
        account.consistent(),
    ensures
        account.boosted(category, amount).badge == account.badge,
{
}

/// A batch of boosts costs a consistent account no badge, and never brings one.
pub proof fn lemma_batch_spares_badges(account: Account, boosts: Seq<(Category, u32)>)
    requires
        account.consistent(),
    ensures
        account.multi_boosted(boosts).badge == account.badge,
    decreases boosts.len(),
{
    if boosts.len() > 0 {
        lemma_batch_spares_badges(account, boosts.drop_last());
        lemma_batch_keeps_consistent(account, boosts.drop_last());
        lemma_boost_spares_badges(
            account.multi_boosted(boosts.drop_last()),
            boosts.last().0,
            boosts.last().1,
        );
    }
}

/// A request for a badge sets the flag of its category exactly where the score
/// of that category has reached the threshold, and changes nothing else: not
/// the scores, not the other two flags, and nothing at all where the score is
/// below the threshold.
pub proof fn lemma_mint_gating(account: Account, category: Category)
    ensures
        account.ready(category) ==> account.minted(category).badge.has(category),
        !account.ready(category) ==> account.minted(category) == account,
        account.consistent() ==> (account.minted(category).badge.has(category) <==> account.ready(
            category,
        )),
        account.consistent() ==> account.minted(category).consistent(),
        account.minted(category).scores == account.scores,
        forall|other: Category|
            other != category ==> account.minted(category).badge.has(other) == account.badge.has(
                other,
            ),
        account.minted(category).minted(category) == account.minted(category),
{
}

/// In a consistent account, no badge is held in a category whose score is below
/// the threshold.
pub proof fn lemma_consistent_account(account: Account, category: Category)
    requires
        account.consistent(),
    ensures
        account.scores.get(category) < BADGE_THRESHOLD ==> !account.badge.has(category),
{
}

/// A request changes the record of the account that it names and of no other.
pub proof fn lemma_apply_leaves_others(ledger: Ledger, change: Change, other: AccountId)
    requires
        change.user() != other,
    ensures
        ledger.apply(change).account(other) == ledger.account(other),
{
}

/// A run of requests leaves alone every account that none of them names.
pub proof fn lemma_run_leaves_others(ledger: Ledger, changes: Seq<Change>, other: AccountId)
    requires
        forall|i: int| 0 <= i < changes.len() ==> (#[trigger] changes[i]).user() != other,
    ensures
        ledger.run(changes).account(other) == ledger.account(other),
    decreases changes.len(),
{
    if changes.len() > 0 {
        assert forall|i: int| 0 <= i < changes.drop_last().len() implies (
        #[trigger] changes.drop_last()[i]).user() != other by {
            assert(changes.drop_last()[i] == changes[i]);
        }
        lemma_run_leaves_others(ledger, changes.drop_last(), other);
        lemma_apply_leaves_others(ledger.run(changes.drop_last()), changes.last(), other);
    }
}

/// An account that no request has named reads as fresh, whatever was asked for
/// the others: its scores are zero and it holds no badge.
pub proof fn lemma_unnamed_account_is_fresh(changes: Seq<Change>, user: AccountId)
    requires
        forall|i: int| 0 <= i < changes.len() ==> (#[trigger] changes[i]).user() != user,
    ensures
        Ledger::empty().run(changes).account(user) == Account::fresh(),
        forall|category: Category|
            Ledger::empty().run(changes).account(user).scores.get(category) == 0,
        forall|category: Category| !Ledger::empty().run(changes).account(user).badge.has(category),
{
    lemma_run_leaves_others(Ledger::empty(), changes, user);
}

/// Every request keeps a consistent ledger consistent.
pub proof fn lemma_apply_keeps_consistent(ledger: Ledger, change: Change)
    requires
        ledger.consistent(),
    ensures
        ledger.apply(change).consistent(),
{
    let after = ledger.apply(change);
    let user = change.user();
    assert(ledger.account(user).consistent());
    match change {
        Change::Boost { user, category, amount } => {
            lemma_boost_keeps_consistent(ledger.account(user), category, amount);
        },
        Change::MultiBoost { user, boosts } => {
            lemma_batch_keeps_consistent(ledger.account(user), boosts);
        },
        Change::Decay { user, amount } => {
            lemma_decay_revokes(ledger.account(user), amount, Category::DeFi);
        },
        Change::Mint { user, category } => {
            lemma_mint_gating(ledger.account(user), category);
        },
    }
    assert forall|other: AccountId| #[trigger] after.account(other).consistent() by {
        if other != user {
            lemma_apply_leaves_others(ledger, change, other);
            assert(ledger.account(other).consistent());
        }
    }
}

/// Whatever is asked of an empty ledger, and in whatever order, no account ever
/// holds a badge in a category whose score is below the threshold.
pub proof fn lemma_run_is_consistent(changes: Seq<Change>)
    ensures
        Ledger::empty().run(changes).consistent(),
    decreases changes.len(),
{
    if changes.len() == 0 {
        assert forall|user: AccountId| #[trigger]
            Ledger::empty().account(user).consistent() by {}
    } else {
        lemma_run_is_consistent(changes.drop_last());
        lemma_apply_keeps_consistent(Ledger::empty().run(changes.drop_last()), changes.last());
    }
}

/// Two boosts for one account in one category, one after the other, leave the
/// score that a single boost by the sum of the two amounts leaves, wherever a
/// `u32` holds that sum.
pub proof fn lemma_ledger_boosts_add_up(
    ledger: Ledger,
    user: AccountId,
    category: Category,
    first: u32,
    second: u32,
)
    requires
        first + second <= u32::MAX,
    ensures
        ledger.boost(user, category, first).boost(user, category, second).account(
            user,
        ).scores.get(category) == ledger.boost(user, category, (first + second) as u32).account(
            user,
        ).scores.get(category),
        ledger.consistent() ==> ledger.boost(user, category, first).boost(user, category, second)
            == ledger.boost(user, category, (first + second) as u32),
{
    let account = ledger.account(user);
    lemma_boosts_add_up(account, category, first, second);
    if ledger.consistent() {
        assert(account.consistent());
        lemma_boost_spares_badges(account, category, first);
        lemma_boost_keeps_consistent(account, category, first);
        lemma_boost_spares_badges(account.boosted(category, first), category, second);
        lemma_boost_spares_badges(account, category, (first + second) as u32);
        assert(ledger.boost(user, category, first).boost(user, category, second).accounts
            =~= ledger.boost(user, category, (first + second) as u32).accounts);
    }
}

/// A request for a badge changes the ledger exactly where the account is ready
/// for the badge: then the flag is set, and otherwise the ledger is as it was.
pub proof fn lemma_ledger_mint_gating(ledger: Ledger, user: AccountId, category: Category)
    ensures
        ledger.account(user).ready(category) ==> ledger.mint(user, category).account(
            user,
        ).badge.has(category),
        !ledger.account(user).ready(category) ==> ledger.mint(user, category) == ledger,
        ledger.consistent() ==> (ledger.mint(user, category).account(user).badge.has(category)
            <==> ledger.account(user).ready(category)),
        ledger.mint(user, category).account(user).scores == ledger.account(user).scores,
        forall|other: Category|
            other != category ==> ledger.mint(user, category).account(user).badge.has(other)
                == ledger.account(user).badge.has(other),
{
    lemma_mint_gating(ledger.account(user), category);
    if ledger.consistent() {
        assert(ledger.account(user).consistent());
    }
}

} // verus!
