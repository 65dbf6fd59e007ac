//! Reputation scores and badges, account by account.
//!
//! Every account has a score in each [`Category`] and may hold a badge in each.
//! Scores rise by boosts and fall by decay, both saturating. A badge is granted
//! only on request, to an account whose score has reached
//! [`BADGE_THRESHOLD`], and it is revoked as soon as a boost or a decay leaves
//! the score below that threshold.
//!
//! [`Account`] holds the rules for one account, [`Pond`] keeps the accounts, and
//! [`Ledger`] is the mathematical model of a pond over which the laws in
//! [`laws`] are proved.

pub mod account;
pub mod badge;
pub mod category;
pub mod event;
pub mod identity;
pub mod laws;
pub mod ledger;
pub mod pond;
pub mod scores;

pub use crate::account::Account;
pub use crate::badge::Badge;
pub use crate::category::{Category, BADGE_THRESHOLD};
pub use crate::event::{BadgeMinted, RepBoosted};
pub use crate::ledger::{Change, Ledger};
pub use crate::pond::Pond;
pub use crate::scores::RepScores;
