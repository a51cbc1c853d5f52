//! Custody and authorization for a community treasury and a ticketed raffle.
//!
//! A vault holds tokens in a custody account for which only a sub-account derived for the
//! program signs (`authority`). Admins withdraw from it under a cap (`gate`, `vault`), anyone
//! converts native currency into tokens at a tabled rate (`exchange`, `vault`), and a raffle
//! keeps count of the tickets it sells (`raffle`). Every operation works on a `ledger` of
//! accounts and either takes full effect or none; `guarantees` states what holds of them all.

pub mod account;
pub mod authority;
pub mod constants;
pub mod exchange;
pub mod gate;
pub mod guarantees;
pub mod ins;
pub mod ledger;
pub mod raffle;
pub mod state;
pub mod vault;
