//! A ledger of tradable time tokens: sellers mint units of time at an hourly
//! rate with a balance of hours, buyers purchase hours against that balance,
//! and only a token's seller may reset its balance or delete it.

pub mod ledger;
pub mod model;
