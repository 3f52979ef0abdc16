//! The rules of a simulation as a whole: its configuration and its end.

pub mod conf;
pub mod ledger;
pub mod state;
