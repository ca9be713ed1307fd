//! The instructions: each checks its inputs, changes the curve and returns
//! the record of what the caller has to move on the ledger. One that fails
//! has changed nothing.

pub mod buy;
pub mod initialize;
pub mod migrations;
pub mod sell;
