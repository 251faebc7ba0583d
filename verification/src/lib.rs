//! A model of a minimal fungible-token program: it creates a token mint with
//! display metadata, mints new supply, transfers balances between holdings,
//! and burns tokens.
//!
//! On chain, every state change is delegated to an external token program
//! and an external metadata program through cross-program invocation; those
//! invocations are runtime I/O and live outside this library. Here the
//! delegated effects are modelled over a [`ledger::Ledger`] of plain records,
//! and each instruction handler is a verified function from the current
//! ledger, the account list and the arguments to the next ledger or an error.

pub mod records;
pub mod ledger;
pub mod instructions;
pub mod laws;
