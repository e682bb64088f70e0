// A registry of tracked tokens kept on a ledger: the records, the accounts an
// instruction is given, and the four instructions with their contracts.

pub mod accounts;
pub mod instructions;
pub mod laws;
pub mod state;
