//! A token ledger with verified minting, transfers and allowances.
pub mod laws;
pub mod pair_map;
pub mod supply;
pub mod token;

pub use token::TestToken;
