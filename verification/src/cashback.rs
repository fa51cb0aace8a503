//! The cashback token: a fungible-token ledger with delegated spending,
//! viewing-key-gated queries, an append-only transaction history, and a
//! burn path that settles rewards through a self-callback.

pub mod msg;
pub mod state;
pub mod viewing_key;
pub mod transaction_history;
pub mod contract;
