//! A deterministic, transactional content ledger. It records posts, gates
//! every state-changing operation behind an exact native-currency payment,
//! and serves paginated reads. Each operation is a total function from the
//! current state, the caller, the attached funds and the block time to a
//! new state and a response; every failure leaves the state unchanged.

pub mod coin_helpers;
pub mod constants;
pub mod contract;
pub mod error;
pub mod laws;
pub mod msg;
pub mod numeral;
pub mod state;
pub mod validation;
