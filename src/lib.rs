//! A single-token, time-locked staking ledger: one stake position per owner,
//! moved through `stake`, `top_up`, `extend`, `restake` and `unstake`, with
//! aggregate vault accounting and a reward rule computed in exact integers.

pub mod constants;
pub mod errors;
pub mod key;
pub mod reward;
pub mod clock;
pub mod account;
pub mod vault;
pub mod dispatch;
pub mod handlers;
pub mod laws;
