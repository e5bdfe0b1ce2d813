//! A conditional escrow: deposited funds are held until a price feed reaches
//! the depositor's threshold, or until a randomness round grants early release.

pub mod deposit;
pub mod errors;
pub mod feed;
pub mod key;
pub mod laws;
pub mod price_gate;
pub mod randomness;
pub mod state;
pub mod vrf_client;
pub mod withdraw;
