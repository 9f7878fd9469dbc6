//! Verified core of an NFT marketplace: fee arithmetic, marketplace names,
//! the records the program keeps for listings and offers, and the plans of
//! transfers, mints and closes that each instruction hands to the runtime.

pub mod constant;
pub mod errors;
pub mod fee;
pub mod state;
pub mod cpi;
pub mod instructions;
pub mod program;
pub mod laws;
