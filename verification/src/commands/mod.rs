//! What the tool's commands decide and show.

pub mod airdrop;
pub mod apikey;
pub mod auth;
