pub mod config;
pub mod dns;
pub mod poll;
pub mod proof_value;
pub mod storage;
pub mod issuance;
