pub mod accounts;
pub mod amounts;
pub mod bytes;
pub mod deserialize;
pub mod dex;
pub mod error;
pub mod exit;
pub mod fast_path;
pub mod invocation;
pub mod lamports;
pub mod market;
pub mod profit;
pub mod sandwich;
pub mod strategy;
pub mod swap;
pub mod system;
