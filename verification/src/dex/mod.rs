//! The DEX-specific fast paths: the decisions around a swap through Raydium or Pump.fun.
pub mod pump;
pub mod raydium;
