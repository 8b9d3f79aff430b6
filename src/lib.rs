//! Reaction core for exchange listing announcements: title classification,
//! fixed-point order sizing, request signing, take-profit scheduling and the
//! per-symbol fan-out plan.
pub mod amount;
pub mod text;
pub mod sizing;
pub mod classify;
pub mod ladder;
pub mod signing;
pub mod requests;
pub mod binance;
pub mod bybit;
pub mod reaction;
pub mod executor;
