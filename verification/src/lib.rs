//! Verified core of a BTC market-intelligence service: market-data value
//! types, exchange request and stream naming, source-health classification,
//! scenario odds, alert derivation and the service's configuration logic.

pub mod text;
pub mod market_data;
pub mod json;
pub mod clients;
pub mod adapters;
pub mod payloads;
pub mod normalization;
pub mod health;
pub mod analytics;
pub mod persistence;
pub mod service;
