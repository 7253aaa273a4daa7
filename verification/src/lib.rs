//! Verified core of an options-wheel trading bot for Alpaca Markets.
pub mod account;
pub mod calendar;
pub mod chain;
pub mod config;
pub mod iv_gate;
pub mod models;
pub mod occ;
pub mod orders;
pub mod positions;
pub mod report;
pub mod rest;
pub mod text;
pub mod trading;
pub mod wheel;
pub mod ws;
