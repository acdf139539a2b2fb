//! Custody and lifecycle management for a company-funding ledger.
//!
//! Companies register a profile, open at most one active funding round,
//! receive contributions into an escrow vault, move collected funds into a
//! company treasury, and repay investors with interest from that treasury.
//! The escrow accounts are bare balance holders whose deterministically
//! derived addresses are their only identity: every debit and credit
//! re-derives and re-validates the expected address at call time.

pub mod address;
pub mod error;
pub mod resolver;
pub mod state;
pub mod entity;
pub mod auth;
pub mod treasury;
pub mod laws;
