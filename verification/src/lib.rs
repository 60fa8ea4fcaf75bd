//! Core rules of an information-security management service: accounts and
//! sessions, tenants ("entities") and their members, the data-protection
//! registers (processing register, subject requests, breaches) and the asset
//! catalogue.
use vstd::prelude::*;

pub mod access;
pub mod auth;
pub mod catalogue;
pub mod clock;
pub mod config;
pub mod entities;
pub mod failure;
pub mod ids;
pub mod listing;
pub mod text;
pub mod oidc;
pub mod rgpd;
pub mod storage;

verus! {

} // verus!
