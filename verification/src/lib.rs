//! Manifest resolution engine for content-provenance stores.
//!
//! A store holds the signed edit history of an asset: a set of claims, a
//! designated provenance claim, and a pool of assertions addressed by
//! absolute URI. This crate walks a store's claims, dereferences each
//! claim's assertion references, classifies every referenced assertion
//! (ingredient, thumbnail, or generic user data), links ingredient-embedded
//! references, and assembles one fully resolved, serialization-ready entry
//! per claim.

pub mod error;
pub mod json;
pub mod labels;
pub mod laws;
pub mod manifest;
pub mod manifest_store;
pub mod model;
pub mod text;
pub mod uri;
