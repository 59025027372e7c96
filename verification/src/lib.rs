//! Crafting-order intake library for a game guild.
//!
//! The library models a static catalog of craftable gear (weapons, armour,
//! jewelry, their traits, enchantments and quality tiers), the recipe cost of
//! each entry, an aggregation engine that turns a finalized list of pieces
//! into a consolidated material manifest, and the order elicitation state
//! machine that walks a requester through resolving every attribute of every
//! requested piece.

pub mod components;
pub mod entities;
pub mod requests;
