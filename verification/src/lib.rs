//! # Building Blocks
//!
//! An unusual game engine for a very specific niche: a block-based sandbox game where
//! you can build your own worlds and play them with friends.
//!
//! Blocks, materials and textures are data-driven: they come from data packs that a
//! universe stacks on top of each other. This crate holds the engine's verified core.

/// Anything to do with the worlds you can create.
pub mod world;

/// Integer vectors.
pub mod geometry;

/// Things to do with data packs and the resources worldmakers build with.
pub mod resources;

/// Outside types and the trusted wrappers around their crates.
pub mod deps;

/// The server, the central authority of the game.
pub mod server;

/// The client, which follows the game the server runs.
pub mod client;
