//! Replay analysis library for StarCraft: Brood War `.rep` files.
pub mod text;
pub mod bytes;
pub mod parser;
pub mod analytics;
pub mod library;
pub mod openbw;
pub mod simulation;
pub mod settings;
