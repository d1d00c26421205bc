//! Scene descriptions for a remote three-dimensional viewer: the entities of
//! a scene, their assembly into one cross-referenced object tree, the
//! commands that carry them, and the request/reply discipline of the link.
//!
//! Real numbers are carried as IEEE 754 binary64 bit patterns
//! ([`scalar::Scalar`]); the library moves and negates them, it never rounds.

pub mod scalar;
pub mod linear;
pub mod ident;
pub mod error;
pub mod geometry;
pub mod material;
pub mod utils;
pub mod texture;
pub mod scene;
pub mod command;
pub mod client;
