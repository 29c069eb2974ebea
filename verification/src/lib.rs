//! The backing store of a visual-novel editor.
//!
//! A project is a tree: seasons hold episodes, episodes hold scenes, scenes
//! hold elements; beside the tree stand the characters and the script graphs.
//! [`store::ProjectStore`] holds one project and the path it is saved under,
//! and offers the commands that create, load, save and edit it. The library
//! keeps the project in memory and decides; it does not read or write files.
//!
//! Every command has a contract over the mathematical model of the store
//! ([`store::StoreView`]), and [`laws`] states what holds of the commands
//! taken together.

pub mod assets;
pub mod error;
pub mod json;
pub mod laws;
pub mod models;
pub mod registry;
pub mod store;
