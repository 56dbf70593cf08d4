//! Resolves free-text queries to cached songs: edit-distance similarity,
//! a catalog with bounded search history, ranking, and the decisions that
//! drive fetching and playback.

pub mod acquire;
pub mod catalog;
pub mod commands;
pub mod coordinator;
pub mod distance;
pub mod error;
pub mod index;
pub mod observer;
pub mod resolver;
pub mod similarity;
pub mod song;
pub mod text;
