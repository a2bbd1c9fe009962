//! A music-catalog downloader core: traversal planning, per-track decisions,
//! decryption, tag planning and file naming, each with a verified contract.

pub mod catalog;
pub mod links;
pub mod metadata;
pub mod models;
pub mod naming;
pub mod tags;
pub mod text;
pub mod track;
pub mod traversal;
pub mod urls;
pub mod crypto;
