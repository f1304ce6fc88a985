//! A disk cleanup library: scan targets and a result cache, a safety gate, staged
//! removal with a manifest and undo, purging of expired sessions, and a
//! size / prefix hash / full hash / perceptual funnel for duplicate files.

pub mod text;
pub mod format;
pub mod safety;
pub mod permissions;
pub mod errors;
pub mod config;
pub mod targets;
pub mod walker;
pub mod dev;
pub mod cache;
pub mod scan;
pub mod hasher;
pub mod duplicates;
pub mod perceptual;
pub mod grouper;
pub mod resolver;
pub mod manifest;
pub mod engine;
pub mod staging;
pub mod purger;
pub mod profiles;
pub mod docker;
pub mod apps;
pub mod privacy;
pub mod startup;
pub mod cli;
