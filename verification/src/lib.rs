//! Repository synchronisation and package caching for a VPM client.
pub mod batch;
pub mod cache;
pub mod config;
pub mod download;
pub mod import;
pub mod package;
pub mod progress;
pub mod repositories;
pub mod settings;
pub mod string_set;
pub mod user_packages;
