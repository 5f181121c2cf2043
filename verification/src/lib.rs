//! Picks random wallpapers from a listing site and plans their download.

pub mod clock;
pub mod config;
pub mod decimal;
pub mod download;
pub mod links;
pub mod progress;
pub mod random;
pub mod scrape;
pub mod site;
pub mod text;
