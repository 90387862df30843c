//! Verified core of the Ditherwave dithering toolkit: effect metadata and
//! parameter schemas, the pixel-layout arithmetic every effect relies on, the
//! effect registry and stack, recipes, and the plugin wire contract.

pub mod branding;
pub mod category;
pub mod algorithms;
pub mod effect;
pub mod image;
pub mod io;
pub mod palette;
pub mod plugin;
pub mod raw;
pub mod recipe;
pub mod registry;
pub mod stack;
pub mod text;
pub mod vector;
