//! Bookkeeping for the assets that the viewer loads.

pub mod models;
pub mod textures;
