//! The typed cache-aside layer.

pub mod aside;
pub mod key;
pub mod lifetime;
pub mod laws;
pub mod model;
pub mod value;
