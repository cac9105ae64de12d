//! A glitch-art image corrupter: three passes of randomized pixel
//! displacement and channel mixing over an RGBA raster, built on
//! wraparound integer arithmetic throughout.

pub mod brighten;
pub mod config;
pub mod corrupter;
pub mod mapper;
pub mod raster;
pub mod sampler;
