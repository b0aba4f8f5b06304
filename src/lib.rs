//! A small ray tracer's verified core: the scene and its nearest-hit search,
//! the bounce budget of diffuse shading, and the image file encoder.

pub mod hittable_list;
pub mod ppm;
pub mod shading;
