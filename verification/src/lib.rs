//! A light-transport core with verified geometry, materials and light
//! sampling: exact scalar arithmetic, ray-shape intersection, specular
//! and dielectric scattering, and next-event estimation over spherical
//! emitters.

pub mod algebra;
pub mod color;
pub mod geometry;
pub mod material;
pub mod num;
pub mod plane;
pub mod random;
pub mod sampling;
pub mod sphere;
