//! Terrain engine: lattice grids, seeded gradient fields, falloff geometry,
//! ray-march decisions and colour banding.

pub mod array2;
pub mod color;
pub mod fractal;
pub mod gradient;
pub mod shadow;

pub use array2::Array2;
pub use color::{
    apply_shadow, band_of, color_for, palette, Attenuation, Band, Rgb, UNIT, WATER_LINE,
};
pub use fractal::center_dist_sq;
pub use gradient::{Corners, Grid};
pub use shadow::{march_step, March};
