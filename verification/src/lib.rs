//! Resolution of declarative CSS-style gradients (linear, radial, conic)
//! attached to rectangular UI elements into concrete physical geometry and
//! fully explicit color-stop sequences.
//!
//! All quantities are fixed-point integers; see [`fixed`] for the
//! conventions. The crate covers anchor/offset position resolution,
//! responsive-length resolution, radial end-shape metrics, and color/angle
//! stop normalization. Rasterization and layout are out of scope: a host
//! hands in physical sizes and scale factors and receives resolved geometry
//! back.

pub mod fixed;
pub mod gradient;
pub mod length;
pub mod normalize;
pub mod position;
pub mod shape;
pub mod stops;
