//! Canny edge detection over integer grids, with verified contracts.
//!
//! The pipeline has five pure stages, each consuming the previous stage's
//! grid and producing a new one of the same dimensions: grayscale reduction,
//! Sobel gradient estimation, magnitude/direction combination, non-maximum
//! suppression, and dual-threshold hysteresis classification.  Magnitudes
//! are carried as exact squares and directions as orientation bins, so every
//! stage is exact integer arithmetic and every public function states its
//! result pointwise.

pub mod grayscale;
pub mod grid;
pub mod hysteresis;
pub mod magnitude;
pub mod pipeline;
pub mod sobel;
pub mod suppress;
