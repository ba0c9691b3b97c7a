//! Quantization and dithering engine for 8-bit RGB pixel grids.
//!
//! The engine reduces a full-color image to a constrained set of colors with
//! one of four strategies: binary thresholding on luminance, nearest-color
//! palette mapping, ordered (Bayer matrix) dithering, and error-diffusion
//! dithering with selectable kernels. All arithmetic is exact: luminance is
//! kept as an integer scaled by 10000, color distances are compared through
//! their squares, and diffusion weights are rationals (integer numerators
//! over a common denominator).
use vstd::prelude::*;

pub mod bayer;
pub mod couleur;
pub mod diffusion;
pub mod grille;
pub mod noyau;
pub mod palette;
pub mod traitement;

verus! {

/// The ways an engine operation can fail. Every failure aborts the whole
/// invocation; no partial output is produced.
#[derive(Clone, Copy, Debug, PartialEq, Eq, Structural)]
pub enum Erreur {
    /// A color name resolves to no entry of the catalog.
    CouleurInconnue,
    /// More palette entries were requested than the catalog holds.
    PaletteTropGrande,
    /// A pixel coordinate lies outside the grid.
    HorsLimites,
    /// A nearest-color operation was asked of an empty palette.
    PaletteVide,
}

} // verus!
