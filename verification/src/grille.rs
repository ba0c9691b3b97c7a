//! The pixel grid: a dense row-major 2-D array of colors, mutated in place
//! by the quantization strategies.
use vstd::prelude::*;

use crate::couleur::Couleur;
use crate::couleur::blanc;
use crate::Erreur;

verus! {

/// A rectangular grid of pixels, row-major, with fixed dimensions.
#[derive(Debug)]
pub struct GrillePixels {
    pub largeur: usize,
    pub hauteur: usize,
    pub pixels: Vec<Couleur>,
}

impl GrillePixels {
    /// The grid is well formed when it holds exactly one pixel per cell.
    pub open spec fn bien_formee(self) -> bool {
        self.pixels@.len() == self.largeur * self.hauteur
    }

    /// Builds a grid from its dimensions and its row-major pixels. Fails
    /// when the pixel count does not match the dimensions.
    pub fn nouvelle(largeur: usize, hauteur: usize, pixels: Vec<Couleur>) -> (r: Result<
        GrillePixels,
        Erreur,
    >)
        ensures
            pixels@.len() == largeur * hauteur ==> r == Ok::<GrillePixels, Erreur>(
                GrillePixels { largeur, hauteur, pixels },
            ),
            pixels@.len() != largeur * hauteur ==> r == Err::<GrillePixels, Erreur>(
                Erreur::HorsLimites,
            ),
            r is Ok ==> r->Ok_0.bien_formee(),
    {
        proof {
            assert((largeur as int) * (hauteur as int) <= u128::MAX) by (nonlinear_arith)
                requires
                    0 <= largeur as int <= u64::MAX,
                    0 <= hauteur as int <= u64::MAX,
            ;
        }
        if (largeur as u128) * (hauteur as u128) == pixels.len() as u128 {
            Ok(GrillePixels { largeur, hauteur, pixels })
        } else {
            Err(Erreur::HorsLimites)
        }
    }
}

/// A coordinate pair inside the dimensions gives a row-major index inside
/// the grid.
pub proof fn lemma_indice_grille(x: int, y: int, largeur: int, hauteur: int)
    requires
        0 <= x < largeur,
        0 <= y < hauteur,
    ensures
        0 <= y * largeur + x < largeur * hauteur,
{
    assert(0 <= y * largeur + x < largeur * hauteur) by (nonlinear_arith)
        requires
            0 <= x < largeur,
            0 <= y < hauteur,
    ;
}

/// Reads the pixel at column `x` and row `y`; out-of-bounds coordinates are
/// an error, never a wrap-around.
pub fn recuperer_pixel(grille: &GrillePixels, x: usize, y: usize) -> (r: Result<Couleur, Erreur>)
    requires
        grille.bien_formee(),
    ensures
        x < grille.largeur && y < grille.hauteur ==> r == Ok::<Couleur, Erreur>(
            grille.pixels@[y * grille.largeur + x],
        ),
        !(x < grille.largeur && y < grille.hauteur) ==> r == Err::<Couleur, Erreur>(
            Erreur::HorsLimites,
        ),
{
    if x < grille.largeur && y < grille.hauteur {
        let n = grille.pixels.len();
        proof {
            lemma_indice_grille(x as int, y as int, grille.largeur as int, grille.hauteur as int);
            assert(y * grille.largeur + x < n);
        }
        Ok(grille.pixels[y * grille.largeur + x])
    } else {
        Err(Erreur::HorsLimites)
    }
}

/// What one pixel of the checkerboard transform becomes: cells whose
/// column-plus-row sum is even turn white, the others keep their color.
pub open spec fn pixel_un_sur_deux(ancien: Couleur, k: int, largeur: int) -> Couleur {
    if ((k % largeur) + (k / largeur)) % 2 == 0 {
        blanc()
    } else {
        ancien
    }
}

/// Turns every other pixel white: those whose column-plus-row sum is even.
pub fn transformer_pixels_un_sur_deux(grille: &mut GrillePixels)
    requires
        old(grille).bien_formee(),
        old(grille).largeur >= 1,
    ensures
        final(grille).bien_formee(),
        final(grille).largeur == old(grille).largeur,
        final(grille).hauteur == old(grille).hauteur,
        final(grille).pixels@.len() == old(grille).pixels@.len(),
        forall|k: int|
            0 <= k < old(grille).pixels@.len() ==> final(grille).pixels@[k] == pixel_un_sur_deux(
                old(grille).pixels@[k],
                k,
                old(grille).largeur as int,
            ),
{
    let largeur = grille.largeur;
    let n = grille.pixels.len();
    let mut k: usize = 0;
    while k < n
        invariant
            grille.largeur == old(grille).largeur,
            grille.hauteur == old(grille).hauteur,
            grille.pixels@.len() == old(grille).pixels@.len(),
            largeur == grille.largeur,
            largeur >= 1,
            n == grille.pixels@.len(),
            k <= n,
            forall|i: int|
                0 <= i < k ==> grille.pixels@[i] == pixel_un_sur_deux(
                    old(grille).pixels@[i],
                    i,
                    largeur as int,
                ),
            forall|i: int| k <= i < n ==> grille.pixels@[i] == old(grille).pixels@[i],
        decreases n - k,
    {
        let x = k % largeur;
        let y = k / largeur;
        proof {
            vstd::arithmetic::div_mod::lemma_add_mod_noop(x as int, y as int, 2);
        }
        if (x % 2 + y % 2) % 2 == 0 {
            grille.pixels.set(k, Couleur { rouge: 255, vert: 255, bleu: 255 });
        }
        k = k + 1;
    }
}

} // verus!
