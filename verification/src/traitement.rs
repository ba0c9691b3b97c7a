//! The per-pixel quantization strategies: binary thresholding, palette
//! mapping, random dithering and ordered (Bayer) dithering. Each reads
//! every pixel once, in raster order, and writes a replacement in place.
use vstd::prelude::*;
use vstd::pervasive::unreached;
use core::str::FromStr;
use rand::Rng;

use crate::couleur::Couleur;
use crate::couleur::SEUIL_LUMINOSITE;
use crate::couleur::blanc;
use crate::couleur::luminosite_pixel;
use crate::couleur::luminosite_spec;
use crate::couleur::noir;
use crate::grille::GrillePixels;
use crate::palette::chaines_equivalentes;
use crate::palette::couleur_la_plus_proche;
use crate::palette::noms_equivalents;
use crate::palette::plus_proche_spec;
use crate::Erreur;

verus! {

/// The two dithering methods of the ordered/random strategy family.
#[derive(Clone, Copy, Debug, PartialEq, Eq, Structural)]
pub enum Methode {
    Aleatoire,
    Ordonne,
}

impl Methode {
    /// Parses a dithering method name regardless of ASCII case.
    pub fn depuis_nom(s: &str) -> (r: Option<Methode>)
        ensures
            chaines_equivalentes(s@, "aleatoire"@) ==> r == Some(Methode::Aleatoire),
            !chaines_equivalentes(s@, "aleatoire"@) && chaines_equivalentes(s@, "ordonne"@) ==> r
                == Some(Methode::Ordonne),
            !chaines_equivalentes(s@, "aleatoire"@) && !chaines_equivalentes(s@, "ordonne"@) ==> r
                is None,
    {
        if noms_equivalents(s, "aleatoire") {
            Some(Methode::Aleatoire)
        } else if noms_equivalents(s, "ordonne") {
            Some(Methode::Ordonne)
        } else {
            None
        }
    }
}

impl FromStr for Methode {
    type Err = String;

    fn from_str(s: &str) -> Result<Methode, String> {
        match Methode::depuis_nom(s) {
            Some(m) => Ok(m),
            None => Err("methode de dithering invalide".to_owned()),
        }
    }
}

/// Options of the dithering strategy family: which method to apply.
#[derive(Clone, Copy, Debug, PartialEq, Eq, Structural)]
pub struct OptsDithering {
    pub tramage: Methode,
}

/// One historical convention for the default threshold pair: white above
/// the threshold, black below.
pub fn couleurs_seuil_blanc_dessus() -> (r: (Couleur, Couleur))
    ensures
        r.0 == blanc() && r.1 == noir(),
{
    (Couleur { rouge: 255, vert: 255, bleu: 255 }, Couleur { rouge: 0, vert: 0, bleu: 0 })
}

/// The other historical convention for the default threshold pair: black
/// above the threshold, white below.
pub fn couleurs_seuil_noir_dessus() -> (r: (Couleur, Couleur))
    ensures
        r.0 == noir() && r.1 == blanc(),
{
    (Couleur { rouge: 0, vert: 0, bleu: 0 }, Couleur { rouge: 255, vert: 255, bleu: 255 })
}

/// What thresholding does to one pixel: the first color where luminance
/// exceeds 128.0 (scaled by 10000), the second otherwise.
pub open spec fn pixel_seuille(p: Couleur, couleur_1: Couleur, couleur_2: Couleur) -> Couleur {
    if luminosite_spec(p) > SEUIL_LUMINOSITE {
        couleur_1
    } else {
        couleur_2
    }
}

/// What thresholding does to a whole pixel sequence.
pub open spec fn grille_seuillee(s: Seq<Couleur>, couleur_1: Couleur, couleur_2: Couleur) -> Seq<
    Couleur,
> {
    s.map_values(|p: Couleur| pixel_seuille(p, couleur_1, couleur_2))
}

/// Thresholding is idempotent whenever the first color lies above the
/// threshold and the second at or below it (as the default black/white
/// pairs do): a second pass changes nothing.
pub proof fn lemma_seuillage_idempotent(s: Seq<Couleur>, couleur_1: Couleur, couleur_2: Couleur)
    requires
        luminosite_spec(couleur_1) > SEUIL_LUMINOSITE,
        luminosite_spec(couleur_2) <= SEUIL_LUMINOSITE,
    ensures
        grille_seuillee(grille_seuillee(s, couleur_1, couleur_2), couleur_1, couleur_2)
            == grille_seuillee(s, couleur_1, couleur_2),
{
    let une_fois = grille_seuillee(s, couleur_1, couleur_2);
    assert(grille_seuillee(une_fois, couleur_1, couleur_2) =~= une_fois);
}

/// Binary thresholding: pixels brighter than the 128.0 luminance
/// threshold become `couleur_1`, the others `couleur_2`.
pub fn monochrome_par_seuillage(grille: &mut GrillePixels, couleur_1: Couleur, couleur_2: Couleur)
    requires
        old(grille).bien_formee(),
    ensures
        final(grille).bien_formee(),
        final(grille).largeur == old(grille).largeur,
        final(grille).hauteur == old(grille).hauteur,
        final(grille).pixels@ == grille_seuillee(old(grille).pixels@, couleur_1, couleur_2),
{
    let n = grille.pixels.len();
    let mut k: usize = 0;
    while k < n
        invariant
            grille.largeur == old(grille).largeur,
            grille.hauteur == old(grille).hauteur,
            grille.pixels@.len() == old(grille).pixels@.len(),
            n == grille.pixels@.len(),
            k <= n,
            forall|i: int|
                0 <= i < k ==> grille.pixels@[i] == pixel_seuille(
                    old(grille).pixels@[i],
                    couleur_1,
                    couleur_2,
                ),
            forall|i: int| k <= i < n ==> grille.pixels@[i] == old(grille).pixels@[i],
        decreases n - k,
    {
        let luminosite = luminosite_pixel(&grille.pixels[k]);
        if luminosite > SEUIL_LUMINOSITE {
            grille.pixels.set(k, couleur_1);
        } else {
            grille.pixels.set(k, couleur_2);
        }
        k = k + 1;
    }
    proof {
        assert(grille.pixels@ =~= grille_seuillee(old(grille).pixels@, couleur_1, couleur_2));
    }
}

/// What palette mapping does to a whole pixel sequence: each pixel is
/// replaced by its nearest palette entry, independently.
pub open spec fn grille_palette(s: Seq<Couleur>, palette: Seq<Couleur>) -> Seq<Couleur> {
    s.map_values(|p: Couleur| plus_proche_spec(p, palette))
}

/// Palette mapping: every pixel is replaced by the nearest palette color,
/// each pixel independently. An empty palette is a caller error and
/// leaves the grid untouched.
pub fn monochrome_par_palette(grille: &mut GrillePixels, couleurs_palette: Vec<Couleur>) -> (r:
    Result<(), Erreur>)
    requires
        old(grille).bien_formee(),
    ensures
        final(grille).bien_formee(),
        final(grille).largeur == old(grille).largeur,
        final(grille).hauteur == old(grille).hauteur,
        couleurs_palette@.len() == 0 ==> r == Err::<(), Erreur>(Erreur::PaletteVide)
            && final(grille).pixels@ == old(grille).pixels@,
        couleurs_palette@.len() > 0 ==> r == Ok::<(), Erreur>(()) && final(grille).pixels@
            == grille_palette(old(grille).pixels@, couleurs_palette@),
{
    if couleurs_palette.len() == 0 {
        return Err(Erreur::PaletteVide);
    }
    let n = grille.pixels.len();
    let mut k: usize = 0;
    while k < n
        invariant
            couleurs_palette@.len() > 0,
            grille.largeur == old(grille).largeur,
            grille.hauteur == old(grille).hauteur,
            grille.pixels@.len() == old(grille).pixels@.len(),
            n == grille.pixels@.len(),
            k <= n,
            forall|i: int|
                0 <= i < k ==> grille.pixels@[i] == plus_proche_spec(
                    old(grille).pixels@[i],
                    couleurs_palette@,
                ),
            forall|i: int| k <= i < n ==> grille.pixels@[i] == old(grille).pixels@[i],
        decreases n - k,
    {
        match couleur_la_plus_proche(&grille.pixels[k], &couleurs_palette) {
            Ok(c) => grille.pixels.set(k, c),
            Err(_) => unreached(),
        }
        k = k + 1;
    }
    proof {
        assert(grille.pixels@ =~= grille_palette(old(grille).pixels@, couleurs_palette@));
    }
    Ok(())
}

/// What one step of random dithering does: white when the luminance,
/// normalized to [0, 1), exceeds the random threshold `seuil / 2^32`,
/// black otherwise. Compared exactly: `lum · 2^32 > seuil · 2550000`.
pub open spec fn pixel_trame_aleatoire(p: Couleur, seuil: u32) -> Couleur {
    if luminosite_spec(p) * 4294967296 > seuil * 2550000 {
        blanc()
    } else {
        noir()
    }
}

/// The decision of one random-dithering step, taking the drawn threshold
/// as an argument; exact for every possible draw.
pub fn pixel_tramage_aleatoire(pixel: &Couleur, seuil: u32) -> (c: Couleur)
    ensures
        c == pixel_trame_aleatoire(*pixel, seuil),
{
    let luminosite = luminosite_pixel(pixel);
    if (luminosite as u64) * 4294967296u64 > (seuil as u64) * 2550000u64 {
        Couleur { rouge: 255, vert: 255, bleu: 255 }
    } else {
        Couleur { rouge: 0, vert: 0, bleu: 0 }
    }
}

/// Relies on rand::thread_rng and rand::Rng::gen: a u32 drawn uniformly;
/// nothing is promised of the value.
#[verifier::external_body]
fn alea_u32() -> u32 {
    rand::thread_rng().gen()
}

/// Random dithering: each pixel is compared against a fresh uniform
/// random threshold and becomes white or black. Whatever the draws, every
/// output pixel is black or white and the dimensions are kept.
pub fn tramage_aleatoire(grille: &mut GrillePixels)
    requires
        old(grille).bien_formee(),
    ensures
        final(grille).bien_formee(),
        final(grille).largeur == old(grille).largeur,
        final(grille).hauteur == old(grille).hauteur,
        final(grille).pixels@.len() == old(grille).pixels@.len(),
        forall|i: int|
            0 <= i < final(grille).pixels@.len() ==> final(grille).pixels@[i] == blanc()
                || final(grille).pixels@[i] == noir(),
{
    let n = grille.pixels.len();
    let mut k: usize = 0;
    while k < n
        invariant
            grille.largeur == old(grille).largeur,
            grille.hauteur == old(grille).hauteur,
            grille.pixels@.len() == old(grille).pixels@.len(),
            n == grille.pixels@.len(),
            k <= n,
            forall|i: int|
                0 <= i < k ==> grille.pixels@[i] == blanc() || grille.pixels@[i] == noir(),
        decreases n - k,
    {
        let seuil = alea_u32();
        let c = pixel_tramage_aleatoire(&grille.pixels[k], seuil);
        grille.pixels.set(k, c);
        k = k + 1;
    }
}

/// What one step of ordered dithering does, given the Bayer level of the
/// pixel's cell and the matrix side length: white when
/// `lum / 255 > niveau / taille²`, compared exactly as
/// `lum · taille² > niveau · 2550000`.
pub open spec fn pixel_trame_ordonne(p: Couleur, niveau: int, taille: int) -> Couleur {
    if luminosite_spec(p) * (taille * taille) > niveau * 2550000 {
        blanc()
    } else {
        noir()
    }
}

/// The Bayer level ordered dithering reads for the pixel at raster index
/// `k`: the matrix is tiled over the image, the first index taken from
/// the column, the second from the row.
pub open spec fn niveau_bayer(m: Seq<Vec<u32>>, k: int, largeur: int, taille: int) -> int {
    m[(k % largeur) % taille]@[(k / largeur) % taille] as int
}

/// Ordered dithering against a square threshold matrix, tiled over the
/// image: pixel (x, y) is compared against cell (x mod side, y mod side).
pub fn tramage_ordonne(grille: &mut GrillePixels, matrice_bayer: &Vec<Vec<u32>>)
    requires
        old(grille).bien_formee(),
        old(grille).largeur >= 1,
        1 <= matrice_bayer@.len() <= 65536,
        forall|i: int|
            0 <= i < matrice_bayer@.len() ==> (#[trigger] matrice_bayer@[i])@.len()
                == matrice_bayer@.len(),
    ensures
        final(grille).bien_formee(),
        final(grille).largeur == old(grille).largeur,
        final(grille).hauteur == old(grille).hauteur,
        final(grille).pixels@.len() == old(grille).pixels@.len(),
        forall|k: int|
            0 <= k < old(grille).pixels@.len() ==> final(grille).pixels@[k] == pixel_trame_ordonne(
                old(grille).pixels@[k],
                niveau_bayer(
                    matrice_bayer@,
                    k,
                    old(grille).largeur as int,
                    matrice_bayer@.len() as int,
                ),
                matrice_bayer@.len() as int,
            ),
{
    let taille = matrice_bayer.len();
    proof {
        assert((taille as int) * (taille as int) <= 4294967296) by (nonlinear_arith)
            requires
                0 <= taille as int <= 65536,
        ;
    }
    let taille2: u64 = (taille as u64) * (taille as u64);
    let largeur = grille.largeur;
    let n = grille.pixels.len();
    let mut k: usize = 0;
    while k < n
        invariant
            grille.largeur == old(grille).largeur,
            grille.hauteur == old(grille).hauteur,
            grille.pixels@.len() == old(grille).pixels@.len(),
            largeur == grille.largeur,
            largeur >= 1,
            n == grille.pixels@.len(),
            1 <= taille <= 65536,
            taille == matrice_bayer@.len(),
            taille2 == taille * taille,
            taille2 <= 4294967296,
            forall|i: int|
                0 <= i < taille ==> (#[trigger] matrice_bayer@[i])@.len() == taille,
            k <= n,
            forall|i: int|
                0 <= i < k ==> grille.pixels@[i] == pixel_trame_ordonne(
                    old(grille).pixels@[i],
                    niveau_bayer(matrice_bayer@, i, largeur as int, taille as int),
                    taille as int,
                ),
            forall|i: int| k <= i < n ==> grille.pixels@[i] == old(grille).pixels@[i],
        decreases n - k,
    {
        let x = k % largeur;
        let y = k / largeur;
        let i = x % taille;
        let j = y % taille;
        let niveau = matrice_bayer[i][j];
        let luminosite = luminosite_pixel(&grille.pixels[k]);
        proof {
            assert((luminosite as int) * (taille2 as int) <= 2550000 * 4294967296) by (
            nonlinear_arith)
                requires
                    0 <= luminosite as int <= 2550000,
                    0 <= taille2 as int <= 4294967296,
            ;
        }
        let c = if (luminosite as u64) * taille2 > (niveau as u64) * 2550000u64 {
            Couleur { rouge: 255, vert: 255, bleu: 255 }
        } else {
            Couleur { rouge: 0, vert: 0, bleu: 0 }
        };
        grille.pixels.set(k, c);
        k = k + 1;
    }
}

} // verus!
