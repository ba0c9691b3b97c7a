//! Error diffusion: raster-order quantization to the nearest palette
//! color, with the per-channel signed error spread to neighbors through a
//! weight kernel anchored at the current pixel.
//!
//! Each contribution is the exact rational `erreur · poids / denominateur`,
//! truncated toward zero; the updated channel is clamped to [0, 255].
//! Neighbors outside the grid are skipped, with no wrap-around and no
//! weight renormalization; the kernel is applied as given, row-major,
//! without validation of its shape.
use vstd::prelude::*;
use vstd::pervasive::unreached;
use vstd::arithmetic::div_mod::lemma_fundamental_div_mod_converse;

use crate::couleur::Couleur;
use crate::grille::GrillePixels;
use crate::grille::lemma_indice_grille;
use crate::noyau::MatriceDiffusion;
use crate::noyau::poids_simple_2_d;
use crate::noyau::simple_2_d;
use crate::palette::couleur_la_plus_proche;
use crate::palette::plus_proche_spec;
use crate::couleur::noir;
use crate::couleur::blanc;
use crate::Erreur;

verus! {

/// Integer division rounding toward zero, as the channel updates use.
pub open spec fn div_vers_zero(n: int, d: int) -> int {
    if n >= 0 {
        n / d
    } else {
        -((-n) / d)
    }
}

/// One channel after receiving a diffusion contribution: the exact value
/// `v + e·num/den` truncated toward zero, then clamped to [0, 255].
pub open spec fn canal_diffuse(v: u8, e: int, num: int, den: int) -> u8 {
    let t = div_vers_zero(v * den + e * num, den);
    if t < 0 {
        0u8
    } else if t > 255 {
        255u8
    } else {
        t as u8
    }
}

/// One pixel after receiving a weighted share of the error, channel by
/// channel.
pub open spec fn pixel_diffuse(c: Couleur, er: int, ev: int, eb: int, num: int, den: int) -> Couleur {
    Couleur {
        rouge: canal_diffuse(c.rouge, er, num, den),
        vert: canal_diffuse(c.vert, ev, num, den),
        bleu: canal_diffuse(c.bleu, eb, num, den),
    }
}

/// The kernel rows as plain sequences.
pub open spec fn vue_poids(p: Seq<Vec<u32>>) -> Seq<Seq<u32>> {
    p.map_values(|v: Vec<u32>| v@)
}

/// The grid after the first `m` kernel cells, in row-major order, have
/// each pushed their share of the error `(er, ev, eb)` from the anchor
/// `(x, y)` to their neighbor; cells aiming outside the grid do nothing.
pub open spec fn appliquer_noyau(
    g: Seq<Couleur>,
    largeur: int,
    hauteur: int,
    x: int,
    y: int,
    er: int,
    ev: int,
    eb: int,
    noyau: Seq<Seq<u32>>,
    den: int,
    m: int,
) -> Seq<Couleur>
    decreases m,
{
    if m <= 0 {
        g
    } else {
        let g1 = appliquer_noyau(g, largeur, hauteur, x, y, er, ev, eb, noyau, den, m - 1);
        let ln = noyau[0].len() as int;
        let i = (m - 1) / ln;
        let j = (m - 1) % ln;
        let nx = x + j - ln / 2;
        let ny = y + i - noyau.len() / 2;
        if 0 <= nx < largeur && 0 <= ny < hauteur {
            g1.update(
                ny * largeur + nx,
                pixel_diffuse(g1[ny * largeur + nx], er, ev, eb, noyau[i][j] as int, den),
            )
        } else {
            g1
        }
    }
}

/// One step of error diffusion: the pixel at raster index `k` is replaced
/// by its nearest palette color and the signed error, old minus new per
/// channel, is spread through the whole kernel.
pub open spec fn etape_diffusion(
    g: Seq<Couleur>,
    largeur: int,
    hauteur: int,
    palette: Seq<Couleur>,
    noyau: Seq<Seq<u32>>,
    den: int,
    k: int,
) -> Seq<Couleur> {
    let ancien = g[k];
    let nouveau = plus_proche_spec(ancien, palette);
    appliquer_noyau(
        g.update(k, nouveau),
        largeur,
        hauteur,
        k % largeur,
        k / largeur,
        ancien.rouge - nouveau.rouge,
        ancien.vert - nouveau.vert,
        ancien.bleu - nouveau.bleu,
        noyau,
        den,
        noyau.len() * noyau[0].len() as int,
    )
}

/// The grid after the first `k` pixels, in raster order, have been
/// quantized and their error diffused.
pub open spec fn diffusion_jusqua(
    g: Seq<Couleur>,
    largeur: int,
    hauteur: int,
    palette: Seq<Couleur>,
    noyau: Seq<Seq<u32>>,
    den: int,
    k: int,
) -> Seq<Couleur>
    decreases k,
{
    if k <= 0 {
        g
    } else {
        etape_diffusion(
            diffusion_jusqua(g, largeur, hauteur, palette, noyau, den, k - 1),
            largeur,
            hauteur,
            palette,
            noyau,
            den,
            k - 1,
        )
    }
}

/// One channel update, the drawn share of the error taken as an exact
/// rational, truncated toward zero, and the result clamped to [0, 255].
fn canal_diffuse_exec(v: u8, e: i32, num: u32, den: u32) -> (r: u8)
    requires
        den >= 1,
        -255 <= e <= 255,
    ensures
        r == canal_diffuse(v, e as int, num as int, den as int),
{
    proof {
        assert(0 <= (v as int) * (den as int) <= 255 * 4294967295) by (nonlinear_arith)
            requires
                0 <= v as int <= 255,
                0 <= den as int <= 4294967295,
        ;
        assert(-255 * 4294967295 <= (e as int) * (num as int) <= 255 * 4294967295) by (
        nonlinear_arith)
            requires
                -255 <= e as int <= 255,
                0 <= num as int <= 4294967295,
        ;
    }
    let somme: i64 = (v as i64) * (den as i64) + (e as i64) * (num as i64);
    let t: i64 = if somme >= 0 {
        ((somme as u64) / (den as u64)) as i64
    } else {
        let q = ((-somme) as u64) / (den as u64);
        -(q as i64)
    };
    if t < 0 {
        0
    } else if t > 255 {
        255
    } else {
        t as u8
    }
}

/// Error diffusion with an arbitrary kernel: raster-order scan, each
/// pixel quantized to the nearest palette color, the signed error spread
/// to in-bounds neighbors through the kernel, row-major, anchored at the
/// kernel's center. An empty palette is a caller error and leaves the
/// grid untouched.
pub fn diffusion_erreur_generique(
    grille: &mut GrillePixels,
    couleurs_palette: Vec<Couleur>,
    matrice: MatriceDiffusion,
) -> (r: Result<(), Erreur>)
    requires
        old(grille).bien_formee(),
        old(grille).largeur >= 1,
        matrice.bien_formee(),
    ensures
        final(grille).bien_formee(),
        final(grille).largeur == old(grille).largeur,
        final(grille).hauteur == old(grille).hauteur,
        couleurs_palette@.len() == 0 ==> r == Err::<(), Erreur>(Erreur::PaletteVide)
            && final(grille).pixels@ == old(grille).pixels@,
        couleurs_palette@.len() > 0 ==> r == Ok::<(), Erreur>(()) && final(grille).pixels@
            == diffusion_jusqua(
            old(grille).pixels@,
            old(grille).largeur as int,
            old(grille).hauteur as int,
            couleurs_palette@,
            vue_poids(matrice.poids@),
            matrice.denominateur as int,
            old(grille).pixels@.len() as int,
        ),
{
    if couleurs_palette.len() == 0 {
        return Err(Erreur::PaletteVide);
    }
    let largeur = grille.largeur;
    let hauteur = grille.hauteur;
    let n = grille.pixels.len();
    let hauteur_noyau = matrice.poids.len();
    let largeur_noyau = matrice.poids[0].len();
    let demi_h = hauteur_noyau / 2;
    let demi_l = largeur_noyau / 2;
    let ghost noyau = vue_poids(matrice.poids@);
    let ghost den = matrice.denominateur as int;
    let ghost g0 = grille.pixels@;
    proof {
        assert(noyau[0].len() == largeur_noyau);
        assert(noyau.len() == hauteur_noyau);
    }
    let mut k: usize = 0;
    while k < n
        invariant
            grille.largeur == old(grille).largeur,
            grille.hauteur == old(grille).hauteur,
            largeur == grille.largeur,
            hauteur == grille.hauteur,
            largeur >= 1,
            couleurs_palette@.len() > 0,
            matrice.bien_formee(),
            noyau == vue_poids(matrice.poids@),
            den == matrice.denominateur as int,
            noyau.len() == hauteur_noyau,
            noyau[0].len() == largeur_noyau,
            largeur_noyau >= 1,
            hauteur_noyau >= 1,
            demi_h == hauteur_noyau / 2,
            demi_l == largeur_noyau / 2,
            g0 == old(grille).pixels@,
            g0.len() == n,
            n == largeur * hauteur,
            grille.pixels@.len() == n,
            k <= n,
            grille.pixels@ == diffusion_jusqua(
                g0,
                largeur as int,
                hauteur as int,
                couleurs_palette@,
                noyau,
                den,
                k as int,
            ),
        decreases n - k,
    {
        let ghost etat_k = grille.pixels@;
        let x = k % largeur;
        let y = k / largeur;
        let ancien = grille.pixels[k];
        let nouveau = match couleur_la_plus_proche(&ancien, &couleurs_palette) {
            Ok(c) => c,
            Err(_) => unreached(),
        };
        grille.pixels.set(k, nouveau);
        let ghost g1 = grille.pixels@;
        let er: i32 = ancien.rouge as i32 - nouveau.rouge as i32;
        let ev: i32 = ancien.vert as i32 - nouveau.vert as i32;
        let eb: i32 = ancien.bleu as i32 - nouveau.bleu as i32;
        let mut i: usize = 0;
        while i < hauteur_noyau
            invariant
                grille.largeur == old(grille).largeur,
                grille.hauteur == old(grille).hauteur,
                largeur == grille.largeur,
                hauteur == grille.hauteur,
                largeur >= 1,
                matrice.bien_formee(),
                noyau == vue_poids(matrice.poids@),
                den == matrice.denominateur as int,
                noyau.len() == hauteur_noyau,
                noyau[0].len() == largeur_noyau,
                largeur_noyau >= 1,
                hauteur_noyau >= 1,
                demi_h == hauteur_noyau / 2,
                demi_l == largeur_noyau / 2,
                k < n,
                n == largeur * hauteur,
                x == k % largeur,
                y == k / largeur,
                g1.len() == n,
                er == ancien.rouge - nouveau.rouge,
                ev == ancien.vert - nouveau.vert,
                eb == ancien.bleu - nouveau.bleu,
                i <= hauteur_noyau,
                grille.pixels@.len() == n,
                grille.pixels@ == appliquer_noyau(
                    g1,
                    largeur as int,
                    hauteur as int,
                    x as int,
                    y as int,
                    er as int,
                    ev as int,
                    eb as int,
                    noyau,
                    den,
                    i as int * largeur_noyau as int,
                ),
            decreases hauteur_noyau - i,
        {
            let mut j: usize = 0;
            while j < largeur_noyau
                invariant
                    grille.largeur == old(grille).largeur,
                    grille.hauteur == old(grille).hauteur,
                    largeur == grille.largeur,
                    hauteur == grille.hauteur,
                    largeur >= 1,
                    matrice.bien_formee(),
                    noyau == vue_poids(matrice.poids@),
                    den == matrice.denominateur as int,
                    noyau.len() == hauteur_noyau,
                    noyau[0].len() == largeur_noyau,
                    largeur_noyau >= 1,
                    hauteur_noyau >= 1,
                    demi_h == hauteur_noyau / 2,
                    demi_l == largeur_noyau / 2,
                    k < n,
                    n == largeur * hauteur,
                    x == k % largeur,
                    y == k / largeur,
                    g1.len() == n,
                    er == ancien.rouge - nouveau.rouge,
                    ev == ancien.vert - nouveau.vert,
                    eb == ancien.bleu - nouveau.bleu,
                    i < hauteur_noyau,
                    j <= largeur_noyau,
                    grille.pixels@.len() == n,
                    grille.pixels@ == appliquer_noyau(
                        g1,
                        largeur as int,
                        hauteur as int,
                        x as int,
                        y as int,
                        er as int,
                        ev as int,
                        eb as int,
                        noyau,
                        den,
                        i as int * largeur_noyau as int + j as int,
                    ),
                decreases largeur_noyau - j,
            {
                let ghost m = i as int * largeur_noyau as int + j as int;
                proof {
                    assert(0 <= m) by (nonlinear_arith)
                        requires
                            0 <= i as int,
                            0 <= j as int,
                            0 <= largeur_noyau as int,
                            m == i as int * largeur_noyau as int + j as int,
                    ;
                    lemma_fundamental_div_mod_converse(
                        m,
                        largeur_noyau as int,
                        i as int,
                        j as int,
                    );
                }
                let nx = x as i128 + j as i128 - demi_l as i128;
                let ny = y as i128 + i as i128 - demi_h as i128;
                if 0 <= nx && nx < largeur as i128 && 0 <= ny && ny < hauteur as i128 {
                    let nxu = nx as usize;
                    let nyu = ny as usize;
                    proof {
                        lemma_indice_grille(nxu as int, nyu as int, largeur as int, hauteur as int);
                    }
                    let idx = nyu * largeur + nxu;
                    let poids = matrice.poids[i][j];
                    let voisin = grille.pixels[idx];
                    let remplace = Couleur {
                        rouge: canal_diffuse_exec(voisin.rouge, er, poids, matrice.denominateur),
                        vert: canal_diffuse_exec(voisin.vert, ev, poids, matrice.denominateur),
                        bleu: canal_diffuse_exec(voisin.bleu, eb, poids, matrice.denominateur),
                    };
                    grille.pixels.set(idx, remplace);
                }
                j = j + 1;
            }
            i = i + 1;
            proof {
                assert(i as int * largeur_noyau as int == (i - 1) as int * largeur_noyau as int
                    + largeur_noyau as int) by (nonlinear_arith);
            }
        }
        k = k + 1;
        proof {
            assert(grille.pixels@ == etape_diffusion(
                etat_k,
                largeur as int,
                hauteur as int,
                couleurs_palette@,
                noyau,
                den,
                (k - 1) as int,
            ));
        }
    }
    Ok(())
}

/// Error diffusion with the fixed two-color palette black/white and the
/// Simple2D kernel: half of the error to the right neighbor, half below.
pub fn diffusion_erreur(grille: &mut GrillePixels) -> (r: Result<(), Erreur>)
    requires
        old(grille).bien_formee(),
        old(grille).largeur >= 1,
    ensures
        final(grille).bien_formee(),
        final(grille).largeur == old(grille).largeur,
        final(grille).hauteur == old(grille).hauteur,
        r == Ok::<(), Erreur>(()),
        final(grille).pixels@ == diffusion_jusqua(
            old(grille).pixels@,
            old(grille).largeur as int,
            old(grille).hauteur as int,
            seq![noir(), blanc()],
            poids_simple_2_d(),
            2,
            old(grille).pixels@.len() as int,
        ),
{
    let mut palette: Vec<Couleur> = Vec::new();
    palette.push(Couleur { rouge: 0, vert: 0, bleu: 0 });
    palette.push(Couleur { rouge: 255, vert: 255, bleu: 255 });
    proof {
        assert(palette@ =~= seq![noir(), blanc()]);
    }
    let matrice = simple_2_d();
    proof {
        assert(vue_poids(matrice.poids@) =~= poids_simple_2_d());
    }
    match diffusion_erreur_generique(grille, palette, matrice) {
        Ok(()) => Ok(()),
        Err(_) => unreached(),
    }
}

} // verus!
