//! The catalog of error-diffusion kernels: four fixed weight matrices.
//!
//! Weights are exact rationals: integer numerators over a common
//! denominator per kernel. Simple2D, Floyd-Steinberg and
//! Jarvis-Judice-Ninke weights sum to their denominator (the weights sum
//! to one); Atkinson deliberately sums to 6 over 8, discarding a quarter
//! of the error.
use vstd::prelude::*;
use core::str::FromStr;

use crate::palette::chaines_equivalentes;
use crate::palette::noms_equivalents;

verus! {

/// A diffusion kernel: weight numerators over one common denominator. The
/// anchor (the pixel being quantized) sits at the center cell.
#[derive(Debug)]
pub struct MatriceDiffusion {
    pub poids: Vec<Vec<u32>>,
    pub denominateur: u32,
}

impl MatriceDiffusion {
    /// A kernel is well formed when it is a non-empty rectangle with a
    /// non-zero denominator.
    pub open spec fn bien_formee(self) -> bool {
        &&& self.denominateur >= 1
        &&& self.poids@.len() >= 1
        &&& self.poids@[0]@.len() >= 1
        &&& forall|i: int|
            0 <= i < self.poids@.len() ==> (#[trigger] self.poids@[i])@.len()
                == self.poids@[0]@.len()
    }
}

/// The four built-in diffusion kernels, selectable by name.
#[derive(Clone, Copy, Debug, PartialEq, Eq, Structural)]
pub enum MatriceDiffusionErreur {
    Simple2D,
    FloydSteinberg,
    JarvisJudiceNinke,
    Atkinson,
}

impl MatriceDiffusionErreur {
    /// Parses a kernel name regardless of ASCII case.
    pub fn depuis_nom(s: &str) -> (r: Option<MatriceDiffusionErreur>)
        ensures
            chaines_equivalentes(s@, "simple2d"@) ==> r == Some(MatriceDiffusionErreur::Simple2D),
            !chaines_equivalentes(s@, "simple2d"@) && chaines_equivalentes(s@, "floydsteinberg"@)
                ==> r == Some(MatriceDiffusionErreur::FloydSteinberg),
            !chaines_equivalentes(s@, "simple2d"@) && !chaines_equivalentes(s@, "floydsteinberg"@)
                && chaines_equivalentes(s@, "jarvisjudiceninke"@) ==> r == Some(
                MatriceDiffusionErreur::JarvisJudiceNinke,
            ),
            !chaines_equivalentes(s@, "simple2d"@) && !chaines_equivalentes(s@, "floydsteinberg"@)
                && !chaines_equivalentes(s@, "jarvisjudiceninke"@) && chaines_equivalentes(
                s@,
                "atkinson"@,
            ) ==> r == Some(MatriceDiffusionErreur::Atkinson),
            !chaines_equivalentes(s@, "simple2d"@) && !chaines_equivalentes(s@, "floydsteinberg"@)
                && !chaines_equivalentes(s@, "jarvisjudiceninke"@) && !chaines_equivalentes(
                s@,
                "atkinson"@,
            ) ==> r is None,
    {
        if noms_equivalents(s, "simple2d") {
            Some(MatriceDiffusionErreur::Simple2D)
        } else if noms_equivalents(s, "floydsteinberg") {
            Some(MatriceDiffusionErreur::FloydSteinberg)
        } else if noms_equivalents(s, "jarvisjudiceninke") {
            Some(MatriceDiffusionErreur::JarvisJudiceNinke)
        } else if noms_equivalents(s, "atkinson") {
            Some(MatriceDiffusionErreur::Atkinson)
        } else {
            None
        }
    }
}

impl FromStr for MatriceDiffusionErreur {
    type Err = String;

    fn from_str(s: &str) -> Result<MatriceDiffusionErreur, String> {
        match MatriceDiffusionErreur::depuis_nom(s) {
            Some(m) => Ok(m),
            None => Err("matrice de diffusion d'erreur invalide".to_owned()),
        }
    }
}

/// Builds a 3-element kernel row.
fn ligne3(a: u32, b: u32, c: u32) -> (r: Vec<u32>)
    ensures
        r@ == seq![a, b, c],
{
    let mut r: Vec<u32> = Vec::new();
    r.push(a);
    r.push(b);
    r.push(c);
    proof {
        assert(r@ =~= seq![a, b, c]);
    }
    r
}

/// Builds a 5-element kernel row.
fn ligne5(a: u32, b: u32, c: u32, d: u32, e: u32) -> (r: Vec<u32>)
    ensures
        r@ == seq![a, b, c, d, e],
{
    let mut r: Vec<u32> = Vec::new();
    r.push(a);
    r.push(b);
    r.push(c);
    r.push(d);
    r.push(e);
    proof {
        assert(r@ =~= seq![a, b, c, d, e]);
    }
    r
}

/// The Simple2D weights: half of the error to the right neighbor, half to
/// the one below.
pub open spec fn poids_simple_2_d() -> Seq<Seq<u32>> {
    seq![seq![0u32, 0u32, 0u32], seq![0u32, 0u32, 1u32], seq![0u32, 1u32, 0u32]]
}

/// The Floyd-Steinberg weights, over sixteen.
pub open spec fn poids_floyd_steinberg() -> Seq<Seq<u32>> {
    seq![seq![0u32, 0u32, 0u32], seq![0u32, 0u32, 7u32], seq![3u32, 5u32, 1u32]]
}

/// The Jarvis-Judice-Ninke weights, over forty-eight.
pub open spec fn poids_jarvis_judice_ninke() -> Seq<Seq<u32>> {
    seq![
        seq![0u32, 0u32, 0u32, 0u32, 0u32],
        seq![0u32, 0u32, 0u32, 0u32, 0u32],
        seq![0u32, 0u32, 0u32, 7u32, 5u32],
        seq![3u32, 5u32, 7u32, 5u32, 3u32],
        seq![1u32, 3u32, 5u32, 3u32, 1u32],
    ]
}

/// The Atkinson weights, over eight: six weights of one, so only three
/// quarters of the error is diffused, by design.
pub open spec fn poids_atkinson() -> Seq<Seq<u32>> {
    seq![
        seq![0u32, 0u32, 0u32, 0u32, 0u32],
        seq![0u32, 0u32, 0u32, 0u32, 0u32],
        seq![0u32, 0u32, 0u32, 1u32, 1u32],
        seq![0u32, 1u32, 1u32, 1u32, 0u32],
        seq![0u32, 0u32, 1u32, 0u32, 0u32],
    ]
}

/// The Simple2D kernel: 1/2 right, 1/2 below.
pub fn simple_2_d() -> (r: MatriceDiffusion)
    ensures
        r.denominateur == 2,
        r.poids@.len() == 3,
        forall|i: int| 0 <= i < 3 ==> (#[trigger] r.poids@[i])@ == poids_simple_2_d()[i],
        r.bien_formee(),
{
    let mut poids: Vec<Vec<u32>> = Vec::new();
    poids.push(ligne3(0, 0, 0));
    poids.push(ligne3(0, 0, 1));
    poids.push(ligne3(0, 1, 0));
    MatriceDiffusion { poids, denominateur: 2 }
}

/// The Floyd-Steinberg kernel: 7/16, 3/16, 5/16, 1/16.
pub fn floyd_steinberg() -> (r: MatriceDiffusion)
    ensures
        r.denominateur == 16,
        r.poids@.len() == 3,
        forall|i: int| 0 <= i < 3 ==> (#[trigger] r.poids@[i])@ == poids_floyd_steinberg()[i],
        r.bien_formee(),
{
    let mut poids: Vec<Vec<u32>> = Vec::new();
    poids.push(ligne3(0, 0, 0));
    poids.push(ligne3(0, 0, 7));
    poids.push(ligne3(3, 5, 1));
    MatriceDiffusion { poids, denominateur: 16 }
}

/// The Jarvis-Judice-Ninke kernel, weights over forty-eight.
pub fn jarvis_judice_ninke() -> (r: MatriceDiffusion)
    ensures
        r.denominateur == 48,
        r.poids@.len() == 5,
        forall|i: int| 0 <= i < 5 ==> (#[trigger] r.poids@[i])@ == poids_jarvis_judice_ninke()[i],
        r.bien_formee(),
{
    let mut poids: Vec<Vec<u32>> = Vec::new();
    poids.push(ligne5(0, 0, 0, 0, 0));
    poids.push(ligne5(0, 0, 0, 0, 0));
    poids.push(ligne5(0, 0, 0, 7, 5));
    poids.push(ligne5(3, 5, 7, 5, 3));
    poids.push(ligne5(1, 3, 5, 3, 1));
    MatriceDiffusion { poids, denominateur: 48 }
}

/// The Atkinson kernel: six weights of 1/8.
pub fn atkinson() -> (r: MatriceDiffusion)
    ensures
        r.denominateur == 8,
        r.poids@.len() == 5,
        forall|i: int| 0 <= i < 5 ==> (#[trigger] r.poids@[i])@ == poids_atkinson()[i],
        r.bien_formee(),
{
    let mut poids: Vec<Vec<u32>> = Vec::new();
    poids.push(ligne5(0, 0, 0, 0, 0));
    poids.push(ligne5(0, 0, 0, 0, 0));
    poids.push(ligne5(0, 0, 0, 1, 1));
    poids.push(ligne5(0, 1, 1, 1, 0));
    poids.push(ligne5(0, 0, 1, 0, 0));
    MatriceDiffusion { poids, denominateur: 8 }
}

/// The read-only kernel lookup: the weight matrix of each named kernel.
pub fn matrice_pour(m: &MatriceDiffusionErreur) -> (r: MatriceDiffusion)
    ensures
        r.bien_formee(),
        *m == MatriceDiffusionErreur::Simple2D ==> r.denominateur == 2 && r.poids@.len() == 3 && (
        forall|i: int| 0 <= i < 3 ==> (#[trigger] r.poids@[i])@ == poids_simple_2_d()[i]),
        *m == MatriceDiffusionErreur::FloydSteinberg ==> r.denominateur == 16 && r.poids@.len()
            == 3 && (forall|i: int|
            0 <= i < 3 ==> (#[trigger] r.poids@[i])@ == poids_floyd_steinberg()[i]),
        *m == MatriceDiffusionErreur::JarvisJudiceNinke ==> r.denominateur == 48 && r.poids@.len()
            == 5 && (forall|i: int|
            0 <= i < 5 ==> (#[trigger] r.poids@[i])@ == poids_jarvis_judice_ninke()[i]),
        *m == MatriceDiffusionErreur::Atkinson ==> r.denominateur == 8 && r.poids@.len() == 5 && (
        forall|i: int| 0 <= i < 5 ==> (#[trigger] r.poids@[i])@ == poids_atkinson()[i]),
{
    match m {
        MatriceDiffusionErreur::Simple2D => simple_2_d(),
        MatriceDiffusionErreur::FloydSteinberg => floyd_steinberg(),
        MatriceDiffusionErreur::JarvisJudiceNinke => jarvis_judice_ninke(),
        MatriceDiffusionErreur::Atkinson => atkinson(),
    }
}

} // verus!
