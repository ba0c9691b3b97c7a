//! Recursive construction of the Bayer ordered-dither threshold matrix.
//!
//! The matrix of order `k` has side length `2^k`. Order 0 is the 1×1 matrix
//! holding 0; order `k` tiles four copies of the order-`k−1` matrix `M` as
//! quadrants `4M`, `4M+2` / `4M+3`, `4M+1` (top-left, top-right,
//! bottom-left, bottom-right). Entries are the integers `0 .. 4^k − 1`,
//! each exactly once; the generator never normalizes, callers divide by
//! `side²` at the point of comparison.
use vstd::prelude::*;
use vstd::arithmetic::power2::pow2;
use vstd::arithmetic::power2::lemma_pow2_unfold;
use vstd::arithmetic::power2::lemma2_to64;

verus! {

/// Side length of the Bayer matrix of a given order: `2^ordre`.
pub open spec fn cote_bayer(ordre: nat) -> nat
    decreases ordre,
{
    if ordre == 0 {
        1
    } else {
        2 * cote_bayer((ordre - 1) as nat)
    }
}

/// The side length of the order-`ordre` matrix is `2^ordre`.
pub proof fn lemma_cote_bayer_pow2(ordre: nat)
    ensures
        cote_bayer(ordre) == pow2(ordre),
    decreases ordre,
{
    if ordre == 0 {
        lemma2_to64();
    } else {
        lemma_cote_bayer_pow2((ordre - 1) as nat);
        lemma_pow2_unfold(ordre);
    }
}

/// The threshold level at row `i`, column `j` of the Bayer matrix of the
/// given order, following the recursive quadrant construction.
pub open spec fn valeur_bayer(ordre: nat, i: int, j: int) -> int
    decreases ordre,
{
    if ordre == 0 {
        0
    } else {
        let s = cote_bayer((ordre - 1) as nat) as int;
        if i < s && j < s {
            4 * valeur_bayer((ordre - 1) as nat, i, j)
        } else if j >= s && i < s {
            4 * valeur_bayer((ordre - 1) as nat, i, j - s) + 2
        } else if i >= s && j < s {
            4 * valeur_bayer((ordre - 1) as nat, i - s, j) + 3
        } else {
            4 * valeur_bayer((ordre - 1) as nat, i - s, j - s) + 1
        }
    }
}

/// Every entry of the order-`ordre` Bayer matrix lies in `[0, side²)`:
/// together with injectivity this makes the entries a permutation of
/// `0 .. 4^ordre − 1` (the dispersed-dot property).
pub proof fn lemma_valeur_bayer_bornee(ordre: nat, i: int, j: int)
    requires
        0 <= i < cote_bayer(ordre),
        0 <= j < cote_bayer(ordre),
    ensures
        0 <= valeur_bayer(ordre, i, j) < cote_bayer(ordre) * cote_bayer(ordre),
    decreases ordre,
{
    if ordre == 0 {
    } else {
        let s = cote_bayer((ordre - 1) as nat) as int;
        let c = cote_bayer(ordre) as int;
        assert(c == 2 * s);
        let (i2, j2): (int, int) = (if i < s { i } else { i - s }, if j < s { j } else { j - s });
        lemma_valeur_bayer_bornee((ordre - 1) as nat, i2, j2);
        let v = valeur_bayer((ordre - 1) as nat, i2, j2);
        assert(4 * v + 3 < (2 * s) * (2 * s)) by (nonlinear_arith)
            requires
                v < s * s,
        ;
    }
}

/// Two distinct cells of the Bayer matrix hold distinct threshold levels:
/// with the bound above, the entries form a permutation of
/// `0 .. 4^ordre − 1`.
pub proof fn lemma_valeur_bayer_injective(ordre: nat, i1: int, j1: int, i2: int, j2: int)
    requires
        0 <= i1 < cote_bayer(ordre),
        0 <= j1 < cote_bayer(ordre),
        0 <= i2 < cote_bayer(ordre),
        0 <= j2 < cote_bayer(ordre),
        valeur_bayer(ordre, i1, j1) == valeur_bayer(ordre, i2, j2),
    ensures
        i1 == i2 && j1 == j2,
    decreases ordre,
{
    if ordre == 0 {
    } else {
        let s = cote_bayer((ordre - 1) as nat) as int;
        let (a1, b1): (int, int) = (
            if i1 < s {
                i1
            } else {
                i1 - s
            },
            if j1 < s {
                j1
            } else {
                j1 - s
            },
        );
        let (a2, b2): (int, int) = (
            if i2 < s {
                i2
            } else {
                i2 - s
            },
            if j2 < s {
                j2
            } else {
                j2 - s
            },
        );
        let v1 = valeur_bayer((ordre - 1) as nat, a1, b1);
        let v2 = valeur_bayer((ordre - 1) as nat, a2, b2);
        let o1: int = if i1 < s && j1 < s {
            0
        } else if j1 >= s && i1 < s {
            2
        } else if i1 >= s && j1 < s {
            3
        } else {
            1
        };
        let o2: int = if i2 < s && j2 < s {
            0
        } else if j2 >= s && i2 < s {
            2
        } else if i2 >= s && j2 < s {
            3
        } else {
            1
        };
        assert(valeur_bayer(ordre, i1, j1) == 4 * v1 + o1);
        assert(valeur_bayer(ordre, i2, j2) == 4 * v2 + o2);
        // The offset tells the quadrant apart: 4·v1 + o1 == 4·v2 + o2 with
        // offsets in [0, 4) forces o1 == o2, hence the same quadrant.
        assert(o1 == o2 && v1 == v2) by (nonlinear_arith)
            requires
                4 * v1 + o1 == 4 * v2 + o2,
                0 <= o1 < 4,
                0 <= o2 < 4,
        ;
        lemma_valeur_bayer_injective((ordre - 1) as nat, a1, b1, a2, b2);
    }
}

/// Generates the Bayer matrix of the given order: a square matrix of side
/// `2^ordre` whose cell `(i, j)` holds `valeur_bayer(ordre, i, j)`.
pub fn generer_matrice_bayer(ordre: u32) -> (r: Vec<Vec<u32>>)
    requires
        ordre <= 12,
    ensures
        r@.len() == cote_bayer(ordre as nat),
        forall|i: int| 0 <= i < r@.len() ==> (#[trigger] r@[i])@.len() == cote_bayer(ordre as nat),
        forall|i: int, j: int|
            0 <= i < r@.len() && 0 <= j < r@.len() ==> #[trigger] r@[i]@[j] == valeur_bayer(
                ordre as nat,
                i,
                j,
            ),
    decreases ordre,
{
    proof {
        lemma_cote_bayer_pow2(ordre as nat);
        lemma2_to64();
    }
    if ordre == 0 {
        let mut ligne: Vec<u32> = Vec::new();
        ligne.push(0);
        let mut matrice: Vec<Vec<u32>> = Vec::new();
        matrice.push(ligne);
        return matrice;
    }
    let precedente = generer_matrice_bayer(ordre - 1);
    let taille = precedente.len();
    proof {
        lemma_cote_bayer_pow2((ordre - 1) as nat);
        assert(taille <= 2048);
    }
    let nouvelle_taille = taille * 2;
    let mut matrice: Vec<Vec<u32>> = Vec::new();
    let mut i: usize = 0;
    while i < nouvelle_taille
        invariant
            ordre >= 1,
            taille == cote_bayer((ordre - 1) as nat),
            1 <= taille <= 2048,
            nouvelle_taille == 2 * taille,
            nouvelle_taille == cote_bayer(ordre as nat),
            precedente@.len() == taille,
            forall|a: int|
                0 <= a < taille ==> (#[trigger] precedente@[a])@.len() == taille,
            forall|a: int, b: int|
                0 <= a < taille && 0 <= b < taille ==> #[trigger] precedente@[a]@[b]
                    == valeur_bayer((ordre - 1) as nat, a, b),
            i <= nouvelle_taille,
            matrice@.len() == i,
            forall|a: int|
                0 <= a < i ==> (#[trigger] matrice@[a])@.len() == nouvelle_taille,
            forall|a: int, b: int|
                0 <= a < i && 0 <= b < nouvelle_taille ==> #[trigger] matrice@[a]@[b]
                    == valeur_bayer(ordre as nat, a, b),
        decreases nouvelle_taille - i,
    {
        let mut ligne: Vec<u32> = Vec::new();
        let mut j: usize = 0;
        while j < nouvelle_taille
            invariant
                ordre >= 1,
                taille == cote_bayer((ordre - 1) as nat),
                1 <= taille <= 2048,
                nouvelle_taille == 2 * taille,
                nouvelle_taille == cote_bayer(ordre as nat),
                precedente@.len() == taille,
                forall|a: int|
                    0 <= a < taille ==> (#[trigger] precedente@[a])@.len() == taille,
                forall|a: int, b: int|
                    0 <= a < taille && 0 <= b < taille ==> #[trigger] precedente@[a]@[b]
                        == valeur_bayer((ordre - 1) as nat, a, b),
                i < nouvelle_taille,
                j <= nouvelle_taille,
                ligne@.len() == j,
                forall|b: int|
                    0 <= b < j ==> ligne@[b] == valeur_bayer(ordre as nat, i as int, b),
            decreases nouvelle_taille - j,
        {
            let gi = if i < taille {
                i
            } else {
                i - taille
            };
            let gj = if j < taille {
                j
            } else {
                j - taille
            };
            proof {
                lemma_valeur_bayer_bornee((ordre - 1) as nat, gi as int, gj as int);
                assert(taille * taille <= 4194304) by (nonlinear_arith)
                    requires
                        0 <= taille <= 2048,
                ;
            }
            let base = 4 * precedente[gi][gj];
            let valeur = if i < taille && j < taille {
                base
            } else if i < taille {
                base + 2
            } else if j < taille {
                base + 3
            } else {
                base + 1
            };
            ligne.push(valeur);
            j = j + 1;
        }
        matrice.push(ligne);
        i = i + 1;
    }
    matrice
}

} // verus!
