//! Color model: 3-channel 8-bit colors, luminance and distance.
//!
//! Luminance uses the ITU-R BT.709 coefficients 0.2126 / 0.7152 / 0.0722,
//! kept exact as an integer scaled by 10000. Distances are compared through
//! the squared Euclidean distance, an exact integer; the square root is
//! strictly monotonic, so every comparison of distances comes out the same.
use vstd::prelude::*;

verus! {

/// A 3-channel 8-bit color value; used both for pixels and palette entries.
#[derive(Clone, Copy, Debug, PartialEq, Eq, Structural)]
pub struct Couleur {
    pub rouge: u8,
    pub vert: u8,
    pub bleu: u8,
}

impl Couleur {
    pub fn nouvelle(rouge: u8, vert: u8, bleu: u8) -> (c: Couleur)
        ensures
            c == (Couleur { rouge, vert, bleu }),
    {
        Couleur { rouge, vert, bleu }
    }
}

pub open spec fn noir() -> Couleur {
    Couleur { rouge: 0, vert: 0, bleu: 0 }
}

pub open spec fn blanc() -> Couleur {
    Couleur { rouge: 255, vert: 255, bleu: 255 }
}

/// Luminance of a color, scaled by 10000: `2126·R + 7152·G + 722·B`.
pub open spec fn luminosite_spec(c: Couleur) -> int {
    2126 * c.rouge + 7152 * c.vert + 722 * c.bleu
}

/// The luminance threshold of the monochrome strategies: 128.0, scaled by 10000.
pub const SEUIL_LUMINOSITE: u32 = 1280000;

/// Luminance of a pixel, scaled by 10000 (exact BT.709 weighted sum).
pub fn luminosite_pixel(pixel: &Couleur) -> (l: u32)
    ensures
        l == luminosite_spec(*pixel),
        l <= 2550000,
{
    2126 * (pixel.rouge as u32) + 7152 * (pixel.vert as u32) + 722 * (pixel.bleu as u32)
}

/// Squared Euclidean distance between two colors in RGB space.
pub open spec fn distance_carree_spec(a: Couleur, b: Couleur) -> int {
    (a.rouge - b.rouge) * (a.rouge - b.rouge) + (a.vert - b.vert) * (a.vert - b.vert) + (a.bleu
        - b.bleu) * (a.bleu - b.bleu)
}

/// Squared Euclidean distance between two colors. Callers only compare
/// distances, and squaring keeps those comparisons exact.
pub fn distance_couleurs(couleur1: &Couleur, couleur2: &Couleur) -> (d: u32)
    ensures
        d == distance_carree_spec(*couleur1, *couleur2),
        d <= 195075,
{
    let dr: i32 = couleur1.rouge as i32 - couleur2.rouge as i32;
    let dv: i32 = couleur1.vert as i32 - couleur2.vert as i32;
    let db: i32 = couleur1.bleu as i32 - couleur2.bleu as i32;
    proof {
        lemma_carre_borne(dr as int);
        lemma_carre_borne(dv as int);
        lemma_carre_borne(db as int);
    }
    (dr * dr + dv * dv + db * db) as u32
}

/// The square of an integer bounded by 255 in absolute value stays below 65026.
proof fn lemma_carre_borne(x: int)
    requires
        -255 <= x <= 255,
    ensures
        0 <= x * x <= 65025,
{
    assert(0 <= x * x <= 65025) by (nonlinear_arith)
        requires
            -255 <= x <= 255,
    ;
}

/// The distance from a color to itself is zero.
pub proof fn lemma_distance_nulle(a: Couleur)
    ensures
        distance_carree_spec(a, a) == 0,
{
}

/// The distance between two colors does not depend on their order.
pub proof fn lemma_distance_symetrique(a: Couleur, b: Couleur)
    ensures
        distance_carree_spec(a, b) == distance_carree_spec(b, a),
{
    assert(distance_carree_spec(a, b) == distance_carree_spec(b, a)) by (nonlinear_arith);
}

/// The cross term of two vectors is bounded by the product of bounds on
/// their norms: from `(s2·uᵢ − s1·vᵢ)² ≥ 0` for each channel.
proof fn lemma_terme_croise(u1: int, u2: int, u3: int, v1: int, v2: int, v3: int, s1: int, s2: int)
    requires
        s1 >= 0,
        s2 >= 0,
        u1 * u1 + u2 * u2 + u3 * u3 <= s1 * s1,
        v1 * v1 + v2 * v2 + v3 * v3 <= s2 * s2,
    ensures
        u1 * v1 + u2 * v2 + u3 * v3 <= s1 * s2,
{
    if s1 == 0 || s2 == 0 {
        if s1 == 0 {
            assert(u1 == 0 && u2 == 0 && u3 == 0) by (nonlinear_arith)
                requires
                    u1 * u1 + u2 * u2 + u3 * u3 <= 0,
            ;
        } else {
            assert(v1 == 0 && v2 == 0 && v3 == 0) by (nonlinear_arith)
                requires
                    v1 * v1 + v2 * v2 + v3 * v3 <= 0,
            ;
        }
        assert(u1 * v1 + u2 * v2 + u3 * v3 <= s1 * s2) by (nonlinear_arith)
            requires
                (u1 == 0 && u2 == 0 && u3 == 0) || (v1 == 0 && v2 == 0 && v3 == 0),
                s1 * s2 == 0 || (s1 > 0 && s2 > 0),
                s1 >= 0 && s2 >= 0,
                s1 == 0 || s2 == 0,
        ;
    } else {
        assert(2 * (s1 * s2) * (u1 * v1) <= (s2 * s2) * (u1 * u1) + (s1 * s1) * (v1 * v1))
            by (nonlinear_arith);
        assert(2 * (s1 * s2) * (u2 * v2) <= (s2 * s2) * (u2 * u2) + (s1 * s1) * (v2 * v2))
            by (nonlinear_arith);
        assert(2 * (s1 * s2) * (u3 * v3) <= (s2 * s2) * (u3 * u3) + (s1 * s1) * (v3 * v3))
            by (nonlinear_arith);
        assert(2 * (s1 * s2) * (u1 * v1 + u2 * v2 + u3 * v3) <= (s2 * s2) * (u1 * u1 + u2 * u2 + u3
            * u3) + (s1 * s1) * (v1 * v1 + v2 * v2 + v3 * v3)) by (nonlinear_arith)
            requires
                2 * (s1 * s2) * (u1 * v1) <= (s2 * s2) * (u1 * u1) + (s1 * s1) * (v1 * v1),
                2 * (s1 * s2) * (u2 * v2) <= (s2 * s2) * (u2 * u2) + (s1 * s1) * (v2 * v2),
                2 * (s1 * s2) * (u3 * v3) <= (s2 * s2) * (u3 * u3) + (s1 * s1) * (v3 * v3),
        ;
        assert((s2 * s2) * (u1 * u1 + u2 * u2 + u3 * u3) <= (s2 * s2) * (s1 * s1))
            by (nonlinear_arith)
            requires
                u1 * u1 + u2 * u2 + u3 * u3 <= s1 * s1,
                s2 * s2 >= 0,
        ;
        assert((s1 * s1) * (v1 * v1 + v2 * v2 + v3 * v3) <= (s1 * s1) * (s2 * s2))
            by (nonlinear_arith)
            requires
                v1 * v1 + v2 * v2 + v3 * v3 <= s2 * s2,
                s1 * s1 >= 0,
        ;
        assert(u1 * v1 + u2 * v2 + u3 * v3 <= s1 * s2) by (nonlinear_arith)
            requires
                2 * (s1 * s2) * (u1 * v1 + u2 * v2 + u3 * v3) <= (s2 * s2) * (s1 * s1) + (s1 * s1)
                    * (s2 * s2),
                s1 > 0,
                s2 > 0,
        ;
    }
}

/// The triangle inequality for the Euclidean color distance, stated over
/// squares to stay within integers: if the distance from `a` to `b` is at
/// most `s1` and the distance from `b` to `c` is at most `s2`, the distance
/// from `a` to `c` is at most `s1 + s2`.
pub proof fn lemma_inegalite_triangulaire(a: Couleur, b: Couleur, c: Couleur, s1: int, s2: int)
    requires
        s1 >= 0,
        s2 >= 0,
        distance_carree_spec(a, b) <= s1 * s1,
        distance_carree_spec(b, c) <= s2 * s2,
    ensures
        distance_carree_spec(a, c) <= (s1 + s2) * (s1 + s2),
{
    let u1 = a.rouge - b.rouge;
    let u2 = a.vert - b.vert;
    let u3 = a.bleu - b.bleu;
    let v1 = b.rouge - c.rouge;
    let v2 = b.vert - c.vert;
    let v3 = b.bleu - c.bleu;
    lemma_terme_croise(u1, u2, u3, v1, v2, v3, s1, s2);
    // Each channel difference from a to c splits as uᵢ + vᵢ.
    assert((u1 + v1) * (u1 + v1) == u1 * u1 + 2 * (u1 * v1) + v1 * v1) by (nonlinear_arith);
    assert((u2 + v2) * (u2 + v2) == u2 * u2 + 2 * (u2 * v2) + v2 * v2) by (nonlinear_arith);
    assert((u3 + v3) * (u3 + v3) == u3 * u3 + 2 * (u3 * v3) + v3 * v3) by (nonlinear_arith);
    assert(distance_carree_spec(a, c) == (u1 + v1) * (u1 + v1) + (u2 + v2) * (u2 + v2) + (u3 + v3)
        * (u3 + v3)) by (nonlinear_arith)
        requires
            u1 + v1 == a.rouge - c.rouge,
            u2 + v2 == a.vert - c.vert,
            u3 + v3 == a.bleu - c.bleu,
            distance_carree_spec(a, c) == (a.rouge - c.rouge) * (a.rouge - c.rouge) + (a.vert
                - c.vert) * (a.vert - c.vert) + (a.bleu - c.bleu) * (a.bleu - c.bleu),
    ;
    assert((s1 + s2) * (s1 + s2) == s1 * s1 + 2 * (s1 * s2) + s2 * s2) by (nonlinear_arith);
}

} // verus!
