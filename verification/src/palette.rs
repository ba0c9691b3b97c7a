//! Palette operations: the fixed eight-color catalog, case-insensitive
//! name lookup, truncation, and nearest-color search with a first-entry
//! tie-break.
use vstd::prelude::*;
use vstd::string::StrSliceExecFns;

use crate::couleur::Couleur;
use crate::couleur::distance_carree_spec;
use crate::couleur::distance_couleurs;
use crate::Erreur;

verus! {

/// The code point of a character once ASCII upper case letters are folded
/// to lower case; other characters are left as they are.
pub open spec fn code_minuscule(c: char) -> int {
    if 65 <= c as int <= 90 {
        c as int + 32
    } else {
        c as int
    }
}

/// Two characters match regardless of ASCII case.
pub open spec fn cars_equivalents_spec(a: char, b: char) -> bool {
    code_minuscule(a) == code_minuscule(b)
}

/// Two strings match regardless of ASCII case.
pub open spec fn chaines_equivalentes(a: Seq<char>, b: Seq<char>) -> bool {
    a.len() == b.len() && forall|i: int| 0 <= i < a.len() ==> cars_equivalents_spec(a[i], b[i])
}

fn cars_equivalents(a: char, b: char) -> (r: bool)
    ensures
        r == cars_equivalents_spec(a, b),
{
    let ac = a as u32;
    let bc = b as u32;
    let af = if 65 <= ac && ac <= 90 {
        ac + 32
    } else {
        ac
    };
    let bf = if 65 <= bc && bc <= 90 {
        bc + 32
    } else {
        bc
    };
    af == bf
}

/// Compares two names regardless of ASCII case: the normalization every
/// name lookup applies.
pub fn noms_equivalents(a: &str, b: &str) -> (r: bool)
    ensures
        r == chaines_equivalentes(a@, b@),
{
    let la = a.unicode_len();
    let lb = b.unicode_len();
    if la != lb {
        return false;
    }
    let mut i: usize = 0;
    while i < la
        invariant
            la == a@.len(),
            lb == b@.len(),
            la == lb,
            i <= la,
            forall|j: int| 0 <= j < i ==> cars_equivalents_spec(a@[j], b@[j]),
        decreases la - i,
    {
        if !cars_equivalents(a.get_char(i), b.get_char(i)) {
            return false;
        }
        i = i + 1;
    }
    true
}

/// The fixed catalog: eight canonical named colors, in the order palette
/// truncation uses.
pub fn creer_liste_couleurs() -> (r: Vec<(&'static str, Couleur)>)
    ensures
        r@.len() == 8,
        r@[0].0@ == "noir"@ && r@[0].1 == (Couleur { rouge: 0, vert: 0, bleu: 0 }),
        r@[1].0@ == "blanc"@ && r@[1].1 == (Couleur { rouge: 255, vert: 255, bleu: 255 }),
        r@[2].0@ == "rouge"@ && r@[2].1 == (Couleur { rouge: 255, vert: 0, bleu: 0 }),
        r@[3].0@ == "vert"@ && r@[3].1 == (Couleur { rouge: 0, vert: 255, bleu: 0 }),
        r@[4].0@ == "bleu"@ && r@[4].1 == (Couleur { rouge: 0, vert: 0, bleu: 255 }),
        r@[5].0@ == "jaune"@ && r@[5].1 == (Couleur { rouge: 255, vert: 255, bleu: 0 }),
        r@[6].0@ == "magenta"@ && r@[6].1 == (Couleur { rouge: 255, vert: 0, bleu: 255 }),
        r@[7].0@ == "cyan"@ && r@[7].1 == (Couleur { rouge: 0, vert: 255, bleu: 255 }),
{
    let mut r: Vec<(&'static str, Couleur)> = Vec::new();
    r.push(("noir", Couleur { rouge: 0, vert: 0, bleu: 0 }));
    r.push(("blanc", Couleur { rouge: 255, vert: 255, bleu: 255 }));
    r.push(("rouge", Couleur { rouge: 255, vert: 0, bleu: 0 }));
    r.push(("vert", Couleur { rouge: 0, vert: 255, bleu: 0 }));
    r.push(("bleu", Couleur { rouge: 0, vert: 0, bleu: 255 }));
    r.push(("jaune", Couleur { rouge: 255, vert: 255, bleu: 0 }));
    r.push(("magenta", Couleur { rouge: 255, vert: 0, bleu: 255 }));
    r.push(("cyan", Couleur { rouge: 0, vert: 255, bleu: 255 }));
    r
}

/// Some entry of the list carries a name that matches `nom` regardless of
/// ASCII case.
pub open spec fn nom_present(nom: Seq<char>, liste: Seq<(&str, Couleur)>) -> bool {
    exists|i: int| 0 <= i < liste.len() && chaines_equivalentes(liste[i].0@, nom)
}

/// Looks a color up by name in the catalog, regardless of ASCII case; the
/// first matching entry wins. An unknown name is a fatal error.
pub fn obtenir_couleur_par_nom(nom: &str, liste_couleurs: &Vec<(&'static str, Couleur)>) -> (r:
    Result<Couleur, Erreur>)
    ensures
        nom_present(nom@, liste_couleurs@) ==> (r is Ok && exists|i: int|
            0 <= i < liste_couleurs@.len() && chaines_equivalentes(liste_couleurs@[i].0@, nom@)
                && r->Ok_0 == liste_couleurs@[i].1 && (forall|j: int|
                0 <= j < i ==> !chaines_equivalentes(liste_couleurs@[j].0@, nom@))),
        !nom_present(nom@, liste_couleurs@) ==> r == Err::<Couleur, Erreur>(
            Erreur::CouleurInconnue,
        ),
{
    let n = liste_couleurs.len();
    let mut i: usize = 0;
    while i < n
        invariant
            n == liste_couleurs@.len(),
            i <= n,
            forall|j: int| 0 <= j < i ==> !chaines_equivalentes(liste_couleurs@[j].0@, nom@),
        decreases n - i,
    {
        if noms_equivalents(liste_couleurs[i].0, nom) {
            return Ok(liste_couleurs[i].1);
        }
        i = i + 1;
    }
    Err(Erreur::CouleurInconnue)
}

/// Takes the first `n` colors of the catalog, in catalog order. Asking for
/// more colors than the catalog holds is a fatal configuration error.
pub fn tronquer_palette(liste_couleurs: &Vec<(&'static str, Couleur)>, n: usize) -> (r: Result<
    Vec<Couleur>,
    Erreur,
>)
    ensures
        n > liste_couleurs@.len() ==> r == Err::<Vec<Couleur>, Erreur>(Erreur::PaletteTropGrande),
        n <= liste_couleurs@.len() ==> (r is Ok && r->Ok_0@.len() == n && (forall|i: int|
            0 <= i < n ==> r->Ok_0@[i] == liste_couleurs@[i].1)),
{
    if n > liste_couleurs.len() {
        return Err(Erreur::PaletteTropGrande);
    }
    let mut palette: Vec<Couleur> = Vec::new();
    let mut i: usize = 0;
    while i < n
        invariant
            n <= liste_couleurs@.len(),
            i <= n,
            palette@.len() == i,
            forall|j: int| 0 <= j < i ==> palette@[j] == liste_couleurs@[j].1,
        decreases n - i,
    {
        palette.push(liste_couleurs[i].1);
        i = i + 1;
    }
    Ok(palette)
}

/// The index of the palette entry nearest to `p` among the first `n`
/// entries; on equal distances the earlier entry is kept (strict
/// improvement only).
pub open spec fn indice_plus_proche(p: Couleur, s: Seq<Couleur>, n: int) -> int
    decreases n,
{
    if n <= 1 {
        0
    } else {
        let prec = indice_plus_proche(p, s, n - 1);
        if distance_carree_spec(p, s[n - 1]) < distance_carree_spec(p, s[prec]) {
            n - 1
        } else {
            prec
        }
    }
}

/// The palette color nearest to `p`, ties broken toward the first entry.
pub open spec fn plus_proche_spec(p: Couleur, s: Seq<Couleur>) -> Couleur {
    s[indice_plus_proche(p, s, s.len() as int)]
}

/// The nearest-entry index is within range, achieves the minimum distance
/// over the first `n` entries, and no earlier entry comes as close: the
/// first entry achieving the minimum wins.
pub proof fn lemma_plus_proche_minimal(p: Couleur, s: Seq<Couleur>, n: int)
    requires
        1 <= n <= s.len(),
    ensures
        0 <= indice_plus_proche(p, s, n) < n,
        forall|j: int|
            0 <= j < n ==> distance_carree_spec(p, s[indice_plus_proche(p, s, n)])
                <= distance_carree_spec(p, #[trigger] s[j]),
        forall|j: int|
            0 <= j < indice_plus_proche(p, s, n) ==> distance_carree_spec(p, #[trigger] s[j])
                > distance_carree_spec(p, s[indice_plus_proche(p, s, n)]),
    decreases n,
{
    if n > 1 {
        lemma_plus_proche_minimal(p, s, n - 1);
    }
}

/// The palette entry nearest to the pixel, by squared Euclidean distance,
/// the FIRST entry achieving the minimum winning. An empty palette is a
/// caller error.
pub fn couleur_la_plus_proche(pixel: &Couleur, couleurs_palette: &Vec<Couleur>) -> (r: Result<
    Couleur,
    Erreur,
>)
    ensures
        couleurs_palette@.len() == 0 ==> r == Err::<Couleur, Erreur>(Erreur::PaletteVide),
        couleurs_palette@.len() > 0 ==> r == Ok::<Couleur, Erreur>(
            plus_proche_spec(*pixel, couleurs_palette@),
        ),
{
    let n = couleurs_palette.len();
    if n == 0 {
        return Err(Erreur::PaletteVide);
    }
    let mut meilleur: usize = 0;
    let mut distance_min: u32 = distance_couleurs(pixel, &couleurs_palette[0]);
    let mut i: usize = 1;
    while i < n
        invariant
            n == couleurs_palette@.len(),
            1 <= i <= n,
            meilleur == indice_plus_proche(*pixel, couleurs_palette@, i as int),
            0 <= meilleur < i,
            distance_min == distance_carree_spec(*pixel, couleurs_palette@[meilleur as int]),
        decreases n - i,
    {
        let distance = distance_couleurs(pixel, &couleurs_palette[i]);
        if distance < distance_min {
            distance_min = distance;
            meilleur = i;
        }
        i = i + 1;
    }
    Ok(couleurs_palette[meilleur])
}

} // verus!
