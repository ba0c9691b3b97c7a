use ditherpunk::couleur::{distance_couleurs, luminosite_pixel, Couleur};
use ditherpunk::diffusion::{diffusion_erreur, diffusion_erreur_generique};
use ditherpunk::grille::{recuperer_pixel, transformer_pixels_un_sur_deux, GrillePixels};
use ditherpunk::noyau::{
    atkinson, floyd_steinberg, jarvis_judice_ninke, matrice_pour, simple_2_d,
    MatriceDiffusionErreur,
};
use ditherpunk::palette::{
    couleur_la_plus_proche, creer_liste_couleurs, obtenir_couleur_par_nom, tronquer_palette,
};
use ditherpunk::traitement::{
    couleurs_seuil_blanc_dessus, couleurs_seuil_noir_dessus, monochrome_par_palette,
    monochrome_par_seuillage, pixel_tramage_aleatoire, tramage_aleatoire, tramage_ordonne, Methode,
};
use ditherpunk::Erreur;

fn rgb(r: u8, v: u8, b: u8) -> Couleur {
    Couleur {
        rouge: r,
        vert: v,
        bleu: b,
    }
}

fn grille(largeur: usize, hauteur: usize, pixels: Vec<Couleur>) -> GrillePixels {
    GrillePixels::nouvelle(largeur, hauteur, pixels).unwrap()
}

#[test]
fn luminosite_noir_blanc_rouge() {
    // Scaled by 10000: 0.2126 R + 0.7152 G + 0.0722 B.
    assert_eq!(luminosite_pixel(&rgb(0, 0, 0)), 0);
    assert_eq!(luminosite_pixel(&rgb(255, 255, 255)), 2550000);
    // 0.2126 * 255 = 54.213.
    assert_eq!(luminosite_pixel(&rgb(255, 0, 0)), 542130);
}

#[test]
fn distance_nulle_et_symetrique() {
    let a = rgb(12, 200, 7);
    let b = rgb(255, 0, 99);
    assert_eq!(distance_couleurs(&a, &a), 0);
    assert_eq!(distance_couleurs(&a, &b), distance_couleurs(&b, &a));
    // 3-4-5 in one channel: squared distances are exact.
    assert_eq!(distance_couleurs(&rgb(0, 0, 0), &rgb(3, 4, 0)), 25);
}

#[test]
fn matrice_bayer_ordre_0_et_1() {
    let m0 = ditherpunk::bayer::generer_matrice_bayer(0);
    assert_eq!(m0, vec![vec![0u32]]);
    let m1 = ditherpunk::bayer::generer_matrice_bayer(1);
    assert_eq!(m1, vec![vec![0u32, 2], vec![3, 1]]);
}

#[test]
fn matrice_bayer_ordre_2_permutation() {
    let m2 = ditherpunk::bayer::generer_matrice_bayer(2);
    assert_eq!(
        m2,
        vec![
            vec![0u32, 8, 2, 10],
            vec![12, 4, 14, 6],
            vec![3, 11, 1, 9],
            vec![15, 7, 13, 5],
        ]
    );
    // The 16 entries are exactly 0..16: a permutation.
    let mut vus = vec![false; 16];
    for ligne in &m2 {
        for &v in ligne {
            assert!(v < 16);
            assert!(!vus[v as usize]);
            vus[v as usize] = true;
        }
    }
    assert!(vus.iter().all(|&x| x));
}

#[test]
fn plus_proche_egalite_premier_gagne() {
    // Any gray is equidistant from pure red and pure green: the first
    // palette entry must win.
    let palette = vec![rgb(255, 0, 0), rgb(0, 255, 0)];
    let gris = rgb(128, 128, 128);
    assert_eq!(
        distance_couleurs(&gris, &palette[0]),
        distance_couleurs(&gris, &palette[1])
    );
    assert_eq!(
        couleur_la_plus_proche(&gris, &palette).unwrap(),
        rgb(255, 0, 0)
    );
}

#[test]
fn plus_proche_palette_vide() {
    assert_eq!(
        couleur_la_plus_proche(&rgb(1, 2, 3), &vec![]),
        Err(Erreur::PaletteVide)
    );
}

#[test]
fn seuillage_idempotent() {
    let pixels = vec![rgb(0, 0, 0), rgb(90, 200, 10), rgb(250, 250, 250), rgb(128, 128, 128)];
    let (c1, c2) = couleurs_seuil_blanc_dessus();
    let mut une_fois = grille(2, 2, pixels.clone());
    monochrome_par_seuillage(&mut une_fois, c1, c2);
    let mut deux_fois = grille(2, 2, pixels);
    monochrome_par_seuillage(&mut deux_fois, c1, c2);
    monochrome_par_seuillage(&mut deux_fois, c1, c2);
    assert_eq!(une_fois.pixels, deux_fois.pixels);
}

#[test]
fn sommes_des_poids_des_noyaux() {
    // Simple2D, Floyd-Steinberg and Jarvis-Judice-Ninke weights sum to 1;
    // Atkinson deliberately sums to 6/8 = 0.75.
    for (matrice, somme_attendue) in [
        (simple_2_d(), 1.0f64),
        (floyd_steinberg(), 1.0),
        (jarvis_judice_ninke(), 1.0),
        (atkinson(), 0.75),
    ] {
        let somme: u64 = matrice
            .poids
            .iter()
            .map(|l| l.iter().map(|&w| w as u64).sum::<u64>())
            .sum();
        let rapport = somme as f64 / matrice.denominateur as f64;
        assert!((rapport - somme_attendue).abs() < 1e-6);
    }
}

#[test]
fn seuillage_gris_moyen_tout_couleur_2() {
    // luminance(128,128,128) == 128.0 exactly: not above the threshold,
    // so every pixel takes couleur_2 (black under the white-above
    // convention).
    let mut g = grille(2, 2, vec![rgb(128, 128, 128); 4]);
    let (c1, c2) = couleurs_seuil_blanc_dessus();
    monochrome_par_seuillage(&mut g, c1, c2);
    assert_eq!(g.pixels, vec![rgb(0, 0, 0); 4]);
    // The other convention puts white below the threshold.
    let mut g2 = grille(2, 2, vec![rgb(128, 128, 128); 4]);
    let (d1, d2) = couleurs_seuil_noir_dessus();
    monochrome_par_seuillage(&mut g2, d1, d2);
    assert_eq!(g2.pixels, vec![rgb(255, 255, 255); 4]);
}

#[test]
fn palette_pixel_sombre_vers_noir() {
    // distance((10,10,10), noir) = 17.3 against 424.3 for blanc.
    let mut g = grille(1, 1, vec![rgb(10, 10, 10)]);
    monochrome_par_palette(&mut g, vec![rgb(0, 0, 0), rgb(255, 255, 255)]).unwrap();
    assert_eq!(g.pixels, vec![rgb(0, 0, 0)]);
}

#[test]
fn palette_vide_grille_inchangee() {
    let mut g = grille(1, 1, vec![rgb(10, 10, 10)]);
    assert_eq!(
        monochrome_par_palette(&mut g, vec![]),
        Err(Erreur::PaletteVide)
    );
    assert_eq!(g.pixels, vec![rgb(10, 10, 10)]);
}

#[test]
fn diffusion_floyd_steinberg_1x2() {
    // (200,200,200) quantizes to white, error -55 per channel; 7/16 of it
    // reaches the right pixel: 50 + (-55 * 7) / 16 gives 25 after exact
    // truncation, which then quantizes to black.
    let mut g = grille(2, 1, vec![rgb(200, 200, 200), rgb(50, 50, 50)]);
    diffusion_erreur_generique(
        &mut g,
        vec![rgb(0, 0, 0), rgb(255, 255, 255)],
        floyd_steinberg(),
    )
    .unwrap();
    assert_eq!(g.pixels, vec![rgb(255, 255, 255), rgb(0, 0, 0)]);
}

#[test]
fn diffusion_simple_2_d_fixe() {
    // The non-generic entry point uses the black/white palette and the
    // Simple2D kernel: half of the error goes right, half below.
    let mut g = grille(2, 1, vec![rgb(200, 200, 200), rgb(50, 50, 50)]);
    diffusion_erreur(&mut g).unwrap();
    // First pixel: white, error -55; right neighbor: (50·2 - 55)/2 = 22.
    assert_eq!(g.pixels, vec![rgb(255, 255, 255), rgb(0, 0, 0)]);

    let mut seul = grille(1, 1, vec![rgb(100, 100, 100)]);
    diffusion_erreur(&mut seul).unwrap();
    assert_eq!(seul.pixels, vec![rgb(0, 0, 0)]);
}

#[test]
fn diffusion_palette_vide() {
    let mut g = grille(1, 1, vec![rgb(9, 9, 9)]);
    assert_eq!(
        diffusion_erreur_generique(&mut g, vec![], simple_2_d()),
        Err(Erreur::PaletteVide)
    );
    assert_eq!(g.pixels, vec![rgb(9, 9, 9)]);
}

#[test]
fn tramage_ordonne_seuils_exacts() {
    // 2x2 Bayer matrix tiled over a 2x2 image; pixel (x, y) reads level
    // matrice[x % 2][y % 2]: levels 0, 3, 2, 1 in raster order. White
    // needs luminance/255 > level/4; gray 191 has luminance/255 = 0.7490,
    // above 0/4, 2/4 and 1/4 but not above 3/4.
    let matrice = ditherpunk::bayer::generer_matrice_bayer(1);
    let mut g = grille(2, 2, vec![rgb(191, 191, 191); 4]);
    tramage_ordonne(&mut g, &matrice);
    assert_eq!(
        g.pixels,
        vec![
            rgb(255, 255, 255),
            rgb(0, 0, 0),
            rgb(255, 255, 255),
            rgb(255, 255, 255)
        ]
    );
}

#[test]
fn decision_du_tramage_aleatoire() {
    // Threshold 0: white exactly when luminance is non-zero.
    assert_eq!(pixel_tramage_aleatoire(&rgb(0, 0, 0), 0), rgb(0, 0, 0));
    assert_eq!(pixel_tramage_aleatoire(&rgb(1, 1, 1), 0), rgb(255, 255, 255));
    // Largest threshold, 1 - 2^-32: only pure white clears it.
    assert_eq!(
        pixel_tramage_aleatoire(&rgb(255, 255, 255), u32::MAX),
        rgb(255, 255, 255)
    );
    assert_eq!(
        pixel_tramage_aleatoire(&rgb(254, 254, 254), u32::MAX),
        rgb(0, 0, 0)
    );
}

#[test]
fn tramage_aleatoire_noir_ou_blanc() {
    let mut g = grille(4, 4, (0..16).map(|i| rgb(i * 16, 100, 200)).collect());
    tramage_aleatoire(&mut g);
    for p in &g.pixels {
        assert!(*p == rgb(0, 0, 0) || *p == rgb(255, 255, 255));
    }
}

#[test]
fn catalogue_et_recherche_par_nom() {
    let couleurs = creer_liste_couleurs();
    assert_eq!(couleurs.len(), 8);
    // The eight canonical names resolve, regardless of case.
    for (nom, attendu) in [
        ("noir", rgb(0, 0, 0)),
        ("blanc", rgb(255, 255, 255)),
        ("rouge", rgb(255, 0, 0)),
        ("vert", rgb(0, 255, 0)),
        ("bleu", rgb(0, 0, 255)),
        ("jaune", rgb(255, 255, 0)),
        ("magenta", rgb(255, 0, 255)),
        ("cyan", rgb(0, 255, 255)),
    ] {
        assert_eq!(obtenir_couleur_par_nom(nom, &couleurs).unwrap(), attendu);
    }
    assert_eq!(
        obtenir_couleur_par_nom("NOIR", &couleurs).unwrap(),
        rgb(0, 0, 0)
    );
    assert_eq!(
        obtenir_couleur_par_nom("Magenta", &couleurs).unwrap(),
        rgb(255, 0, 255)
    );
    assert_eq!(
        obtenir_couleur_par_nom("turquoise", &couleurs),
        Err(Erreur::CouleurInconnue)
    );
}

#[test]
fn troncature_de_palette() {
    let couleurs = creer_liste_couleurs();
    let palette = tronquer_palette(&couleurs, 2).unwrap();
    assert_eq!(palette, vec![rgb(0, 0, 0), rgb(255, 255, 255)]);
    assert_eq!(
        tronquer_palette(&couleurs, 9),
        Err(Erreur::PaletteTropGrande)
    );
}

#[test]
fn acces_pixel_et_bornes() {
    let g = grille(2, 2, vec![rgb(1, 0, 0), rgb(2, 0, 0), rgb(3, 0, 0), rgb(4, 0, 0)]);
    assert_eq!(recuperer_pixel(&g, 1, 0).unwrap(), rgb(2, 0, 0));
    assert_eq!(recuperer_pixel(&g, 0, 1).unwrap(), rgb(3, 0, 0));
    assert_eq!(recuperer_pixel(&g, 2, 0), Err(Erreur::HorsLimites));
    assert_eq!(
        GrillePixels::nouvelle(2, 2, vec![rgb(0, 0, 0); 3]).err(),
        Some(Erreur::HorsLimites)
    );
}

#[test]
fn un_pixel_sur_deux_en_blanc() {
    let mut g = grille(2, 2, vec![rgb(1, 0, 0), rgb(2, 0, 0), rgb(3, 0, 0), rgb(4, 0, 0)]);
    transformer_pixels_un_sur_deux(&mut g);
    assert_eq!(
        g.pixels,
        vec![rgb(255, 255, 255), rgb(2, 0, 0), rgb(3, 0, 0), rgb(255, 255, 255)]
    );
}

#[test]
fn analyse_des_noms_de_matrices() {
    assert_eq!(
        "FloydSteinberg".parse::<MatriceDiffusionErreur>(),
        Ok(MatriceDiffusionErreur::FloydSteinberg)
    );
    assert_eq!(
        "ATKINSON".parse::<MatriceDiffusionErreur>(),
        Ok(MatriceDiffusionErreur::Atkinson)
    );
    assert_eq!(
        "simple2d".parse::<MatriceDiffusionErreur>(),
        Ok(MatriceDiffusionErreur::Simple2D)
    );
    assert_eq!(
        "jarvisjudiceninke".parse::<MatriceDiffusionErreur>(),
        Ok(MatriceDiffusionErreur::JarvisJudiceNinke)
    );
    assert!("bayer".parse::<MatriceDiffusionErreur>().is_err());
}

#[test]
fn analyse_des_noms_de_methodes() {
    assert_eq!("Aleatoire".parse::<Methode>(), Ok(Methode::Aleatoire));
    assert_eq!("ordonne".parse::<Methode>(), Ok(Methode::Ordonne));
    assert!("zigzag".parse::<Methode>().is_err());
}

#[test]
fn noyau_selon_le_nom() {
    let m = matrice_pour(&MatriceDiffusionErreur::FloydSteinberg);
    assert_eq!(m.denominateur, 16);
    assert_eq!(m.poids, vec![vec![0u32, 0, 0], vec![0, 0, 7], vec![3, 5, 1]]);
    let a = matrice_pour(&MatriceDiffusionErreur::Atkinson);
    assert_eq!(a.denominateur, 8);
    assert_eq!(a.poids.len(), 5);
}
