//! The two rendering presets offered at start-up, and the star counts they
//! lead to.
use vstd::prelude::*;

verus! {

/// Number of galaxies in the scene.
pub const GALAXY_COUNT: usize = 3;

/// Extra O/B stars added to each galaxy's core.
pub const CORE_STARS_PER_GALAXY: usize = 200;

/// A rendering preset. Distances are in whole scene units.
#[derive(Clone, Copy, Debug, PartialEq, Eq, Structural)]
pub struct Config {
    pub nb_etoiles_par_galaxie: usize,
    pub nb_poussiere_sphere: usize,
    pub nb_poussiere_disque: usize,
    pub seuil_culling_etoiles: u32,
    pub seuil_billboard: u32,
    pub seuil_culling_poussiere: u32,
    pub bloom_actif: bool,
}

/// The stars of the whole scene under a preset: each galaxy's own stars and
/// its core stars.
pub open spec fn scene_stars(c: Config) -> int {
    GALAXY_COUNT * (c.nb_etoiles_par_galaxie + CORE_STARS_PER_GALAXY)
}

/// The dust points of the whole scene under a preset.
pub open spec fn scene_dust(c: Config) -> int {
    c.nb_poussiere_sphere + c.nb_poussiere_disque
}

impl Config {
    /// The HIGH preset, for a dedicated GPU: bloom on, 25 000 stars per
    /// galaxy, 55 000 dust points.
    pub fn high() -> (c: Config)
        ensures
            c == (Config {
                nb_etoiles_par_galaxie: 25_000,
                nb_poussiere_sphere: 40_000,
                nb_poussiere_disque: 15_000,
                seuil_culling_etoiles: 450,
                seuil_billboard: 60,
                seuil_culling_poussiere: 300,
                bloom_actif: true,
            }),
            scene_stars(c) == 75_600,
            scene_dust(c) == 55_000,
            c.seuil_billboard < c.seuil_culling_poussiere < c.seuil_culling_etoiles,
    {
        Config {
            nb_etoiles_par_galaxie: 25_000,
            nb_poussiere_sphere: 40_000,
            nb_poussiere_disque: 15_000,
            seuil_culling_etoiles: 450,
            seuil_billboard: 60,
            seuil_culling_poussiere: 300,
            bloom_actif: true,
        }
    }

    /// The LOW preset, for integrated GPUs: bloom off, 12 800 stars per
    /// galaxy (39 000 in the scene with the core stars), 28 000 dust points,
    /// shorter distances.
    pub fn low() -> (c: Config)
        ensures
            c == (Config {
                nb_etoiles_par_galaxie: 12_800,
                nb_poussiere_sphere: 20_000,
                nb_poussiere_disque: 8_000,
                seuil_culling_etoiles: 300,
                seuil_billboard: 40,
                seuil_culling_poussiere: 200,
                bloom_actif: false,
            }),
            scene_stars(c) == 39_000,
            scene_dust(c) == 28_000,
            c.seuil_billboard < c.seuil_culling_poussiere < c.seuil_culling_etoiles,
    {
        Config {
            nb_etoiles_par_galaxie: 12_800,
            nb_poussiere_sphere: 20_000,
            nb_poussiere_disque: 8_000,
            seuil_culling_etoiles: 300,
            seuil_billboard: 40,
            seuil_culling_poussiere: 200,
            bloom_actif: false,
        }
    }

    /// The number of stars in the scene under this preset.
    pub fn total_stars(&self) -> (n: usize)
        requires
            scene_stars(*self) <= usize::MAX,
        ensures
            n == scene_stars(*self),
    {
        GALAXY_COUNT * (self.nb_etoiles_par_galaxie + CORE_STARS_PER_GALAXY)
    }

    /// The number of dust points in the scene under this preset.
    pub fn total_dust(&self) -> (n: usize)
        requires
            scene_dust(*self) <= usize::MAX,
        ensures
            n == scene_dust(*self),
    {
        self.nb_poussiere_sphere + self.nb_poussiere_disque
    }
}

} // verus!
