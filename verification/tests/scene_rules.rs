use rand::rngs::StdRng;
use rand::{Rng, SeedableRng};

use stellaris::blackhole::{disk_color, DISK_PARTICLES};
use stellaris::color::Rgba;
use stellaris::config::Config;
use stellaris::dust::{draw_disk_shade, draw_sphere_shade, is_bright, tint_of, DustTint};
use stellaris::events::{draw_cluster_size, far_from_all, event_schedule, kind_of, member_count, quota, EventType};
use stellaris::galaxy::{clamp_roll, draw_arm, draw_arm_count, is_tilted};
use stellaris::nebula::{cloud_color, jitter_channel, shifted_cloud_color, CLOUDS_PER_NEBULA};
use stellaris::shooting_star::{is_active, spawns, trail_alpha, POOL_SIZE};

#[test]
fn schedule_is_fixed() {
    let s = event_schedule();
    assert_eq!(s.len(), 40);
    let mut expected = Vec::new();
    for (k, n) in [
        (EventType::Supernova, 12),
        (EventType::Pulsar, 10),
        (EventType::AmasGlobulaire, 8),
        (EventType::EtoileBinaire, 8),
        (EventType::Quasar, 2),
    ] {
        for _ in 0..n {
            expected.push(k);
        }
    }
    assert_eq!(s, expected);
    assert_eq!(quota(), vec![(0u8, 12u32), (1, 10), (2, 8), (3, 8), (4, 2)]);
}

#[test]
fn kinds_and_members() {
    assert_eq!(kind_of(0), EventType::Supernova);
    assert_eq!(kind_of(1), EventType::Pulsar);
    assert_eq!(kind_of(2), EventType::AmasGlobulaire);
    assert_eq!(kind_of(3), EventType::EtoileBinaire);
    assert_eq!(kind_of(4), EventType::Quasar);
    assert_eq!(kind_of(200), EventType::Quasar);
    assert_eq!(member_count(EventType::AmasGlobulaire, 57), 57);
    assert_eq!(member_count(EventType::EtoileBinaire, 57), 2);
    assert_eq!(member_count(EventType::Supernova, 57), 0);
    assert_eq!(member_count(EventType::Pulsar, 57), 0);
    assert_eq!(member_count(EventType::Quasar, 57), 0);
}

#[test]
fn cluster_size_is_the_generator_draw() {
    for seed in 0..50u64 {
        let mut a = StdRng::seed_from_u64(seed);
        let mut b = StdRng::seed_from_u64(seed);
        let n = draw_cluster_size(&mut a);
        assert!((40..=80).contains(&n));
        assert_eq!(n, b.gen_range(40..=80usize));
    }
}

#[test]
fn channel_jitter_clamps() {
    assert_eq!(jitter_channel(10, -20), 0);
    assert_eq!(jitter_channel(250, 20), 255);
    assert_eq!(jitter_channel(100, 7), 107);
    assert_eq!(jitter_channel(100, -7), 93);
    assert_eq!(jitter_channel(0, 0), 0);
}

#[test]
fn cloud_color_is_the_generator_draw() {
    let base = Rgba::new(153, 178, 255, 255);
    for seed in 0..50u64 {
        let mut a = StdRng::seed_from_u64(seed);
        let mut b = StdRng::seed_from_u64(seed);
        let c = cloud_color(&mut a, base);
        let dr = b.gen_range(-20i32..=20);
        let dg = b.gen_range(-20i32..=20);
        let db = b.gen_range(-20i32..=20);
        let want = Rgba::new(
            (153 + dr).clamp(0, 255) as u8,
            (178 + dg).clamp(0, 255) as u8,
            (255 + db).clamp(0, 255) as u8,
            80,
        );
        assert_eq!(c, want);
        assert!(c.b <= 255 && c.b >= 235);
    }
}

#[test]
fn dust_tints() {
    assert_eq!(tint_of(0), DustTint::Bluish);
    assert_eq!(tint_of(14), DustTint::Bluish);
    assert_eq!(tint_of(15), DustTint::Warm);
    assert_eq!(tint_of(24), DustTint::Warm);
    assert_eq!(tint_of(25), DustTint::Grey);
    assert_eq!(tint_of(99), DustTint::Grey);
    let counts = (0..100u8).fold((0, 0, 0), |(b, w, g), t| match tint_of(t) {
        DustTint::Bluish => (b + 1, w, g),
        DustTint::Warm => (b, w + 1, g),
        DustTint::Grey => (b, w, g + 1),
    });
    assert_eq!(counts, (15, 10, 75));
}

#[test]
fn dust_shades_are_the_generator_draws() {
    for seed in 0..30u64 {
        let mut a = StdRng::seed_from_u64(seed);
        let mut b = StdRng::seed_from_u64(seed);
        let s = draw_sphere_shade(&mut a);
        assert_eq!(s.v, b.gen_range(55u8..110));
        assert_eq!(s.a, b.gen_range(100u8..230));
        assert_eq!(s.teinte, b.gen_range(0u8..100));
        let d = draw_disk_shade(&mut a);
        assert_eq!(d.v, b.gen_range(60u8..100));
        assert_eq!(d.a, b.gen_range(100u8..220));
        assert_eq!(d.teinte, 100);
        assert_eq!(tint_of(d.teinte), DustTint::Grey);
    }
}

#[test]
fn galaxy_draws_are_the_generator_draws() {
    for seed in [42u64, 137, 271, 7, 8] {
        let mut a = StdRng::seed_from_u64(seed);
        let mut b = StdRng::seed_from_u64(seed);
        let n = draw_arm_count(&mut a);
        assert!((3..=5).contains(&n));
        assert_eq!(n, b.gen_range(3u32..=5));
        for _ in 0..20 {
            let arm = draw_arm(&mut a, n);
            assert!(arm < n);
            assert_eq!(arm, b.gen_range(0..n));
        }
    }
}

#[test]
fn biased_rolls_and_tilt() {
    for x in [-1.0f32, 0.0, 0.0005, 0.001, 0.5, 0.999, 0.9995, 2.0] {
        assert_eq!(f32::from_bits(clamp_roll(x.to_bits())), x.clamp(0.001, 0.999));
    }
    assert!(is_tilted((-0.22f32).to_bits()));
    assert!(is_tilted(0.18f32.to_bits()));
    assert!(!is_tilted(0.0f32.to_bits()));
    assert!(!is_tilted((-0.0005f32).to_bits()));
    assert!(!is_tilted(0.001f32.to_bits()));
}

#[test]
fn trail_and_activity() {
    assert_eq!(POOL_SIZE, 8);
    assert_eq!(trail_alpha(1), 140);
    assert_eq!(trail_alpha(2), 80);
    assert_eq!(trail_alpha(3), 40);
    assert!(!is_active((-999.0f32).to_bits(), 0.5f32.to_bits(), 2.0f32.to_bits()));
    assert!(is_active(3.0f32.to_bits(), 0.5f32.to_bits(), 2.0f32.to_bits()));
    assert!(!is_active(3.0f32.to_bits(), 2.0f32.to_bits(), 2.0f32.to_bits()));
    assert!(spawns(0.001f32.to_bits()));
    assert!(!spawns(0.003f32.to_bits()));
    assert!(!spawns(0.5f32.to_bits()));
}

#[test]
fn presets() {
    let h = Config::high();
    let l = Config::low();
    assert_eq!(h.total_stars(), 75_600);
    assert_eq!(h.total_dust(), 55_000);
    assert_eq!(l.total_stars(), 39_000);
    assert_eq!(l.nb_etoiles_par_galaxie, 12_800);
    assert_eq!(l.total_dust(), 28_000);
    assert!(h.bloom_actif);
    assert!(!l.bloom_actif);
    assert_eq!(h.seuil_culling_etoiles, 450);
    assert_eq!(l.seuil_billboard, 40);
}

#[test]
fn accretion_disk_colors() {
    assert_eq!(DISK_PARTICLES, 36);
    assert_eq!(disk_color(0.9f32.to_bits(), 10), Rgba::new(255, 245, 190, 255));
    assert_eq!(disk_color(0.65f32.to_bits(), 154), Rgba::new(255, 154, 15, 255));
    assert_eq!(disk_color(0.1f32.to_bits(), 83), Rgba::new(255, 83, 15, 255));
}

#[test]
fn event_clearance_from_galaxies() {
    let none: Vec<u32> = Vec::new();
    assert!(far_from_all(&none));
    let clear: Vec<u32> = vec![30.0f32.to_bits(), 100.0f32.to_bits(), 250.0f32.to_bits()];
    assert!(far_from_all(&clear));
    let close: Vec<u32> = vec![31.0f32.to_bits(), 29.9f32.to_bits(), 250.0f32.to_bits()];
    assert!(!far_from_all(&close));
    let undefined: Vec<u32> = vec![f32::NAN.to_bits()];
    assert!(!far_from_all(&undefined));
}

#[test]
fn cloud_channels_follow_their_offsets() {
    assert_eq!(CLOUDS_PER_NEBULA, 60);
    let base = Rgba::new(255, 102, 102, 255);
    assert_eq!(shifted_cloud_color(base, 5, -20, 20), Rgba::new(255, 82, 122, 80));
    assert_eq!(shifted_cloud_color(base, -20, 3, -1), Rgba::new(235, 105, 101, 80));
    let dark = Rgba::new(10, 0, 250, 255);
    assert_eq!(shifted_cloud_color(dark, -15, -1, 10), Rgba::new(0, 0, 255, 80));
}

#[test]
fn bright_dust_roll() {
    assert!(is_bright(0.0f32.to_bits()));
    assert!(is_bright(0.079f32.to_bits()));
    assert!(!is_bright(0.08f32.to_bits()));
    assert!(!is_bright(0.5f32.to_bits()));
}
