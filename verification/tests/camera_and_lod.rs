use stellaris::camera::{clamp_pitch, Cam};
use stellaris::renderer::{boost_tenths, cluster_culled, fading, lensed, core_boost, star_lod, CoreBoost, Lod};

fn b(x: f32) -> u32 {
    x.to_bits()
}

#[test]
fn camera_starts_in_the_middle_tier() {
    let c = Cam::new();
    assert_eq!(c.palier(), 2);
    assert_eq!(c.speed(), 40);
}

#[test]
fn wheel_moves_one_tier_and_saturates() {
    let mut c = Cam::new();
    c.update_speed(b(1.0));
    assert_eq!(c.palier(), 3);
    assert_eq!(c.speed(), 120);
    c.update_speed(b(1.0));
    assert_eq!(c.palier(), 3);
    c.update_speed(b(0.5));
    assert_eq!(c.palier(), 3);
    c.update_speed(b(-1.0));
    assert_eq!(c.palier(), 2);
    c.update_speed(b(-0.5));
    assert_eq!(c.palier(), 2);
    c.update_speed(b(-3.0));
    assert_eq!(c.palier(), 1);
    assert_eq!(c.speed(), 20);
    c.update_speed(b(-3.0));
    assert_eq!(c.palier(), 1);
    c.update_speed(b(0.2));
    assert_eq!(c.palier(), 1);
    c.update_speed(b(f32::NAN));
    assert_eq!(c.palier(), 1);
}

#[test]
fn pitch_is_limited() {
    assert_eq!(f32::from_bits(clamp_pitch(b(2.0))), 1.48);
    assert_eq!(f32::from_bits(clamp_pitch(b(-2.0))), -1.48);
    assert_eq!(f32::from_bits(clamp_pitch(b(0.3))), 0.3);
    assert!(f32::from_bits(clamp_pitch(b(f32::NAN))).is_nan());
}

#[test]
fn level_of_detail() {
    let cull = 450.0f32 * 450.0;
    let board = 60.0f32 * 60.0;
    let lod = |d: f32| star_lod(b(d * d), b(cull), b(board), b(d));
    assert_eq!(lod(500.0), Lod::Culled);
    assert_eq!(lod(450.0), Lod::Point);
    assert_eq!(lod(60.0), Lod::Point);
    assert_eq!(lod(59.0), Lod::Far);
    assert_eq!(lod(40.0), Lod::Far);
    assert_eq!(lod(39.9), Lod::Mid);
    assert_eq!(lod(15.0), Lod::Mid);
    assert_eq!(lod(14.9), Lod::Near);
    assert_eq!(lod(0.0), Lod::Near);
}

#[test]
fn black_hole_boost() {
    assert_eq!(core_boost(&vec![]), CoreBoost::Plain);
    assert_eq!(core_boost(&vec![b(100.0), b(300.0), b(250.0)]), CoreBoost::Plain);
    assert_eq!(core_boost(&vec![b(2.0), b(300.0), b(250.0)]), CoreBoost::Core);
    assert_eq!(core_boost(&vec![b(4.0), b(300.0), b(250.0)]), CoreBoost::Halo);
    assert_eq!(core_boost(&vec![b(2.0), b(4.0), b(250.0)]), CoreBoost::Halo);
    assert_eq!(core_boost(&vec![b(4.0), b(2.9), b(250.0)]), CoreBoost::Core);
    assert_eq!(core_boost(&vec![b(5.0), b(3.0)]), CoreBoost::Halo);
    assert_eq!(boost_tenths(CoreBoost::Plain), 10);
    assert_eq!(boost_tenths(CoreBoost::Halo), 18);
    assert_eq!(boost_tenths(CoreBoost::Core), 90);
}

#[test]
fn distant_clusters_are_culled() {
    assert!(cluster_culled((451.0f32 * 451.0).to_bits()));
    assert!(!cluster_culled((450.0f32 * 450.0).to_bits()));
    assert!(!cluster_culled(100.0f32.to_bits()));
}

#[test]
fn lensing_and_fading() {
    let reach = 5.5f32 * 3.0;
    assert!(lensed(b(2.0), b(reach)));
    assert!(!lensed(b(reach), b(reach)));
    assert!(!lensed(b(100.0), b(reach)));
    let fade_start = 60.0f32 * 0.75;
    assert!(fading(b(50.0), b(fade_start)));
    assert!(!fading(b(45.0), b(fade_start)));
    assert!(!fading(b(20.0), b(fade_start)));
}
