use stellaris::color::Rgba;
use stellaris::star::StarType;

fn class(roll: f32) -> StarType {
    StarType::from_roll(roll.to_bits())
}

fn float_from_roll(roll: f32) -> StarType {
    if roll < 0.0001 {
        StarType::O
    } else if roll < 0.0014 {
        StarType::B
    } else if roll < 0.0074 {
        StarType::A
    } else if roll < 0.0374 {
        StarType::F
    } else if roll < 0.113 {
        StarType::G
    } else if roll < 0.234 {
        StarType::K
    } else {
        StarType::M
    }
}

fn rank(t: StarType) -> u32 {
    match t {
        StarType::O => 0,
        StarType::B => 1,
        StarType::A => 2,
        StarType::F => 3,
        StarType::G => 4,
        StarType::K => 5,
        StarType::M => 6,
    }
}

#[test]
fn from_roll_cuts() {
    assert_eq!(class(0.0), StarType::O);
    assert_eq!(class(0.00005), StarType::O);
    assert_eq!(class(0.0001), StarType::B);
    assert_eq!(class(0.001), StarType::B);
    assert_eq!(class(0.0014), StarType::A);
    assert_eq!(class(0.005), StarType::A);
    assert_eq!(class(0.0074), StarType::F);
    assert_eq!(class(0.02), StarType::F);
    assert_eq!(class(0.0374), StarType::G);
    assert_eq!(class(0.1), StarType::G);
    assert_eq!(class(0.113), StarType::K);
    assert_eq!(class(0.2), StarType::K);
    assert_eq!(class(0.234), StarType::M);
    assert_eq!(class(0.999), StarType::M);
    assert_eq!(class(-0.5), StarType::O);
    assert_eq!(class(-0.0), StarType::O);
    assert_eq!(class(f32::NAN), StarType::M);
    assert_eq!(class(f32::INFINITY), StarType::M);
}

#[test]
fn from_roll_agrees_with_float_comparisons_on_a_sweep() {
    let mut roll = 0.0f32;
    while roll < 1.0 {
        assert_eq!(class(roll), float_from_roll(roll), "roll {}", roll);
        let below = f32::from_bits(roll.to_bits().saturating_sub(1));
        assert_eq!(class(below), float_from_roll(below), "roll {}", below);
        roll += 0.00003;
    }
    for t in [0.0001f32, 0.0014, 0.0074, 0.0374, 0.113, 0.234] {
        for d in [-2i64, -1, 0, 1, 2] {
            let r = f32::from_bits((t.to_bits() as i64 + d) as u32);
            assert_eq!(class(r), float_from_roll(r), "roll {}", r);
        }
    }
}

#[test]
fn larger_rolls_are_never_hotter() {
    let mut prev = rank(class(0.0));
    let mut roll = 0.0f32;
    while roll < 1.0 {
        let r = rank(class(roll));
        assert!(r >= prev);
        prev = r;
        roll += 0.0001;
    }
}

#[test]
fn bulge_rolls_are_hot() {
    let mut roll = 0.0f32;
    while roll < 0.004 {
        let t = class(roll);
        assert!(t == StarType::O || t == StarType::B || t == StarType::A);
        roll += 0.00001;
    }
}

#[test]
fn colors_table() {
    assert_eq!(StarType::O.color(), Rgba { r: 155, g: 176, b: 255, a: 255 });
    assert_eq!(StarType::B.color(), Rgba { r: 170, g: 191, b: 255, a: 255 });
    assert_eq!(StarType::A.color(), Rgba { r: 213, g: 224, b: 255, a: 255 });
    assert_eq!(StarType::F.color(), Rgba { r: 248, g: 247, b: 255, a: 255 });
    assert_eq!(StarType::G.color(), Rgba { r: 255, g: 244, b: 200, a: 255 });
    assert_eq!(StarType::K.color(), Rgba { r: 255, g: 210, b: 140, a: 255 });
    assert_eq!(StarType::M.color(), Rgba { r: 255, g: 150, b: 80, a: 255 });
}

#[test]
fn sizes_in_tenths() {
    let all = [StarType::O, StarType::B, StarType::A, StarType::F, StarType::G, StarType::K, StarType::M];
    let sizes = [14.0f32, 11.0, 9.0, 7.5, 6.0, 5.0, 3.5];
    let boards = [2.2f32, 1.8, 1.4, 1.1, 0.9, 0.7, 0.5];
    for i in 0..all.len() {
        assert_eq!(all[i].size() as f32 / 10.0, sizes[i]);
        assert_eq!(all[i].billboard_size() as f32 / 10.0, boards[i]);
        if i > 0 {
            assert!(all[i].size() < all[i - 1].size());
            assert!(all[i].billboard_size() < all[i - 1].billboard_size());
        }
    }
}

#[test]
fn core_stars_are_o_or_b() {
    assert_eq!(StarType::core_from_roll(0.0f32.to_bits()), StarType::O);
    assert_eq!(StarType::core_from_roll(0.149f32.to_bits()), StarType::O);
    assert_eq!(StarType::core_from_roll(0.15f32.to_bits()), StarType::B);
    assert_eq!(StarType::core_from_roll(0.9f32.to_bits()), StarType::B);
}
