use terrain::color::{Attenuation, Band, Rgb, UNIT, WATER_LINE};
use terrain::shadow::{march_step, March};
use terrain::{apply_shadow, band_of, center_dist_sq, color_for, palette, Array2, Corners, Grid};

#[test]
fn array2_new_fills_every_cell() {
    let g = Array2::new(3, 2, 7u8);
    assert_eq!(g.width(), 3);
    assert_eq!(g.height(), 2);
    assert_eq!(g.to_vec(), vec![7u8; 6]);
}

#[test]
fn array2_is_row_major() {
    let g = Array2::from_vec(3, 2, vec![0, 1, 2, 3, 4, 5]).unwrap();
    assert_eq!(g.index(2, 1), 5);
    assert_eq!(g.get(0, 1), 3);
    assert_eq!(g.get(2, 0), 2);
}

#[test]
fn array2_from_vec_rejects_wrong_length() {
    assert!(Array2::from_vec(3, 2, vec![0u8; 5]).is_none());
    assert!(Array2::from_vec(usize::MAX, 2, vec![0u8; 5]).is_none());
    assert!(Array2::<u8>::from_vec(0, 5, vec![]).is_some());
}

#[test]
fn array2_set_changes_one_cell() {
    let mut g = Array2::new(2, 2, 0i32);
    g.set(1, 0, 9);
    assert_eq!(g.to_vec(), vec![0, 9, 0, 0]);
}

#[test]
fn grid_from_same_seed_is_identical() {
    let a = Grid::new(4, 4, 42);
    let b = Grid::new(4, 4, 42);
    assert_eq!(a.width(), 4);
    assert_eq!(a.height(), 4);
    for y in 0..4 {
        for x in 0..4 {
            assert_eq!(a.angle_at(x, y), b.angle_at(x, y));
            assert_eq!(a.angle_at(x, y), a.angle_at(x, y));
        }
    }
}

#[test]
fn grid_holds_the_seeded_stream_in_row_major_order() {
    let mut rng = <rand::rngs::StdRng as rand::SeedableRng>::seed_from_u64(7);
    let words: Vec<u32> = (0..12).map(|_| rand::RngCore::next_u32(&mut rng)).collect();
    let g = Grid::new(4, 3, 7);
    for y in 0..3 {
        for x in 0..4 {
            assert_eq!(g.angle_at(x, y), words[y * 4 + x]);
        }
    }
    assert!(words.iter().any(|w| *w != 0));
}

#[test]
fn grid_from_other_seed_differs() {
    let a = Grid::new(4, 4, 1);
    let b = Grid::new(4, 4, 2);
    let mut same = true;
    for y in 0..4 {
        for x in 0..4 {
            same = same && a.angle_at(x, y) == b.angle_at(x, y);
        }
    }
    assert!(!same);
}

#[test]
fn grid_corners_of_a_cell() {
    let g = Grid::from_angles(3, 2, vec![10, 11, 12, 20, 21, 22]).unwrap();
    assert_eq!(
        g.corners(1, 0),
        Some(Corners { top_left: 11, top_right: 12, bottom_left: 21, bottom_right: 22 })
    );
    assert_eq!(g.corners(2, 0), None);
    assert_eq!(g.corners(0, 1), None);
    assert_eq!(g.corners(-1, 0), None);
    assert!(Grid::from_angles(3, 2, vec![1, 2]).is_none());
}

#[test]
fn center_distance_values() {
    assert_eq!(center_dist_sq(4, 4, 2, 2), 0);
    assert_eq!(center_dist_sq(4, 4, 0, 0), 8);
    assert_eq!(center_dist_sq(5, 3, 2, 4), 1 + 4);
    assert_eq!(center_dist_sq(480, 270, 0, 0), 135 * 135 + 240 * 240);
    let big = usize::MAX;
    let d = (big / 2) as u128;
    assert_eq!(center_dist_sq(big, big, 0, 0), 2 * d * d);
}

#[test]
fn bands_at_their_edges() {
    assert_eq!(band_of(0), Band::Water);
    assert_eq!(band_of(WATER_LINE), Band::Water);
    assert_eq!(band_of(111), Band::Sand);
    assert_eq!(band_of(130), Band::Sand);
    assert_eq!(band_of(131), Band::Grass);
    assert_eq!(band_of(150), Band::Grass);
    assert_eq!(band_of(151), Band::DarkGrass);
    assert_eq!(band_of(180), Band::DarkGrass);
    assert_eq!(band_of(181), Band::Rock);
    assert_eq!(band_of(210), Band::Rock);
    assert_eq!(band_of(211), Band::Snow);
    assert_eq!(band_of(255), Band::Snow);
}

#[test]
fn palette_matches_its_hex_codes() {
    let pairs = [
        (Band::Water, "448285"),
        (Band::Sand, "fabd2f"),
        (Band::Grass, "b8bb26"),
        (Band::DarkGrass, "98971a"),
        (Band::Rock, "928374"),
        (Band::Snow, "fbf1c7"),
    ];
    for (band, hex) in pairs {
        assert_eq!(Some(palette(band)), Rgb::from_hex(hex));
    }
}

#[test]
fn from_hex_reads_and_rejects() {
    assert_eq!(Rgb::from_hex("ff0000"), Some(Rgb { r: 255, g: 0, b: 0 }));
    assert_eq!(Rgb::from_hex("0A1b2C"), Some(Rgb { r: 10, g: 27, b: 44 }));
    assert_eq!(Rgb::from_hex("zzzzzz"), None);
    assert_eq!(Rgb::from_hex("fffff"), None);
    assert_eq!(Rgb::from_hex("fffffff"), None);
    assert_eq!(Rgb::from_hex(""), None);
}

#[test]
fn all_zero_heights_give_plain_water() {
    let heights = Array2::new(4, 4, 0u8);
    for y in 0..4 {
        for x in 0..4 {
            let c = color_for(heights.get(x, y), Attenuation::none());
            assert_eq!(c, Rgb { r: 0x44, g: 0x82, b: 0x85 });
        }
    }
}

#[test]
fn shadowed_snow_is_darker_on_every_channel() {
    // 3^-0.4 and 3^-0.5 in 16.16 fixed point.
    let shade = Attenuation { r: 42231, g: 37837, b: 37837 };
    let lit = color_for(255, Attenuation::none());
    let dark = color_for(255, shade);
    assert_eq!(lit, Rgb { r: 0xfb, g: 0xf1, b: 0xc7 });
    assert!(dark.r < lit.r && dark.g < lit.g && dark.b < lit.b);
    assert_eq!(dark, Rgb { r: 161, g: 139, b: 114 });
}

#[test]
fn apply_shadow_truncates_and_holds_at_255() {
    let c = Rgb { r: 100, g: 200, b: 3 };
    let half = Attenuation { r: UNIT / 2, g: UNIT / 2, b: UNIT / 2 };
    assert_eq!(apply_shadow(c, half), Rgb { r: 50, g: 100, b: 1 });
    let triple = Attenuation { r: 3 * UNIT, g: 3 * UNIT, b: 0 };
    assert_eq!(apply_shadow(c, triple), Rgb { r: 255, g: 255, b: 0 });
    assert_eq!(apply_shadow(c, Attenuation::none()), c);
}

#[test]
fn march_step_decisions() {
    assert_eq!(march_step(-1, 0, 4, 4, true, true, true), March::Exit);
    assert_eq!(march_step(0, 4, 4, 4, true, true, true), March::Exit);
    assert_eq!(march_step(4, 0, 4, 4, true, false, false), March::Exit);
    assert_eq!(march_step(1, 1, 4, 4, true, true, true), March::Shadowed);
    assert_eq!(march_step(1, 1, 4, 4, true, true, false), March::Continue);
    assert_eq!(march_step(1, 1, 4, 4, true, false, true), March::Continue);
    assert_eq!(march_step(3, 3, 4, 4, true, false, false), March::Continue);
}

#[test]
fn march_from_water_is_never_shadowed() {
    for x in -1..5 {
        for below in [false, true] {
            for above in [false, true] {
                assert_ne!(march_step(x, 1, 4, 4, false, below, above), March::Shadowed);
            }
        }
    }
}
