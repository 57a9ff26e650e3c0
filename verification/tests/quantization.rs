use ascii_art::{glyph_for, ramp_index, GLYPH_COUNT};

#[test]
fn ramp_has_eleven_glyphs() {
    assert_eq!(GLYPH_COUNT, 11);
}

#[test]
fn ends_of_the_range_land_on_the_ends_of_the_ramp() {
    assert_eq!(ramp_index(0), 0);
    assert_eq!(ramp_index(255), GLYPH_COUNT - 1);
    assert_eq!(glyph_for(0), "@");
    assert_eq!(glyph_for(255), ".");
}

#[test]
fn ramp_index_scales_and_rounds_down() {
    assert_eq!(ramp_index(25), 0);
    assert_eq!(ramp_index(26), 1);
    assert_eq!(ramp_index(51), 2);
    assert_eq!(ramp_index(76), 2);
    assert_eq!(ramp_index(127), 4);
    assert_eq!(ramp_index(128), 5);
    assert_eq!(ramp_index(153), 6);
    assert_eq!(ramp_index(229), 8);
    assert_eq!(ramp_index(230), 9);
    assert_eq!(ramp_index(254), 9);
}

#[test]
fn ramp_index_never_decreases_with_luminance() {
    for p1 in 0..=255u8 {
        for p2 in p1..=255u8 {
            assert!(ramp_index(p1) <= ramp_index(p2), "{} and {}", p1, p2);
        }
    }
}

#[test]
fn ramp_index_stays_inside_the_ramp() {
    for p in 0..=255u8 {
        assert!(ramp_index(p) < GLYPH_COUNT);
    }
}

#[test]
fn ramp_index_agrees_with_single_precision_scaling() {
    for p in 0..=255u8 {
        let scaled = (p as f32 / 255.0 * (GLYPH_COUNT - 1) as f32) as usize;
        assert_eq!(ramp_index(p), scaled, "luminance {}", p);
    }
}

#[test]
fn glyphs_follow_the_ramp_from_dense_to_sparse() {
    let ramp = ["@", "#", "S", "%", "?", "*", "+", ";", ":", ",", "."];
    for p in 0..=255u8 {
        assert_eq!(glyph_for(p), ramp[ramp_index(p)]);
    }
    let firsts: Vec<&str> = [0u8, 26, 51, 77, 102, 128, 153, 179, 204, 230, 255]
        .iter()
        .map(|&p| glyph_for(p))
        .collect();
    assert_eq!(firsts, ramp);
}
