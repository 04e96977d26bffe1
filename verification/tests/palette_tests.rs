use hutton32_gpu::palette::{hutton32_colors, match_color, Rgb};

#[test]
fn palette_has_32_colors_with_known_values() {
    let colors = hutton32_colors();
    assert_eq!(colors.len(), 32);
    assert_eq!(colors[0], Rgb { r: 0, g: 0, b: 0 });
    assert_eq!(colors[1], Rgb { r: 255, g: 0, b: 0 });
    assert_eq!(colors[8], Rgb { r: 251, g: 255, b: 0 });
    assert_eq!(colors[13], Rgb { r: 27, g: 176, b: 27 });
    assert_eq!(colors[25], Rgb { r: 0, g: 255, b: 128 });
    assert_eq!(colors[31], Rgb { r: 21, g: 137, b: 137 });
}

#[test]
fn every_palette_color_matches_its_own_index() {
    let colors = hutton32_colors();
    for i in 0..colors.len() {
        assert_eq!(match_color(&colors, colors[i]) as usize, i);
    }
}

#[test]
fn palette_colors_are_pairwise_distinct() {
    let colors = hutton32_colors();
    for i in 0..colors.len() {
        for j in 0..colors.len() {
            if i != j {
                assert_ne!(colors[i], colors[j]);
            }
        }
    }
}

#[test]
fn unmatched_color_matches_background() {
    let colors = hutton32_colors();
    assert_eq!(match_color(&colors, Rgb { r: 1, g: 2, b: 3 }), 0);
    assert_eq!(match_color(&colors, Rgb { r: 254, g: 255, b: 255 }), 0);
}
