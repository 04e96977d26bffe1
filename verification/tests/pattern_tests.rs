use hutton32_gpu::grid::Grid;
use hutton32_gpu::palette::{hutton32_colors, Rgb};
use hutton32_gpu::pattern::load_pattern;
use hutton32_gpu::render::render_rgba;

fn encode_png(width: u32, height: u32, pixels: &[Rgb]) -> Vec<u8> {
    assert_eq!(pixels.len(), (width * height) as usize);
    let mut img = image::RgbaImage::new(width, height);
    for y in 0..height {
        for x in 0..width {
            let p = pixels[(y * width + x) as usize];
            img.put_pixel(x, y, image::Rgba([p.r, p.g, p.b, 255]));
        }
    }
    let mut bytes: Vec<u8> = Vec::new();
    img.write_to(&mut std::io::Cursor::new(&mut bytes), image::ImageFormat::Png)
        .unwrap();
    bytes
}

#[test]
fn png_pattern_decodes_through_the_palette() {
    let colors = hutton32_colors();
    let pixels = vec![colors[1], colors[0], Rgb { r: 10, g: 20, b: 30 }, colors[31]];
    let bytes = encode_png(2, 2, &pixels);
    let grid = load_pattern(&bytes).unwrap();
    assert_eq!(grid.width(), 2);
    assert_eq!(grid.height(), 2);
    assert_eq!(grid.generation(), 0);
    assert_eq!(grid.cells().as_slice(), &[1, 0, 0, 31]);
}

#[test]
fn png_pattern_of_all_palette_colors_round_trips() {
    let colors = hutton32_colors();
    let pixels: Vec<Rgb> = (0..32u8).map(|s| colors[s as usize]).collect();
    let bytes = encode_png(32, 1, &pixels);
    let grid = load_pattern(&bytes).unwrap();
    let states: Vec<u8> = (0..32u8).collect();
    assert_eq!(grid.cells().as_slice(), states.as_slice());
}

#[test]
fn bytes_that_are_no_image_load_nothing() {
    assert!(load_pattern(b"this is not an encoded raster image").is_none());
    assert!(load_pattern(&[]).is_none());
}

#[test]
fn rendering_paints_each_cell_with_its_palette_color() {
    let colors = hutton32_colors();
    let pixels = vec![colors[3], colors[9]];
    let grid = Grid::load(2, 1, &pixels);
    let rgba = render_rgba(&grid, &colors);
    assert_eq!(rgba.len(), 8);
    assert_eq!(&rgba[0..4], &[255, 150, 25, 255]);
    assert_eq!(&rgba[4..8], &[89, 89, 255, 255]);
}

#[test]
fn loading_then_rendering_reproduces_palette_pixels() {
    let colors = hutton32_colors();
    let pixels: Vec<Rgb> = (0..32u8).map(|s| colors[s as usize]).collect();
    let bytes = encode_png(4, 8, &pixels);
    let grid = load_pattern(&bytes).unwrap();
    let rgba = render_rgba(&grid, &colors);
    assert_eq!(rgba.len(), 32 * 4);
    for (i, p) in pixels.iter().enumerate() {
        assert_eq!(&rgba[4 * i..4 * i + 4], &[p.r, p.g, p.b, 255]);
    }
}
