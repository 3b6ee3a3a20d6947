use mermaid_it::errors::MermaidError;
use mermaid_it::raster::{png_from_pixels, svg_to_gif, svg_to_jpg, svg_to_png, svg_to_webp};
use mermaid_it::scale::Scale;

const FIXTURE: &str = "<svg xmlns=\"http://www.w3.org/2000/svg\" width=\"400\" height=\"300\">\
    <rect x=\"0\" y=\"0\" width=\"400\" height=\"300\" fill=\"white\"/>\
    <rect x=\"20\" y=\"20\" width=\"160\" height=\"120\" fill=\"red\"/>\
    <circle cx=\"280\" cy=\"150\" r=\"90\" fill=\"blue\"/>\
    <ellipse cx=\"120\" cy=\"220\" rx=\"80\" ry=\"40\" fill=\"green\"/>\
    <line x1=\"0\" y1=\"0\" x2=\"400\" y2=\"300\" stroke=\"black\" stroke-width=\"3\"/>\
    </svg>";

fn dims(bytes: &[u8]) -> (u32, u32) {
    let img = image::load_from_memory(bytes).expect("decodable image");
    (img.width(), img.height())
}

#[test]
fn png_dimensions_equal_scaled_request() {
    let out = svg_to_png(FIXTURE, 400, 300, Scale::from_milli(2000)).unwrap();
    assert_eq!(dims(&out), (800, 600));
}

#[test]
fn png_at_scale_one_round_trips_the_requested_size() {
    let out = svg_to_png(FIXTURE, 400, 300, Scale::one()).unwrap();
    assert_eq!(dims(&out), (400, 300));
}

#[test]
fn jpg_dimensions_equal_scaled_request() {
    let out = svg_to_jpg(FIXTURE, 200, 100, Scale::from_milli(1500), 90).unwrap();
    assert_eq!(dims(&out), (300, 150));
}

#[test]
fn webp_dimensions_equal_scaled_request() {
    let out = svg_to_webp(FIXTURE, 120, 80, Scale::from_milli(2000), 90).unwrap();
    assert_eq!(dims(&out), (240, 160));
}

#[test]
fn gif_dimensions_equal_scaled_request() {
    let out = svg_to_gif(FIXTURE, 50, 40, Scale::from_milli(3000)).unwrap();
    assert_eq!(dims(&out), (150, 120));
}

#[test]
fn jpg_quality_ninety_is_no_larger_than_hundred() {
    let q90 = svg_to_jpg(FIXTURE, 400, 300, Scale::one(), 90).unwrap();
    let q100 = svg_to_jpg(FIXTURE, 400, 300, Scale::one(), 100).unwrap();
    assert!(q90.len() <= q100.len());
}

#[test]
fn jpg_low_and_high_quality_both_succeed_and_order_by_size() {
    let q10 = svg_to_jpg(FIXTURE, 400, 300, Scale::one(), 10).unwrap();
    let q95 = svg_to_jpg(FIXTURE, 400, 300, Scale::one(), 95).unwrap();
    assert!(!q10.is_empty());
    assert!(!q95.is_empty());
    assert!(q95.len() >= q10.len());
}

#[test]
fn zero_width_fails_with_a_render_error() {
    assert!(matches!(
        svg_to_png(FIXTURE, 0, 300, Scale::one()),
        Err(MermaidError::RenderError { .. })
    ));
}

#[test]
fn zero_height_fails_with_a_render_error() {
    assert!(matches!(
        svg_to_jpg(FIXTURE, 400, 0, Scale::one(), 90),
        Err(MermaidError::RenderError { .. })
    ));
}

#[test]
fn scale_rounding_a_dimension_to_zero_fails_with_a_render_error() {
    assert!(matches!(
        svg_to_png(FIXTURE, 400, 300, Scale::from_milli(1)),
        Err(MermaidError::RenderError { .. })
    ));
    assert!(matches!(
        svg_to_webp(FIXTURE, 400, 300, Scale::from_milli(0), 90),
        Err(MermaidError::RenderError { .. })
    ));
}

#[test]
fn malformed_markup_fails_with_a_render_error() {
    assert!(matches!(
        svg_to_png("this is no vector markup", 100, 100, Scale::one()),
        Err(MermaidError::RenderError { .. })
    ));
}

#[test]
fn rasterization_draws_the_markup() {
    let red = "<svg xmlns=\"http://www.w3.org/2000/svg\" width=\"10\" height=\"10\">\
        <rect x=\"0\" y=\"0\" width=\"10\" height=\"10\" fill=\"red\"/></svg>";
    let out = svg_to_png(red, 10, 10, Scale::one()).unwrap();
    let img = image::load_from_memory(&out).unwrap().to_rgba8();
    assert_eq!(img.get_pixel(5, 5).0, [255, 0, 0, 255]);
}

#[test]
fn lossy_raster_falls_back_to_opaque_white() {
    let empty = "<svg xmlns=\"http://www.w3.org/2000/svg\" width=\"10\" height=\"10\"></svg>";
    let out = svg_to_jpg(empty, 10, 10, Scale::one(), 95).unwrap();
    let img = image::load_from_memory(&out).unwrap().to_rgb8();
    let p = img.get_pixel(5, 5).0;
    assert!(p[0] > 240 && p[1] > 240 && p[2] > 240, "expected near-white, got {:?}", p);
}

#[test]
fn png_preserves_pixels_and_alpha() {
    let pixels: Vec<u8> = vec![
        255, 0, 0, 255, 0, 255, 0, 128, 0, 0, 255, 64, 10, 20, 30, 0,
    ];
    let out = png_from_pixels(&pixels, 2, 2).unwrap();
    let img = image::load_from_memory(&out).expect("decodable PNG");
    assert_eq!((img.width(), img.height()), (2, 2));
    assert_eq!(img.to_rgba8().into_raw(), pixels);
}
