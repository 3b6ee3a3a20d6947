use mermaid_it::facade::finish_render;
use mermaid_it::format::OutputFormat;
use mermaid_it::options::RenderOptions;
use mermaid_it::scale::Scale;

const FIXTURE: &str = "<svg xmlns=\"http://www.w3.org/2000/svg\" width=\"400\" height=\"300\">\
    <rect x=\"20\" y=\"20\" width=\"160\" height=\"120\" fill=\"red\"/>\
    </svg>";

#[test]
fn vector_output_is_the_markup_itself() {
    let options = RenderOptions::default();
    let out = finish_render(FIXTURE, OutputFormat::Svg, &options).unwrap();
    assert_eq!(out, FIXTURE.as_bytes());
}

#[test]
fn default_options_give_an_eight_hundred_by_six_hundred_raster() {
    let svg = "<svg xmlns=\"http://www.w3.org/2000/svg\" width=\"800\" height=\"600\">\
        <rect x=\"10\" y=\"10\" width=\"100\" height=\"100\" fill=\"red\"/></svg>";
    let options = RenderOptions::default();
    let out = finish_render(svg, OutputFormat::Png, &options).unwrap();
    let img = image::load_from_memory(&out).expect("decodable image");
    assert_eq!((img.width(), img.height()), (800, 600));
}

#[test]
fn lossless_raster_honors_width_height_and_scale() {
    let options = RenderOptions {
        width: 400,
        height: 300,
        scale: Scale::from_milli(2000),
        ..RenderOptions::default()
    };
    let out = finish_render(FIXTURE, OutputFormat::Png, &options).unwrap();
    let img = image::load_from_memory(&out).expect("decodable image");
    assert_eq!((img.width(), img.height()), (800, 600));
}

#[test]
fn jpg_and_jpeg_tokens_share_one_encoder() {
    let options = RenderOptions::default();
    let a = finish_render(FIXTURE, OutputFormat::Jpg, &options).unwrap();
    let b = finish_render(FIXTURE, OutputFormat::Jpeg, &options).unwrap();
    assert_eq!(a, b);
}

#[test]
fn render_options_default_matches_the_documented_values() {
    let options = RenderOptions::default();
    assert_eq!(options.width, 800);
    assert_eq!(options.height, 600);
    assert_eq!(options.background, "white");
    assert_eq!(options.theme, "default");
    assert_eq!(options.scale.milli, 1000);
    assert_eq!(options.quality, 90);
}
