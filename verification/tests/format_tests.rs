use mermaid_it::errors::MermaidError;
use mermaid_it::facade::select_format;
use mermaid_it::format::OutputFormat;

#[test]
fn from_str_recognizes_every_token() {
    assert!(matches!(OutputFormat::from_str("svg"), Some(OutputFormat::Svg)));
    assert!(matches!(OutputFormat::from_str("png"), Some(OutputFormat::Png)));
    assert!(matches!(OutputFormat::from_str("jpg"), Some(OutputFormat::Jpg)));
    assert!(matches!(OutputFormat::from_str("jpeg"), Some(OutputFormat::Jpeg)));
    assert!(matches!(OutputFormat::from_str("webp"), Some(OutputFormat::Webp)));
    assert!(matches!(OutputFormat::from_str("gif"), Some(OutputFormat::Gif)));
}

#[test]
fn from_str_ignores_ascii_case() {
    assert!(matches!(OutputFormat::from_str("SVG"), Some(OutputFormat::Svg)));
    assert!(matches!(OutputFormat::from_str("Png"), Some(OutputFormat::Png)));
    assert!(matches!(OutputFormat::from_str("JpEg"), Some(OutputFormat::Jpeg)));
    assert!(matches!(OutputFormat::from_str("WEBP"), Some(OutputFormat::Webp)));
    assert!(matches!(OutputFormat::from_str("GiF"), Some(OutputFormat::Gif)));
}

#[test]
fn from_str_rejects_unknown_tokens() {
    assert!(OutputFormat::from_str("bmp").is_none());
    assert!(OutputFormat::from_str("").is_none());
    assert!(OutputFormat::from_str("svgz").is_none());
    assert!(OutputFormat::from_str("pn").is_none());
    assert!(OutputFormat::from_str("tiff").is_none());
}

#[test]
fn select_format_accepts_known_tokens() {
    assert!(matches!(select_format("svg"), Ok(OutputFormat::Svg)));
    assert!(matches!(select_format("JPEG"), Ok(OutputFormat::Jpeg)));
}

#[test]
fn select_format_reports_the_offending_token() {
    match select_format("bmp") {
        Err(MermaidError::InvalidFormat { format }) => assert_eq!(format, "bmp"),
        other => panic!("expected InvalidFormat, got {:?}", other),
    }
}
