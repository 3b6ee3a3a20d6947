use vstd::prelude::*;

use vstd::string::{StrSliceExecFns, StringSliceAdditionalSpecFns};

use crate::errors::{ErrModel, MermaidError};
use crate::format::{token_matches, OutputFormat};
use crate::options::RenderOptions;
use crate::raster::{
    jpeg_encoding, jpg_convert_ok, gif_encoding, png_convert_ok, png_encoding, raster_result,
    spec_rgb_of, svg_parse_ok, svg_to_gif, svg_to_jpg, svg_to_png, svg_to_webp, webp_convert_ok,
    webp_encoding,
};
use crate::scale::spec_scaled;

verus! {

/// Resolves an output-format token, ignoring ASCII case. An unknown
/// token fails with the invalid-format error carrying that token, and
/// touches nothing else.
pub fn select_format(token: &str) -> (r: Result<OutputFormat, MermaidError>)
    ensures
        (r == Ok::<OutputFormat, MermaidError>(OutputFormat::Svg)) <==> token_matches(
            token@,
            "svg"@,
        ),
        (r == Ok::<OutputFormat, MermaidError>(OutputFormat::Png)) <==> token_matches(
            token@,
            "png"@,
        ),
        (r == Ok::<OutputFormat, MermaidError>(OutputFormat::Jpg)) <==> token_matches(
            token@,
            "jpg"@,
        ),
        (r == Ok::<OutputFormat, MermaidError>(OutputFormat::Jpeg)) <==> token_matches(
            token@,
            "jpeg"@,
        ),
        (r == Ok::<OutputFormat, MermaidError>(OutputFormat::Webp)) <==> token_matches(
            token@,
            "webp"@,
        ),
        (r == Ok::<OutputFormat, MermaidError>(OutputFormat::Gif)) <==> token_matches(
            token@,
            "gif"@,
        ),
        r matches Err(e) ==> e@ == (ErrModel::InvalidFormat { format: token@ }),
        r is Err <==> !(token_matches(token@, "svg"@) || token_matches(token@, "png"@)
            || token_matches(token@, "jpg"@) || token_matches(token@, "jpeg"@) || token_matches(
            token@,
            "webp"@,
        ) || token_matches(token@, "gif"@)),
{
    match OutputFormat::from_str(token) {
        Some(f) => Ok(f),
        None => Err(MermaidError::InvalidFormat { format: token.to_owned() }),
    }
}

/// Turns the vector result of one render call into the requested
/// output bytes: the vector format passes the markup through as UTF-8;
/// each raster format rasterizes at the scaled dimensions and encodes
/// under its own policy (alpha preserved for the lossless and modern
/// formats, opaque white and no alpha for the lossy one, quality read
/// only by the tunable encoders).
pub fn finish_render(svg: &str, format: OutputFormat, options: &RenderOptions) -> (r: Result<
    Vec<u8>,
    MermaidError,
>)
    ensures
        format is Svg ==> r is Ok,
        format is Png ==> (png_convert_ok(svg@, options.width, options.height, options.scale)
            ==> r is Ok),
        (format is Jpg || format is Jpeg || format is Gif) ==> (jpg_convert_ok(
            svg@,
            options.width,
            options.height,
            options.scale,
        ) ==> r is Ok),
        format is Webp ==> (webp_convert_ok(
            svg@,
            options.width,
            options.height,
            options.scale,
            options.quality,
        ) ==> r is Ok),
        !(format is Svg) ==> {
            &&& (spec_scaled(options.width, options.scale.milli) == 0 || spec_scaled(
                options.height,
                options.scale.milli,
            ) == 0) ==> r is Err
            &&& !svg_parse_ok(svg@) ==> r is Err
            &&& r matches Err(e) ==> e@ is Render
        },
        r matches Ok(b) ==> ({
            let sw = spec_scaled(options.width, options.scale.milli) as u32;
            let sh = spec_scaled(options.height, options.scale.milli) as u32;
            &&& (format is Svg ==> b@ == svg.spec_bytes())
            &&& (!(format is Svg) ==> 1 <= sw && 1 <= sh && svg_parse_ok(svg@) && b@.len() > 0)
            &&& (format is Png ==> b@ == png_encoding(
                raster_result(svg@, options.scale.milli, sw, sh, false),
                sw,
                sh,
            ))
            &&& ((format is Jpg || format is Jpeg) ==> b@ == jpeg_encoding(
                spec_rgb_of(raster_result(svg@, options.scale.milli, sw, sh, true)),
                sw,
                sh,
                options.quality,
            ))
            &&& (format is Webp ==> b@ == webp_encoding(
                raster_result(svg@, options.scale.milli, sw, sh, false),
                sw,
                sh,
                options.quality,
            ))
            &&& (format is Gif ==> b@ == gif_encoding(
                raster_result(svg@, options.scale.milli, sw, sh, false),
                sw,
                sh,
            ))
        }),
{
    match format {
        OutputFormat::Svg => Ok(svg.as_bytes_vec()),
        OutputFormat::Png => svg_to_png(svg, options.width, options.height, options.scale),
        OutputFormat::Jpg => svg_to_jpg(
            svg,
            options.width,
            options.height,
            options.scale,
            options.quality,
        ),
        OutputFormat::Jpeg => svg_to_jpg(
            svg,
            options.width,
            options.height,
            options.scale,
            options.quality,
        ),
        OutputFormat::Webp => svg_to_webp(
            svg,
            options.width,
            options.height,
            options.scale,
            options.quality,
        ),
        OutputFormat::Gif => svg_to_gif(svg, options.width, options.height, options.scale),
    }
}

} // verus!
