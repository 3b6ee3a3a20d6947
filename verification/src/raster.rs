use vstd::prelude::*;

use crate::errors::{ErrModel, MermaidError};
use crate::scale::{spec_scale_text, spec_scaled, Scale};

verus! {

#[verifier::external_type_specification]
#[verifier::external_body]
pub struct ExTree(usvg::Tree);

#[verifier::external_type_specification]
#[verifier::external_body]
pub struct ExPixmap(tiny_skia::Pixmap);

/// The vector markup a parsed tree stands for.
pub uninterp spec fn tree_doc(t: usvg::Tree) -> Seq<char>;

/// Whether the vector markup parses into a renderable tree; parsing
/// depends on the text alone.
pub uninterp spec fn svg_parse_ok(text: Seq<char>) -> bool;

/// The RGBA bytes a pixmap holds.
pub uninterp spec fn pixmap_bytes(p: tiny_skia::Pixmap) -> Seq<u8>;

/// The width a pixmap was made with.
pub uninterp spec fn pixmap_width(p: tiny_skia::Pixmap) -> u32;

/// The height a pixmap was made with.
pub uninterp spec fn pixmap_height(p: tiny_skia::Pixmap) -> u32;

/// The RGBA bytes left in a buffer after rasterizing the given vector
/// markup into it under a uniform scale transform, over the buffer's
/// prior contents.
pub uninterp spec fn rendered_pixels(
    doc: Seq<char>,
    scale_text: Seq<char>,
    w: u32,
    h: u32,
    before: Seq<u8>,
) -> Seq<u8>;

/// The PNG encoding of an RGBA buffer, alpha preserved.
pub uninterp spec fn png_encoding(rgba: Seq<u8>, w: u32, h: u32) -> Seq<u8>;

/// The JPEG encoding of an RGB buffer at the given quality.
pub uninterp spec fn jpeg_encoding(rgb: Seq<u8>, w: u32, h: u32, quality: u8) -> Seq<u8>;

/// The GIF encoding of an RGBA buffer.
pub uninterp spec fn gif_encoding(rgba: Seq<u8>, w: u32, h: u32) -> Seq<u8>;

/// The WebP encoding of an RGBA buffer at the given quality.
pub uninterp spec fn webp_encoding(rgba: Seq<u8>, w: u32, h: u32, quality: u8) -> Seq<u8>;

/// Whether the WebP encoder accepts this buffer, size and quality
/// (it refuses dimensions over its format limit and qualities over
/// one hundred).
pub uninterp spec fn webp_encode_ok(rgba: Seq<u8>, w: u32, h: u32, quality: u8) -> bool;

/// A buffer of `n` zero bytes: a freshly allocated, transparent
/// pixmap.
pub open spec fn all_zero(n: nat) -> Seq<u8> {
    Seq::new(n, |i: int| 0u8)
}

/// A buffer of `n` bytes of 255: a pixmap filled with opaque white.
pub open spec fn all_white(n: nat) -> Seq<u8> {
    Seq::new(n, |i: int| 255u8)
}

/// The size bounds under which a pixel buffer can be allocated.
pub open spec fn pixmap_creatable(w: u32, h: u32) -> bool {
    &&& 1 <= w
    &&& 1 <= h
    &&& 4 * w <= i32::MAX
    &&& (h - 1) * (4 * w) + 4 * w <= usize::MAX
}

/// Relies on `usvg::Tree::from_str`, with an href resolver that reads
/// nothing from disk: image references resolve only through inline
/// `data:` URLs, and every other href is skipped (as usvg skips a
/// missing file, with a warning). Success and the resulting tree
/// therefore depend on the text alone.
#[verifier::external_body]
fn parse_svg(text: &str) -> (r: Result<usvg::Tree, String>)
    ensures
        r is Ok <==> svg_parse_ok(text@),
        r matches Ok(t) ==> tree_doc(t) == text@,
{
    let options = usvg::Options {
        image_href_resolver: usvg::ImageHrefResolver {
            resolve_data: usvg::ImageHrefResolver::default_data_resolver(),
            resolve_string: Box::new(|_, _| None),
        },
        ..usvg::Options::default()
    };
    usvg::Tree::from_str(text, &options).map_err(|e| e.to_string())
}

/// Relies on `tiny_skia::Pixmap::new`: a transparent (zeroed) RGBA
/// pixmap of the given size, holding `4 * w * h` bytes; `None` when a
/// dimension is zero or the size is out of the library's range.
#[verifier::external_body]
fn new_pixmap(w: u32, h: u32) -> (r: Option<tiny_skia::Pixmap>)
    ensures
        r matches Some(p) ==> {
            &&& pixmap_width(p) == w
            &&& pixmap_height(p) == h
            &&& pixmap_bytes(p) == all_zero((4 * w * h) as nat)
        },
        r is Some ==> 1 <= w && 1 <= h && 4 * w <= i32::MAX,
        pixmap_creatable(w, h) ==> r is Some,
{
    tiny_skia::Pixmap::new(w, h)
}

/// Relies on `tiny_skia::Pixmap::fill` with the opaque white color:
/// every byte of the buffer becomes 255; the size is unchanged.
#[verifier::external_body]
fn fill_white(p: &mut tiny_skia::Pixmap)
    ensures
        pixmap_width(*final(p)) == pixmap_width(*old(p)),
        pixmap_height(*final(p)) == pixmap_height(*old(p)),
        pixmap_bytes(*final(p)) == all_white(pixmap_bytes(*old(p)).len()),
{
    p.fill(tiny_skia::Color::WHITE)
}

/// Relies on `resvg::render`: rasterizes the tree into the pixmap
/// under a uniform scale transform read from `scale_text` (no skew);
/// what lands in the buffer depends on the tree, the transform and
/// the buffer's prior contents alone, and the size is unchanged.
#[verifier::external_body]
fn render_tree(tree: &usvg::Tree, scale_text: &str, pixmap: &mut tiny_skia::Pixmap)
    ensures
        pixmap_width(*final(pixmap)) == pixmap_width(*old(pixmap)),
        pixmap_height(*final(pixmap)) == pixmap_height(*old(pixmap)),
        pixmap_bytes(*final(pixmap)) == rendered_pixels(
            tree_doc(*tree),
            scale_text@,
            pixmap_width(*old(pixmap)),
            pixmap_height(*old(pixmap)),
            pixmap_bytes(*old(pixmap)),
        ),
        pixmap_bytes(*final(pixmap)).len() == pixmap_bytes(*old(pixmap)).len(),
{
    let scale = match scale_text.parse() {
        Ok(v) => v,
        Err(_) => Default::default(),
    };
    let transform = tiny_skia::Transform::from_scale(scale, scale);
    resvg::render(tree, transform, &mut pixmap.as_mut());
}

/// Relies on `tiny_skia::Pixmap::data`: the pixmap's RGBA bytes.
#[verifier::external_body]
fn pixmap_data(p: &tiny_skia::Pixmap) -> (r: Vec<u8>)
    ensures
        r@ == pixmap_bytes(*p),
{
    p.data().to_vec()
}

/// Relies on the `image` crate's PNG encoder over an in-memory
/// buffer: the PNG encoding of the RGBA pixels, alpha preserved; the
/// bytes depend on the pixels and dimensions alone and start with the
/// eight-byte PNG signature. With a buffer of the right length and
/// nonzero dimensions the encoder has no failing path when it writes
/// to memory, so the call succeeds.
#[verifier::external_body]
fn encode_png(data: &Vec<u8>, w: u32, h: u32) -> (r: Result<Vec<u8>, String>)
    requires
        1 <= w,
        1 <= h,
        data@.len() == 4 * w * h,
    ensures
        r is Ok,
        r matches Ok(b) ==> b@ == png_encoding(data@, w, h) && b@.len() > 0,
{
    let mut out: Vec<u8> = Vec::new();
    let encoder = image::codecs::png::PngEncoder::new(&mut out);
    match image::ImageEncoder::write_image(encoder, data, w, h, image::ExtendedColorType::Rgba8) {
        Ok(()) => Ok(out),
        Err(e) => Err(e.to_string()),
    }
}

/// Relies on the `image` crate's JPEG encoder over an in-memory
/// buffer: the JPEG encoding of the RGB pixels at the given quality
/// (clamped by the encoder to 1..=100); the bytes depend on the
/// pixels, dimensions and quality alone. With a buffer of the right
/// length, the encoder's one failing path is a dimension beyond the
/// format's limit of 65535.
#[verifier::external_body]
fn encode_jpeg(data: &Vec<u8>, w: u32, h: u32, quality: u8) -> (r: Result<Vec<u8>, String>)
    requires
        1 <= w,
        1 <= h,
        data@.len() == 3 * w * h,
    ensures
        r is Ok <==> (w <= 65535 && h <= 65535),
        r matches Ok(b) ==> b@ == jpeg_encoding(data@, w, h, quality) && b@.len() > 0,
{
    let mut out: Vec<u8> = Vec::new();
    let mut encoder = image::codecs::jpeg::JpegEncoder::new_with_quality(&mut out, quality);
    match encoder.encode(data, w, h, image::ExtendedColorType::Rgb8) {
        Ok(()) => Ok(out),
        Err(e) => Err(e.to_string()),
    }
}

/// Relies on the `image` crate's GIF encoder over an in-memory
/// buffer: the GIF encoding of the RGBA pixels (quantized by a
/// deterministic algorithm); the bytes depend on the pixels and
/// dimensions alone. With a buffer of the right length, the encoder's
/// one failing path is a dimension beyond the format's limit of
/// 65535.
#[verifier::external_body]
fn encode_gif(data: &Vec<u8>, w: u32, h: u32) -> (r: Result<Vec<u8>, String>)
    requires
        1 <= w,
        1 <= h,
        data@.len() == 4 * w * h,
    ensures
        r is Ok <==> (w <= 65535 && h <= 65535),
        r matches Ok(b) ==> b@ == gif_encoding(data@, w, h) && b@.len() > 0,
{
    let mut out: Vec<u8> = Vec::new();
    let mut encoder = image::codecs::gif::GifEncoder::new(&mut out);
    let res = encoder.encode(data, w, h, image::ExtendedColorType::Rgba8);
    drop(encoder);
    match res {
        Ok(()) => Ok(out),
        Err(e) => Err(e.to_string()),
    }
}

/// Relies on the `webp` crate's encoder: the lossy WebP encoding of
/// the RGBA pixels at the given quality, alpha preserved; the bytes
/// depend on the pixels, dimensions and quality alone, and so does
/// acceptance (the encoder refuses dimensions over its format limit
/// and qualities over one hundred).
#[verifier::external_body]
fn encode_webp(data: &Vec<u8>, w: u32, h: u32, quality: u8) -> (r: Result<Vec<u8>, String>)
    requires
        1 <= w,
        1 <= h,
        data@.len() == 4 * w * h,
    ensures
        r is Ok <==> webp_encode_ok(data@, w, h, quality),
        r matches Ok(b) ==> b@ == webp_encoding(data@, w, h, quality) && b@.len() > 0,
{
    let encoder = webp::Encoder::from_rgba(data, w, h);
    match encoder.encode_simple(false, quality.into()) {
        Ok(mem) => Ok(mem.to_vec()),
        Err(e) => Err(format!("WebP encoding failed: {:?}", e)),
    }
}

/// The RGB bytes of an RGBA buffer: each pixel keeps its first three
/// channels and drops alpha.
pub open spec fn spec_rgb_of(rgba: Seq<u8>) -> Seq<u8> {
    Seq::new(3 * (rgba.len() / 4), |i: int| rgba[4 * (i / 3) + (i % 3)])
}

/// Converts an RGBA buffer to RGB, dropping the alpha channel of each
/// pixel — the channel layout the lossy encoder takes.
pub fn rgba_to_rgb(rgba: &Vec<u8>) -> (r: Vec<u8>)
    requires
        rgba@.len() % 4 == 0,
    ensures
        r@ == spec_rgb_of(rgba@),
{
    let len = rgba.len();
    let n = len / 4;
    let mut out: Vec<u8> = Vec::new();
    let mut p: usize = 0;
    while p < n
        invariant
            len == rgba@.len(),
            n == rgba@.len() / 4,
            rgba@.len() % 4 == 0,
            p <= n,
            out@.len() == 3 * p,
            forall|i: int| 0 <= i < 3 * p ==> out@[i] == rgba@[4 * (i / 3) + (i % 3)],
        decreases n - p,
    {
        proof {
            assert(4 * n == rgba@.len());
            assert(4 * p + 3 < rgba@.len());
        }
        out.push(rgba[4 * p]);
        out.push(rgba[4 * p + 1]);
        out.push(rgba[4 * p + 2]);
        p = p + 1;
    }
    proof {
        assert(out@ =~= spec_rgb_of(rgba@)) by {
            assert(out@.len() == 3 * (rgba@.len() / 4));
        }
    }
    out
}

/// A failure of the raster stage, worded with its cause.
fn raster_error(message: &str) -> (r: MermaidError)
    ensures
        r@ matches ErrModel::Render { message: m } && m == message@,
{
    MermaidError::RenderError { message: message.to_owned() }
}

/// Rasterizes the vector markup into a fresh `w` by `h` RGBA buffer
/// under the given scale transform, over a white fill when asked for
/// (the fallback for encoders without alpha support) and over
/// transparency otherwise.
pub fn rasterize(svg: &str, w: u32, h: u32, scale: Scale, white: bool) -> (r: Result<
    Vec<u8>,
    MermaidError,
>)
    requires
        1 <= w,
        1 <= h,
    ensures
        r matches Ok(pixels) ==> {
            &&& svg_parse_ok(svg@)
            &&& pixels@.len() == 4 * w * h
            &&& pixels@ == rendered_pixels(
                svg@,
                spec_scale_text(scale.milli),
                w,
                h,
                if white {
                    all_white((4 * w * h) as nat)
                } else {
                    all_zero((4 * w * h) as nat)
                },
            )
        },
        r matches Err(e) ==> e@ is Render,
        !svg_parse_ok(svg@) ==> r is Err,
        (svg_parse_ok(svg@) && pixmap_creatable(w, h)) ==> r is Ok,
{
    let tree = match parse_svg(svg) {
        Ok(t) => t,
        Err(m) => {
            return Err(MermaidError::RenderError { message: m });
        },
    };
    let mut pixmap = match new_pixmap(w, h) {
        Some(p) => p,
        None => {
            return Err(raster_error("Failed to create pixmap"));
        },
    };
    if white {
        fill_white(&mut pixmap);
    }
    let scale_text = scale.text();
    render_tree(&tree, scale_text.as_str(), &mut pixmap);
    Ok(pixmap_data(&pixmap))
}

/// Encodes a `w` by `h` RGBA buffer as PNG, alpha preserved.
pub fn png_from_pixels(pixels: &Vec<u8>, w: u32, h: u32) -> (r: Result<Vec<u8>, MermaidError>)
    requires
        1 <= w,
        1 <= h,
        pixels@.len() == 4 * w * h,
    ensures
        r is Ok,
        r matches Ok(b) ==> b@ == png_encoding(pixels@, w, h) && b@.len() > 0,
        r matches Err(e) ==> e@ is Render,
{
    match encode_png(pixels, w, h) {
        Ok(b) => Ok(b),
        Err(m) => Err(MermaidError::RenderError { message: m }),
    }
}

/// Encodes a `w` by `h` RGBA buffer as JPEG at the given quality: the
/// alpha channel is dropped first, since the encoder takes RGB alone.
pub fn jpeg_from_pixels(pixels: &Vec<u8>, w: u32, h: u32, quality: u8) -> (r: Result<
    Vec<u8>,
    MermaidError,
>)
    requires
        1 <= w,
        1 <= h,
        pixels@.len() == 4 * w * h,
    ensures
        r is Ok <==> (w <= 65535 && h <= 65535),
        r matches Ok(b) ==> b@ == jpeg_encoding(spec_rgb_of(pixels@), w, h, quality) && b@.len()
            > 0,
        r matches Err(e) ==> e@ is Render,
{
    proof {
        let wi = w as int;
        let hi = h as int;
        assert(4 * wi * hi == 4 * (wi * hi) && 3 * wi * hi == 3 * (wi * hi)) by (nonlinear_arith);
        vstd::arithmetic::div_mod::lemma_div_multiples_vanish(wi * hi, 4);
        vstd::arithmetic::div_mod::lemma_mod_multiples_basic(wi * hi, 4);
    }
    let rgb = rgba_to_rgb(pixels);
    match encode_jpeg(&rgb, w, h, quality) {
        Ok(b) => Ok(b),
        Err(m) => Err(MermaidError::RenderError { message: m }),
    }
}

/// Encodes a `w` by `h` RGBA buffer as GIF.
pub fn gif_from_pixels(pixels: &Vec<u8>, w: u32, h: u32) -> (r: Result<Vec<u8>, MermaidError>)
    requires
        1 <= w,
        1 <= h,
        pixels@.len() == 4 * w * h,
    ensures
        r is Ok <==> (w <= 65535 && h <= 65535),
        r matches Ok(b) ==> b@ == gif_encoding(pixels@, w, h) && b@.len() > 0,
        r matches Err(e) ==> e@ is Render,
{
    match encode_gif(pixels, w, h) {
        Ok(b) => Ok(b),
        Err(m) => Err(MermaidError::RenderError { message: m }),
    }
}

/// Encodes a `w` by `h` RGBA buffer as lossy WebP at the given
/// quality, alpha preserved.
pub fn webp_from_pixels(pixels: &Vec<u8>, w: u32, h: u32, quality: u8) -> (r: Result<
    Vec<u8>,
    MermaidError,
>)
    requires
        1 <= w,
        1 <= h,
        pixels@.len() == 4 * w * h,
    ensures
        r is Ok <==> webp_encode_ok(pixels@, w, h, quality),
        r matches Ok(b) ==> b@ == webp_encoding(pixels@, w, h, quality) && b@.len() > 0,
        r matches Err(e) ==> e@ is Render,
{
    match encode_webp(pixels, w, h, quality) {
        Ok(b) => Ok(b),
        Err(m) => Err(MermaidError::RenderError { message: m }),
    }
}

/// The pixel buffer the raster stage produces for the given vector
/// markup: a `w` by `h` buffer drawn under the scale transform, over
/// white where the target encoder takes no alpha and over
/// transparency otherwise.
pub open spec fn raster_result(doc: Seq<char>, milli: u32, w: u32, h: u32, white: bool) -> Seq<
    u8,
> {
    rendered_pixels(
        doc,
        spec_scale_text(milli),
        w,
        h,
        if white {
            all_white((4 * w * h) as nat)
        } else {
            all_zero((4 * w * h) as nat)
        },
    )
}

/// The inputs on which the lossless raster conversion is owed to
/// succeed: the markup parses and the scaled buffer can be
/// allocated.
pub open spec fn png_convert_ok(svg: Seq<char>, width: u32, height: u32, s: Scale) -> bool {
    &&& svg_parse_ok(svg)
    &&& pixmap_creatable(
        spec_scaled(width, s.milli) as u32,
        spec_scaled(height, s.milli) as u32,
    )
}

/// The inputs on which the lossy (JPEG) and GIF conversions are owed
/// to succeed: as for PNG, with both scaled dimensions within those
/// encoders' format limit.
pub open spec fn jpg_convert_ok(svg: Seq<char>, width: u32, height: u32, s: Scale) -> bool {
    &&& png_convert_ok(svg, width, height, s)
    &&& spec_scaled(width, s.milli) <= 65535
    &&& spec_scaled(height, s.milli) <= 65535
}

/// The inputs on which the WebP conversion is owed to succeed: as for
/// PNG, with the rasterized buffer accepted by the WebP encoder.
pub open spec fn webp_convert_ok(
    svg: Seq<char>,
    width: u32,
    height: u32,
    s: Scale,
    quality: u8,
) -> bool {
    &&& png_convert_ok(svg, width, height, s)
    &&& webp_encode_ok(
        raster_result(
            svg,
            s.milli,
            spec_scaled(width, s.milli) as u32,
            spec_scaled(height, s.milli) as u32,
            false,
        ),
        spec_scaled(width, s.milli) as u32,
        spec_scaled(height, s.milli) as u32,
        quality,
    )
}

/// Converts vector markup to PNG at `round(width * scale)` by
/// `round(height * scale)` pixels (truncated toward zero), alpha
/// preserved. Fails with a render failure when a dimension rounds to
/// zero, the buffer cannot be allocated, or the markup does not
/// parse; succeeds whenever the markup parses and the buffer is
/// allocatable.
pub fn svg_to_png(svg: &str, width: u32, height: u32, scale: Scale) -> (r: Result<
    Vec<u8>,
    MermaidError,
>)
    ensures
        png_convert_ok(svg@, width, height, scale) ==> r is Ok,
        (spec_scaled(width, scale.milli) == 0 || spec_scaled(height, scale.milli) == 0) ==> r
            is Err,
        !svg_parse_ok(svg@) ==> r is Err,
        r matches Err(e) ==> e@ is Render,
        r matches Ok(b) ==> ({
            let sw = spec_scaled(width, scale.milli) as u32;
            let sh = spec_scaled(height, scale.milli) as u32;
            &&& 1 <= sw && 1 <= sh
            &&& svg_parse_ok(svg@)
            &&& b@ == png_encoding(raster_result(svg@, scale.milli, sw, sh, false), sw, sh)
            &&& b@.len() > 0
        }),
{
    let sw = scale.scaled_dimension(width);
    let sh = scale.scaled_dimension(height);
    if sw == 0 || sh == 0 {
        return Err(raster_error("Failed to create pixmap"));
    }
    let pixels = match rasterize(svg, sw, sh, scale, false) {
        Ok(p) => p,
        Err(e) => {
            return Err(e);
        },
    };
    png_from_pixels(&pixels, sw, sh)
}

/// Converts vector markup to JPEG at the scaled dimensions and given
/// quality. The buffer is pre-filled with opaque white and the alpha
/// channel dropped, since the encoder has no alpha support. Fails
/// with a render failure as `svg_to_png` does, or when a scaled
/// dimension is beyond the encoder's limit; succeeds on all other
/// parsable markup.
pub fn svg_to_jpg(svg: &str, width: u32, height: u32, scale: Scale, quality: u8) -> (r: Result<
    Vec<u8>,
    MermaidError,
>)
    ensures
        jpg_convert_ok(svg@, width, height, scale) ==> r is Ok,
        (spec_scaled(width, scale.milli) == 0 || spec_scaled(height, scale.milli) == 0) ==> r
            is Err,
        !svg_parse_ok(svg@) ==> r is Err,
        r matches Err(e) ==> e@ is Render,
        r matches Ok(b) ==> ({
            let sw = spec_scaled(width, scale.milli) as u32;
            let sh = spec_scaled(height, scale.milli) as u32;
            &&& 1 <= sw && sw <= 65535 && 1 <= sh && sh <= 65535
            &&& svg_parse_ok(svg@)
            &&& b@ == jpeg_encoding(
                spec_rgb_of(raster_result(svg@, scale.milli, sw, sh, true)),
                sw,
                sh,
                quality,
            )
            &&& b@.len() > 0
        }),
{
    let sw = scale.scaled_dimension(width);
    let sh = scale.scaled_dimension(height);
    if sw == 0 || sh == 0 {
        return Err(raster_error("Failed to create pixmap"));
    }
    let pixels = match rasterize(svg, sw, sh, scale, true) {
        Ok(p) => p,
        Err(e) => {
            return Err(e);
        },
    };
    jpeg_from_pixels(&pixels, sw, sh, quality)
}

/// Converts vector markup to lossy WebP at the scaled dimensions and
/// given quality, alpha preserved. Fails with a render failure as
/// `svg_to_png` does, or when the WebP encoder refuses the buffer;
/// succeeds whenever it accepts it.
pub fn svg_to_webp(svg: &str, width: u32, height: u32, scale: Scale, quality: u8) -> (r: Result<
    Vec<u8>,
    MermaidError,
>)
    ensures
        webp_convert_ok(svg@, width, height, scale, quality) ==> r is Ok,
        (spec_scaled(width, scale.milli) == 0 || spec_scaled(height, scale.milli) == 0) ==> r
            is Err,
        !svg_parse_ok(svg@) ==> r is Err,
        r matches Err(e) ==> e@ is Render,
        r matches Ok(b) ==> ({
            let sw = spec_scaled(width, scale.milli) as u32;
            let sh = spec_scaled(height, scale.milli) as u32;
            &&& 1 <= sw && 1 <= sh
            &&& svg_parse_ok(svg@)
            &&& webp_encode_ok(raster_result(svg@, scale.milli, sw, sh, false), sw, sh, quality)
            &&& b@ == webp_encoding(raster_result(svg@, scale.milli, sw, sh, false), sw, sh, quality)
            &&& b@.len() > 0
        }),
{
    let sw = scale.scaled_dimension(width);
    let sh = scale.scaled_dimension(height);
    if sw == 0 || sh == 0 {
        return Err(raster_error("Failed to create pixmap"));
    }
    let pixels = match rasterize(svg, sw, sh, scale, false) {
        Ok(p) => p,
        Err(e) => {
            return Err(e);
        },
    };
    webp_from_pixels(&pixels, sw, sh, quality)
}

/// Converts vector markup to GIF at the scaled dimensions. Fails with
/// a render failure as `svg_to_png` does, or when a scaled dimension
/// is beyond the encoder's limit; succeeds on all other parsable
/// markup.
pub fn svg_to_gif(svg: &str, width: u32, height: u32, scale: Scale) -> (r: Result<
    Vec<u8>,
    MermaidError,
>)
    ensures
        jpg_convert_ok(svg@, width, height, scale) ==> r is Ok,
        (spec_scaled(width, scale.milli) == 0 || spec_scaled(height, scale.milli) == 0) ==> r
            is Err,
        !svg_parse_ok(svg@) ==> r is Err,
        r matches Err(e) ==> e@ is Render,
        r matches Ok(b) ==> ({
            let sw = spec_scaled(width, scale.milli) as u32;
            let sh = spec_scaled(height, scale.milli) as u32;
            &&& 1 <= sw && sw <= 65535 && 1 <= sh && sh <= 65535
            &&& svg_parse_ok(svg@)
            &&& b@ == gif_encoding(raster_result(svg@, scale.milli, sw, sh, false), sw, sh)
            &&& b@.len() > 0
        }),
{
    let sw = scale.scaled_dimension(width);
    let sh = scale.scaled_dimension(height);
    if sw == 0 || sh == 0 {
        return Err(raster_error("Failed to create pixmap"));
    }
    let pixels = match rasterize(svg, sw, sh, scale, false) {
        Ok(p) => p,
        Err(e) => {
            return Err(e);
        },
    };
    gif_from_pixels(&pixels, sw, sh)
}

} // verus!
