use vstd::prelude::*;

verus! {

/// Geometry of the square padding step: the canvas edge and the offsets at
/// which the source is drawn.
#[derive(PartialEq, Eq, Structural, Debug, Clone, Copy)]
pub struct PadGeometry {
    pub edge: u32,
    pub dx: u32,
    pub dy: u32,
}

/// The square-padding geometry for a `w` by `h` source: a canvas of edge
/// `max(w, h)` with the source centered at integer-floor offsets, so an odd
/// difference biases the source toward the top-left by one pixel.
pub fn pad_geometry(w: u32, h: u32) -> (g: PadGeometry)
    ensures
        g.edge == (if w >= h { w } else { h }),
        g.edge >= w && g.edge >= h,
        g.dx == (g.edge - w) / 2,
        g.dy == (g.edge - h) / 2,
        g.dx + w <= g.edge,
        g.dy + h <= g.edge,
{
    let edge = if w >= h { w } else { h };
    PadGeometry { edge, dx: (edge - w) / 2, dy: (edge - h) / 2 }
}

/// A `w` by `h` pixel buffer of at most four subpixels per pixel fits in
/// memory: its subpixel count stays within `usize`. `ImageBuffer::new`
/// panics exactly when this overflows.
pub open spec fn spec_fits(w: u32, h: u32) -> bool {
    4 * (w as int) * (h as int) <= usize::MAX as int
}

/// Whether a `w` by `h` four-channel buffer stays within `usize`.
pub fn fits_buffer(w: u32, h: u32) -> (b: bool)
    ensures
        b == spec_fits(w, h),
{
    proof {
        assert((w as int) * (h as int) <= 0xFFFF_FFFF * 0xFFFF_FFFF) by (nonlinear_arith)
            requires w as int <= 0xFFFF_FFFF && h as int <= 0xFFFF_FFFF;
        assert(4 * (w as int) * (h as int) == 4 * ((w as int) * (h as int))) by (nonlinear_arith);
    }
    let prod: u128 = (w as u128) * (h as u128);
    let four: u128 = 4 * prod;
    four <= usize::MAX as u128
}

#[verifier::external_type_specification]
#[verifier::external_body]
pub struct ExDynamicImage(image::DynamicImage);

#[verifier::external_type_specification]
#[verifier::external_body]
pub struct ExImageError(image::ImageError);

pub uninterp spec fn decode_ok(bytes: Seq<u8>) -> bool;

pub uninterp spec fn decoded(bytes: Seq<u8>) -> image::DynamicImage;

pub uninterp spec fn image_width(img: image::DynamicImage) -> u32;

pub uninterp spec fn image_height(img: image::DynamicImage) -> u32;

pub uninterp spec fn blank_canvas(w: u32, h: u32) -> image::DynamicImage;

pub uninterp spec fn overlaid(
    bottom: image::DynamicImage,
    top: image::DynamicImage,
    x: u32,
    y: u32,
) -> image::DynamicImage;

pub uninterp spec fn resized(img: image::DynamicImage, w: u32, h: u32) -> image::DynamicImage;

pub uninterp spec fn png_bytes_of(img: image::DynamicImage) -> Seq<u8>;

/// Relies on image::load_from_memory: decodes an in-memory buffer, a
/// function of the bytes alone; undecodable bytes return an error.
#[verifier::external_body]
fn decode_image(bytes: &Vec<u8>) -> (r: Result<image::DynamicImage, image::ImageError>)
    ensures
        r is Ok <==> decode_ok(bytes@),
        r is Ok ==> r->Ok_0 == decoded(bytes@),
{
    image::load_from_memory(bytes.as_slice())
}

/// Relies on DynamicImage::width: the image's pixel width.
#[verifier::external_body]
fn width_of(img: &image::DynamicImage) -> (w: u32)
    ensures
        w == image_width(*img),
{
    img.width()
}

/// Relies on DynamicImage::height: the image's pixel height.
#[verifier::external_body]
fn height_of(img: &image::DynamicImage) -> (h: u32)
    ensures
        h == image_height(*img),
{
    img.height()
}

/// Relies on DynamicImage::new_rgba8: a fully transparent RGBA canvas of the
/// given dimensions, a function of them alone. ImageBuffer::new panics when
/// the subpixel count overflows usize, so that case is excluded here.
#[verifier::external_body]
fn new_canvas(w: u32, h: u32) -> (r: image::DynamicImage)
    requires
        spec_fits(w, h),
    ensures
        r == blank_canvas(w, h),
        image_width(r) == w,
        image_height(r) == h,
{
    image::DynamicImage::new_rgba8(w, h)
}

/// Relies on image::imageops::overlay: blends every pixel of `top` onto
/// `bottom` at the given offsets, a function of the two images and the
/// offsets alone; `bottom` keeps its dimensions. The offsets are kept
/// inside `bottom` so nothing of `top` is cropped away.
#[verifier::external_body]
fn overlay_at(bottom: &mut image::DynamicImage, top: &image::DynamicImage, x: u32, y: u32)
    requires
        x + image_width(*top) <= image_width(*old(bottom)),
        y + image_height(*top) <= image_height(*old(bottom)),
    ensures
        *final(bottom) == overlaid(*old(bottom), *top, x, y),
        image_width(*final(bottom)) == image_width(*old(bottom)),
        image_height(*final(bottom)) == image_height(*old(bottom)),
{
    image::imageops::overlay(bottom, top, x as i64, y as i64)
}

/// Relies on DynamicImage::resize_exact with the Lanczos3 filter: a new
/// image of exactly the given dimensions, a function of the source and the
/// target alone. The sampling allocates a source-width by target-height
/// buffer and the target buffer, and ImageBuffer::new panics when either
/// subpixel count overflows usize, so those cases are excluded here.
#[verifier::external_body]
fn resize_to(img: &image::DynamicImage, w: u32, h: u32) -> (r: image::DynamicImage)
    requires
        image_width(*img) >= 1,
        image_height(*img) >= 1,
        w >= 1,
        h >= 1,
        spec_fits(image_width(*img), h),
        spec_fits(w, h),
    ensures
        r == resized(*img, w, h),
        image_width(r) == w,
        image_height(r) == h,
{
    img.resize_exact(w, h, image::imageops::FilterType::Lanczos3)
}

/// Relies on DynamicImage::write_to with the PNG format into an in-memory
/// cursor: deterministic, a function of the image alone; it succeeds for
/// every image with nonzero dimensions (the encoder rejects only a zero
/// width or height, and writing to a vector cannot fail).
#[verifier::external_body]
fn encode_png(img: &image::DynamicImage) -> (r: Result<Vec<u8>, image::ImageError>)
    ensures
        image_width(*img) >= 1 && image_height(*img) >= 1 ==> r is Ok,
        r is Ok ==> r->Ok_0@ == png_bytes_of(*img),
{
    let mut cursor = std::io::Cursor::new(Vec::new());
    match img.write_to(&mut cursor, image::ImageFormat::Png) {
        Ok(()) => Ok(cursor.into_inner()),
        Err(e) => Err(e),
    }
}

/// Why the square-pad-and-resize transform failed for a job. Any of these is
/// fatal for the whole batch.
#[derive(Debug)]
pub enum TransformError {
    /// The source bytes could not be decoded as an image.
    Decode(image::ImageError),
    /// The padded and resized image could not be encoded as PNG; the sizes
    /// the other guards admit never reach this.
    Encode(image::ImageError),
    /// A requested target size of zero.
    ZeroTargetSize,
    /// The decoded source has no pixels at all.
    EmptySource,
    /// The square canvas would not fit in memory on this platform.
    CanvasTooLarge,
    /// The resize to the requested size would not fit in memory on this
    /// platform.
    TargetTooLarge,
}

/// The larger dimension of the decoded source: the edge of its square
/// canvas.
pub open spec fn spec_src_edge(bytes: Seq<u8>) -> u32 {
    let d = decoded(bytes);
    if image_width(d) >= image_height(d) {
        image_width(d)
    } else {
        image_height(d)
    }
}

/// When the transform succeeds: a positive target, a decodable nonempty
/// source, and canvas, intermediate and target buffers that fit in memory.
pub open spec fn spec_transform_ok(bytes: Seq<u8>, size: u32) -> bool {
    let e = spec_src_edge(bytes);
    size >= 1 && decode_ok(bytes) && e >= 1 && spec_fits(e, e) && spec_fits(e, size)
        && spec_fits(size, size)
}

/// The bytes the transform produces: the PNG encoding of the Lanczos3
/// resize, to `size` by `size`, of the decoded source centered on a
/// transparent square canvas of its larger dimension.
pub open spec fn spec_transform_output(bytes: Seq<u8>, size: u32) -> Seq<u8> {
    let d = decoded(bytes);
    let e = spec_src_edge(bytes);
    let dx = (((e - image_width(d)) as int) / 2) as u32;
    let dy = (((e - image_height(d)) as int) / 2) as u32;
    png_bytes_of(resized(overlaid(blank_canvas(e, e), d, dx, dy), size, size))
}

/// Square-pads the decoded source onto a transparent canvas of edge
/// `max(width, height)`, centered at integer-floor offsets, resizes the
/// canvas to `size` by `size` with a Lanczos-class filter, and returns the
/// result encoded as PNG bytes; each failure names its cause.
pub fn convert_image(bytes: &Vec<u8>, size: u32) -> (r: Result<Vec<u8>, TransformError>)
    ensures
        r is Ok <==> spec_transform_ok(bytes@, size),
        r is Ok ==> r->Ok_0@ == spec_transform_output(bytes@, size),
        size == 0 <==> r is Err && r->Err_0 is ZeroTargetSize,
        size >= 1 ==> ((r is Err && r->Err_0 is Decode) <==> !decode_ok(bytes@)),
        size >= 1 && decode_ok(bytes@) ==> ((r is Err && r->Err_0 is EmptySource) <==> spec_src_edge(
            bytes@,
        ) == 0),
        size >= 1 && decode_ok(bytes@) && spec_src_edge(bytes@) >= 1 ==> ((r is Err
            && r->Err_0 is CanvasTooLarge) <==> !spec_fits(spec_src_edge(bytes@), spec_src_edge(bytes@))),
        size >= 1 && decode_ok(bytes@) && spec_src_edge(bytes@) >= 1 && spec_fits(
            spec_src_edge(bytes@),
            spec_src_edge(bytes@),
        ) ==> ((r is Err && r->Err_0 is TargetTooLarge) <==> !(spec_fits(spec_src_edge(bytes@), size)
            && spec_fits(size, size))),
{
    if size == 0 {
        return Err(TransformError::ZeroTargetSize);
    }
    let img = match decode_image(bytes) {
        Ok(i) => i,
        Err(e) => return Err(TransformError::Decode(e)),
    };
    let w = width_of(&img);
    let h = height_of(&img);
    let g = pad_geometry(w, h);
    if g.edge == 0 {
        return Err(TransformError::EmptySource);
    }
    if !fits_buffer(g.edge, g.edge) {
        return Err(TransformError::CanvasTooLarge);
    }
    if !(fits_buffer(g.edge, size) && fits_buffer(size, size)) {
        return Err(TransformError::TargetTooLarge);
    }
    let mut canvas = new_canvas(g.edge, g.edge);
    overlay_at(&mut canvas, &img, g.dx, g.dy);
    let resized_img = resize_to(&canvas, size, size);
    match encode_png(&resized_img) {
        Ok(v) => Ok(v),
        Err(e) => Err(TransformError::Encode(e)),
    }
}

} // verus!
