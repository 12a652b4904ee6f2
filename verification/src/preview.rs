//! Preparing the stream from a first live-view frame: the preview
//! resolution, the red placeholder JPEG served while the host is not
//! streaming, and the UVC frame interval.

use vstd::prelude::*;

verus! {

/// The frame rate that the webcam advertises.
pub const FPS: u16 = 30;

/// The bytes that `image`'s JPEG encoder writes for the RGB8 image of
/// `width` by `height` pixels whose samples are `pixels`.
pub uninterp spec fn jpeg_encoding(width: u32, height: u32, pixels: Seq<u8>) -> Seq<u8>;

/// The error type of `image`, carried through opaquely to report why a
/// preview could not be read.
#[verifier::external_type_specification]
#[verifier::external_body]
pub struct ExImageError(image::ImageError);

/// Calls `image::ImageReader::new(..).with_guessed_format()` and then
/// `into_dimensions()` on `data` in memory, handing back `image`'s error
/// where either fails (an I/O error of the first as `ImageError::IoError`).
/// Claims nothing of the result:
/// besides the bytes, it depends on the format-detection and decoding hooks
/// that any code in the process may register with `image::hooks`, and which
/// formats are recognised and how their headers are read is left unsaid.
#[verifier::external_body]
fn read_image_dimensions(data: &[u8]) -> (r: Result<(u32, u32), image::ImageError>)
{
    let reader = image::ImageReader::new(std::io::Cursor::new(data))
        .with_guessed_format()
        .map_err(image::ImageError::IoError)?;
    reader.into_dimensions()
}

/// Calls `image::RgbImage::from_raw` and `ImageBuffer::write_to` with
/// `ImageFormat::Jpeg` into memory. Claims what the JPEG encoder's source
/// shows: it refuses exactly the sizes outside `1..=65535` in either
/// direction, and otherwise writes bytes that are a function of the image,
/// named `jpeg_encoding`; the bytes themselves are left unsaid.
#[verifier::external_body]
fn encode_rgb_jpeg(width: u32, height: u32, pixels: Vec<u8>) -> (r: Option<Vec<u8>>)
    requires
        pixels.len() == width * height * 3,
    ensures
        r is Some <==> (1 <= width <= 65535 && 1 <= height <= 65535),
        r matches Some(bytes) ==> bytes@ == jpeg_encoding(width, height, pixels@),
{
    let img = image::RgbImage::from_raw(width, height, pixels)?;
    let mut out = std::io::Cursor::new(Vec::new());
    img.write_to(&mut out, image::ImageFormat::Jpeg).ok()?;
    Some(out.into_inner())
}

/// The samples of the placeholder image: every pixel red `(180, 0, 0)`.
pub open spec fn placeholder_pixels(width: u32, height: u32) -> Seq<u8> {
    Seq::new((width * height * 3) as nat, |i: int| if i % 3 == 0 { 180u8 } else { 0u8 })
}

/// The placeholder is a solid red image: three samples per pixel, the red
/// one 180 and the green and blue ones 0.
pub proof fn lemma_placeholder_is_red(width: u32, height: u32)
    ensures
        placeholder_pixels(width, height).len() == width * height * 3,
        forall|p: int|
            0 <= p < width * height ==> placeholder_pixels(width, height)[#[trigger] (3 * p)] == 180
                && placeholder_pixels(width, height)[3 * p + 1] == 0 && placeholder_pixels(
                width,
                height,
            )[3 * p + 2] == 0,
{
    assert forall|p: int| 0 <= p < width * height implies placeholder_pixels(width, height)[#[trigger] (
    3 * p)] == 180 && placeholder_pixels(width, height)[3 * p + 1] == 0 && placeholder_pixels(
        width,
        height,
    )[3 * p + 2] == 0 by {
        assert(3 * p + 2 < width * height * 3) by (nonlinear_arith)
            requires
                0 <= p < width * height,
        ;
        assert((3 * p) % 3 == 0);
        assert((3 * p + 1) % 3 == 1);
        assert((3 * p + 2) % 3 == 2);
    }
}

/// Why the stream could not be prepared.
#[derive(Debug)]
pub enum SetupError {
    /// The first live-view frame is not an image whose size can be read;
    /// `image`'s error says why.
    UnreadablePreview(image::ImageError),
    /// The placeholder image would not fit in memory.
    PlaceholderTooLarge,
    /// The placeholder cannot be encoded as JPEG at the preview's size.
    PlaceholderEncoding,
}

/// What the stream is set up with.
#[derive(Debug, Clone)]
pub struct StreamSetup {
    pub width: u32,
    pub height: u32,
    /// The JPEG served while the host is not streaming.
    pub placeholder_jpeg: Vec<u8>,
    /// The UVC frame interval, in units of 100 ns.
    pub frame_interval: u32,
}

/// The UVC frame interval, in units of 100 ns, for `fps` frames per second.
pub fn frame_interval(fps: u16) -> (r: u32)
    requires
        fps > 0,
    ensures
        r == 10_000_000int / (fps as int),
{
    10_000_000u32 / (fps as u32)
}

/// The samples of the red placeholder image of `width` by `height` pixels.
pub fn red_placeholder_pixels(width: u32, height: u32) -> (px: Vec<u8>)
    requires
        width * height * 3 <= usize::MAX,
    ensures
        px@ == placeholder_pixels(width, height),
        px@.len() == width * height * 3,
        forall|i: int| 0 <= i < px@.len() ==> #[trigger] px@[i] == (if i % 3 == 0 {
            180u8
        } else {
            0u8
        }),
{
    proof {
        assert(width * height <= width * height * 3) by (nonlinear_arith);
    }
    let count: usize = (width as usize) * (height as usize);
    let mut px: Vec<u8> = Vec::new();
    let mut i: usize = 0;
    while i < count
        invariant
            i <= count,
            count == width * height,
            count * 3 <= usize::MAX,
            px@ == Seq::new((i * 3) as nat, |k: int| if k % 3 == 0 { 180u8 } else { 0u8 }),
        decreases count - i,
    {
        px.push(180);
        px.push(0);
        px.push(0);
        i = i + 1;
        assert(px@ =~= Seq::new((i * 3) as nat, |k: int| if k % 3 == 0 { 180u8 } else { 0u8 }));
    }
    px
}

/// The placeholder JPEG for a preview of `width` by `height` pixels;
/// `None` where the encoder refuses the size.
pub fn placeholder_jpeg(width: u32, height: u32) -> (r: Option<Vec<u8>>)
    requires
        width * height * 3 <= usize::MAX,
    ensures
        r is Some <==> (1 <= width <= 65535 && 1 <= height <= 65535),
        r matches Some(bytes) ==> bytes@ == jpeg_encoding(
            width,
            height,
            placeholder_pixels(width, height),
        ),
{
    let px = red_placeholder_pixels(width, height);
    encode_rgb_jpeg(width, height, px)
}

/// Whether a placeholder of `width` by `height` pixels fits in memory.
pub open spec fn placeholder_fits(width: u32, height: u32) -> bool {
    width * height * 3 <= usize::MAX
}

/// Whether JPEG can hold an image of `width` by `height` pixels.
pub open spec fn jpeg_size_ok(width: u32, height: u32) -> bool {
    1 <= width <= 65535 && 1 <= height <= 65535
}

/// What a stream set up at `width` by `height` pixels holds.
pub open spec fn setup_for_size(s: StreamSetup, width: u32, height: u32) -> bool {
    &&& s.width == width
    &&& s.height == height
    &&& s.placeholder_jpeg@ == jpeg_encoding(width, height, placeholder_pixels(width, height))
    &&& s.frame_interval == 10_000_000int / (FPS as int)
}

/// Sets the stream up for the preview size that was read (or `image`'s
/// error where it could not be read): the placeholder of that size, and the
/// frame interval for `FPS`.
pub fn stream_setup_for(dims: Result<(u32, u32), image::ImageError>) -> (r: Result<
    StreamSetup,
    SetupError,
>)
    ensures
        match dims {
            Err(e) => r matches Err(SetupError::UnreadablePreview(f)) && f == e,
            Ok((w, h)) => if !placeholder_fits(w, h) {
                r == Err::<StreamSetup, SetupError>(SetupError::PlaceholderTooLarge)
            } else if !jpeg_size_ok(w, h) {
                r == Err::<StreamSetup, SetupError>(SetupError::PlaceholderEncoding)
            } else {
                r matches Ok(s) && setup_for_size(s, w, h)
            },
        },
        dims matches Ok((w, h)) ==> (r matches Ok(s) <==> (w * h * 3 <= usize::MAX && 1 <= w
            <= 65535 && 1 <= h <= 65535)),
        dims matches Ok((w, h)) ==> (r matches Ok(s) ==> s.width == w && s.height == h
            && s.frame_interval == 333333 && s.placeholder_jpeg@ == jpeg_encoding(
            w,
            h,
            placeholder_pixels(w, h),
        )),
        dims matches Ok((w, h)) ==> (r matches Err(SetupError::PlaceholderTooLarge) <==> w * h * 3
            > usize::MAX),
        dims is Err <==> r matches Err(SetupError::UnreadablePreview(_)),
{
    let (width, height) = match dims {
        Err(e) => return Err(SetupError::UnreadablePreview(e)),
        Ok(d) => d,
    };
    let fits = match (width as usize).checked_mul(height as usize) {
        None => false,
        Some(p) => p.checked_mul(3).is_some(),
    };
    if !fits {
        proof {
            assert(width * height * 3 > usize::MAX) by (nonlinear_arith)
                requires
                    width * height > usize::MAX || width * height * 3 > usize::MAX,
            ;
        }
        return Err(SetupError::PlaceholderTooLarge);
    }
    match placeholder_jpeg(width, height) {
        None => Err(SetupError::PlaceholderEncoding),
        Some(jpeg) => Ok(
            StreamSetup {
                width,
                height,
                placeholder_jpeg: jpeg,
                frame_interval: frame_interval(FPS),
            },
        ),
    }
}

/// Prepares the stream from the first live-view frame: reads its size with
/// `image` and sets the stream up for it (see `stream_setup_for`). Whatever
/// the read gave, a stream that is set up holds the placeholder of its own
/// size and the frame interval for `FPS`.
pub fn prepare_stream(preview: &[u8]) -> (r: Result<StreamSetup, SetupError>)
    ensures
        r matches Ok(s) ==> placeholder_fits(s.width, s.height) && jpeg_size_ok(s.width, s.height)
            && setup_for_size(s, s.width, s.height),
{
    let dims = read_image_dimensions(preview);
    stream_setup_for(dims)
}

} // verus!
