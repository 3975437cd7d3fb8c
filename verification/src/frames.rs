//! Animated images: which decoder a file needs, which icon names to try,
//! and when the next frame is due.
//!
//! Times are counted in nanoseconds from an origin that the caller fixes.

use vstd::prelude::*;
use vstd::string::*;
use crate::icon::{copy_bytes, extension_of, path_extension, ContentFit, ImageData, ImageHandle};
use crate::button::Length;
use image::AnimationDecoder;
use image::codecs::gif::GifDecoder;
use image::codecs::png::PngDecoder;
use image::codecs::webp::WebPDecoder;

verus! {

/// An error of the image decoders.
#[verifier::external_type_specification]
#[verifier::external_body]
pub struct ExImageError(image::ImageError);

/// The kind of an animated image.
#[derive(Debug, Clone, Copy, PartialEq, Eq, Structural)]
pub enum ImageType {
    Gif,
    Apng,
    WebP,
}

/// Why an animated image could not be loaded or decoded.
#[derive(Debug)]
pub enum Error {
    /// The decoder failed.
    Image(image::ImageError),
    /// The image with the requested name is missing.
    Missing,
    /// The extension is unsupported.
    Extension,
}

/// The kind of an animated image with the given extension: `gif`, `apng`
/// or `webp`; any other extension, or none, is unsupported.
pub open spec fn spec_image_type(ext: Option<Seq<char>>) -> Result<ImageType, Error> {
    match ext {
        Some(e) => if e == "gif"@ {
            Ok(ImageType::Gif)
        } else if e == "apng"@ {
            Ok(ImageType::Apng)
        } else if e == "webp"@ {
            Ok(ImageType::WebP)
        } else {
            Err(Error::Extension)
        },
        None => Err(Error::Extension),
    }
}

/// The kind of the animated image in the file at `path`, by its extension.
pub fn image_type(path: &str) -> (r: Result<ImageType, Error>)
    ensures
        r == spec_image_type(extension_of(path@)),
{
    match path_extension(path) {
        Some(e) => {
            if e == String::from_str("gif") {
                Ok(ImageType::Gif)
            } else if e == String::from_str("apng") {
                Ok(ImageType::Apng)
            } else if e == String::from_str("webp") {
                Ok(ImageType::WebP)
            } else {
                Err(Error::Extension)
            }
        },
        None => Err(Error::Extension),
    }
}

/// The names to try after `name` itself, looking at its first `k`
/// characters: the part before each `-`, the last one first.
pub open spec fn fallback_prefixes(name: Seq<char>, k: nat) -> Seq<Seq<char>>
    decreases k,
{
    if k == 0 {
        Seq::empty()
    } else {
        let here: Seq<Seq<char>> = if name[k - 1] == '-' { seq![name.take(k - 1)] } else { Seq::empty() };
        here + fallback_prefixes(name, (k - 1) as nat)
    }
}

/// The names to try when the icon `name` is missing: the part of the name
/// before each `-`, from the longest to the shortest.
pub fn fallback_names(name: &str) -> (r: Vec<String>)
    ensures
        r@.map_values(|s: String| s@) == fallback_prefixes(name@, name@.len()),
{
    let n = name.unicode_len();
    let mut r: Vec<String> = Vec::new();
    let mut k = n;
    while k > 0
        invariant
            0 <= k <= n,
            n == name@.len(),
            r@.map_values(|s: String| s@) + fallback_prefixes(name@, k as nat) == fallback_prefixes(name@, n as nat),
        decreases k,
    {
        let c = name.get_char(k - 1);
        let ghost before = r@;
        if c == '-' {
            let prefix = String::from_str(name.substring_char(0, k - 1));
            r.push(prefix);
            assert(r@.map_values(|s: String| s@) =~= before.map_values(|s: String| s@).push(name@.take(k - 1)));
        }
        assert(fallback_prefixes(name@, k as nat) == (if name@[k - 1] == '-' { seq![name@.take(k - 1)] } else { Seq::<Seq<char>>::empty() })
            + fallback_prefixes(name@, (k - 1) as nat));
        assert(r@.map_values(|s: String| s@) + fallback_prefixes(name@, (k - 1) as nat) =~= fallback_prefixes(name@, n as nat));
        k -= 1;
    }
    assert(r@.map_values(|s: String| s@) =~= r@.map_values(|s: String| s@) + fallback_prefixes(name@, 0));
    r
}

/// The number of bytes that an image holds: none for a file, its bytes or pixels otherwise.
pub open spec fn image_bytes(d: ImageData) -> int {
    match d {
        ImageData::Path(_) => 0,
        ImageData::Bytes(b) => b.len() as int,
        ImageData::Rgba(_, _, p) => p.len() as int,
    }
}

/// The number of bytes of the first `k` frames.
pub open spec fn frames_bytes(frames: Seq<ImageHandle>, k: nat) -> int
    decreases k,
{
    if k == 0 || k > frames.len() {
        0
    } else {
        frames_bytes(frames, (k - 1) as nat) + image_bytes(frames[k - 1]@)
    }
}

/// The number of bytes that the frames of an animated image hold, which
/// tells one animation from another.
pub fn total_bytes(frames: &Vec<ImageHandle>) -> (r: u64)
    requires
        frames_bytes(frames@, frames@.len()) <= usize::MAX,
    ensures
        r == (if frames_bytes(frames@, frames@.len()) <= u64::MAX { frames_bytes(frames@, frames@.len()) } else { 0 }),
{
    let mut sum: usize = 0;
    let mut i: usize = 0;
    while i < frames.len()
        invariant
            0 <= i <= frames@.len(),
            sum == frames_bytes(frames@, i as nat),
            frames_bytes(frames@, frames@.len()) <= usize::MAX,
        decreases frames.len() - i,
    {
        proof {
            lemma_frames_bytes_monotone(frames@, (i + 1) as nat, frames@.len());
        }
        let n = match &frames[i] {
            ImageHandle::Path(_) => 0,
            ImageHandle::Bytes(b) => b.len(),
            ImageHandle::Rgba { pixels, .. } => pixels.len(),
        };
        sum = sum + n;
        i += 1;
    }
    if sum as u128 <= u64::MAX as u128 {
        sum as u64
    } else {
        0
    }
}

proof fn lemma_frames_bytes_monotone(frames: Seq<ImageHandle>, j: nat, k: nat)
    requires
        j <= k <= frames.len(),
    ensures
        frames_bytes(frames, j) <= frames_bytes(frames, k),
    decreases k - j,
{
    if j < k {
        lemma_frames_bytes_monotone(frames, j, (k - 1) as nat);
    }
}

/// Which frame an animated image shows, and since when.
pub struct Animation {
    pub index: usize,
    /// When the current frame started to show.
    pub started: u64,
    pub total_bytes: u64,
}

impl Animation {
    /// An animation showing its first frame from `now`.
    pub fn new(now: u64, total_bytes: u64) -> (r: Self)
        ensures
            r.index == 0,
            r.started == now,
            r.total_bytes == total_bytes,
    {
        Animation { index: 0, started: now, total_bytes }
    }

    /// Starts over when the frames changed, which their byte count tells.
    pub fn diff(&mut self, now: u64, total_bytes: u64)
        ensures
            old(self).total_bytes != total_bytes ==> *final(self) == (Animation { index: 0, started: now, total_bytes }),
            old(self).total_bytes == total_bytes ==> *final(self) == *old(self),
    {
        if self.total_bytes != total_bytes {
            self.index = 0;
            self.started = now;
            self.total_bytes = total_bytes;
        }
    }

    /// Handles a redraw at `now`, given the delay of each frame. When the
    /// current frame has shown longer than its delay, the next frame (the
    /// first after the last) starts; returns when the next redraw is due.
    pub fn on_redraw(&mut self, now: u64, delays: &Vec<u64>) -> (r: u64)
        requires
            delays@.len() > 0,
            old(self).index < delays@.len(),
            old(self).started <= now,
            forall|i: int| 0 <= i < delays@.len() ==> now + #[trigger] delays@[i] <= u64::MAX,
        ensures
            final(self).total_bytes == old(self).total_bytes,
            final(self).index < delays@.len(),
            if now - old(self).started > delays@[old(self).index as int] {
                &&& final(self).index == (old(self).index + 1) % (delays@.len() as int)
                &&& final(self).started == now
                &&& r == now + delays@[final(self).index as int]
            } else {
                &&& final(self).index == old(self).index
                &&& final(self).started == old(self).started
                &&& r == now + (delays@[old(self).index as int] - (now - old(self).started))
            },
    {
        let elapsed = now - self.started;
        let delay = delays[self.index];
        if elapsed > delay {
            assert(self.index < delays.len());
            self.index = (self.index + 1) % delays.len();
            self.started = now;
            now + delays[self.index]
        } else {
            now + (delay - elapsed)
        }
    }
}


/// A decoded frame: its width and height, its RGBA pixels, and its delay in
/// milliseconds as a numerator and a denominator.
pub type FrameData = (u32, u32, Seq<u8>, u32, u32);

/// A frame as a decoder hands it out.
pub struct DecodedFrame {
    pub width: u32,
    pub height: u32,
    pub pixels: Vec<u8>,
    pub delay_numer_ms: u32,
    pub delay_denom_ms: u32,
}

impl View for DecodedFrame {
    type V = FrameData;

    open spec fn view(&self) -> FrameData {
        (self.width, self.height, self.pixels@, self.delay_numer_ms, self.delay_denom_ms)
    }
}

/// What a sequence of decoded frames holds.
pub open spec fn decoded_view(frames: Seq<DecodedFrame>) -> Seq<FrameData> {
    frames.map_values(|f: DecodedFrame| f@)
}

/// Whether every delay has a denominator above zero, as the decoders'
/// delays always have.
pub open spec fn delays_well_formed(frames: Seq<FrameData>) -> bool {
    forall|i: int| 0 <= i < frames.len() ==> #[trigger] frames[i].4 > 0
}

/// The frames that the GIF decoder of the `image` crate decodes from the
/// bytes, or `None` where it fails.
pub uninterp spec fn gif_frames(bytes: Seq<u8>) -> Option<Seq<FrameData>>;

/// The frames that the APNG decoder of the `image` crate decodes from the
/// bytes, or `None` where it fails.
pub uninterp spec fn apng_frames(bytes: Seq<u8>) -> Option<Seq<FrameData>>;

/// The frames that the WebP decoder of the `image` crate decodes from the
/// bytes, or `None` where it fails.
pub uninterp spec fn webp_frames(bytes: Seq<u8>) -> Option<Seq<FrameData>>;

/// `GifDecoder::new`, `into_frames` and `collect_frames` of the `image`
/// crate. Trusted to hand out the frames it decodes, each with its delay as
/// `Delay::numer_denom_ms` gives it, whose denominator is never zero (every
/// `Delay` is made through a ratio that asserts so); the frames are named,
/// not described.
#[verifier::external_body]
fn decode_gif(bytes: Vec<u8>) -> (r: Result<Vec<DecodedFrame>, image::ImageError>)
    ensures
        match r {
            Ok(v) => gif_frames(bytes@) == Some(decoded_view(v@)) && delays_well_formed(decoded_view(v@)),
            Err(_) => gif_frames(bytes@) is None,
        },
{
    let frames = GifDecoder::new(std::io::Cursor::new(bytes))?.into_frames().collect_frames()?;
    Ok(frames.into_iter().map(|f| {
        let (width, height) = f.buffer().dimensions();
        let (delay_numer_ms, delay_denom_ms) = f.delay().numer_denom_ms();
        DecodedFrame { width, height, pixels: f.into_buffer().into_vec(), delay_numer_ms, delay_denom_ms }
    }).collect())
}

/// `PngDecoder::new`, `apng`, `into_frames` and `collect_frames` of the
/// `image` crate, trusted as `decode_gif` is.
#[verifier::external_body]
fn decode_apng(bytes: Vec<u8>) -> (r: Result<Vec<DecodedFrame>, image::ImageError>)
    ensures
        match r {
            Ok(v) => apng_frames(bytes@) == Some(decoded_view(v@)) && delays_well_formed(decoded_view(v@)),
            Err(_) => apng_frames(bytes@) is None,
        },
{
    let frames = PngDecoder::new(std::io::Cursor::new(bytes))?.apng()?.into_frames().collect_frames()?;
    Ok(frames.into_iter().map(|f| {
        let (width, height) = f.buffer().dimensions();
        let (delay_numer_ms, delay_denom_ms) = f.delay().numer_denom_ms();
        DecodedFrame { width, height, pixels: f.into_buffer().into_vec(), delay_numer_ms, delay_denom_ms }
    }).collect())
}

/// `WebPDecoder::new`, `into_frames` and `collect_frames` of the `image`
/// crate, trusted as `decode_gif` is.
#[verifier::external_body]
fn decode_webp(bytes: Vec<u8>) -> (r: Result<Vec<DecodedFrame>, image::ImageError>)
    ensures
        match r {
            Ok(v) => webp_frames(bytes@) == Some(decoded_view(v@)) && delays_well_formed(decoded_view(v@)),
            Err(_) => webp_frames(bytes@) is None,
        },
{
    let frames = WebPDecoder::new(std::io::Cursor::new(bytes))?.into_frames().collect_frames()?;
    Ok(frames.into_iter().map(|f| {
        let (width, height) = f.buffer().dimensions();
        let (delay_numer_ms, delay_denom_ms) = f.delay().numer_denom_ms();
        DecodedFrame { width, height, pixels: f.into_buffer().into_vec(), delay_numer_ms, delay_denom_ms }
    }).collect())
}

/// The frames that the decoder for `image_type` decodes from the bytes.
pub open spec fn spec_decoded(bytes: Seq<u8>, image_type: ImageType) -> Option<Seq<FrameData>> {
    match image_type {
        ImageType::Gif => gif_frames(bytes),
        ImageType::Apng => apng_frames(bytes),
        ImageType::WebP => webp_frames(bytes),
    }
}

/// A delay of `numer / denom` milliseconds in nanoseconds: whole
/// milliseconds, plus the rest rounded down to a nanosecond.
pub open spec fn delay_nanos(numer: u32, denom: u32) -> int {
    (numer / denom) * 1_000_000 + ((numer % denom) * 1_000_000) / (denom as int)
}

/// The delay of `numer / denom` milliseconds in nanoseconds.
pub fn delay_to_nanos(numer: u32, denom: u32) -> (r: u64)
    requires
        denom > 0,
    ensures
        r == delay_nanos(numer, denom),
{
    let ms = (numer / denom) as u64;
    let rest = (numer % denom) as u64;
    assert(ms * 1_000_000 <= 0xFFFF_FFFF * 1_000_000) by (nonlinear_arith)
        requires
            ms <= 0xFFFF_FFFF,
    ;
    assert(rest * 1_000_000 <= 0xFFFF_FFFF * 1_000_000) by (nonlinear_arith)
        requires
            rest <= 0xFFFF_FFFF,
    ;
    ms * 1_000_000 + (rest * 1_000_000) / (denom as u64)
}

/// A frame of an animated image: how long it shows, in nanoseconds, and its
/// pixels.
pub struct Frame {
    pub delay_nanos: u64,
    pub handle: ImageHandle,
}

impl View for Frame {
    type V = (int, ImageData);

    open spec fn view(&self) -> (int, ImageData) {
        (self.delay_nanos as int, self.handle@)
    }
}

/// The frame made of a decoded frame.
pub open spec fn spec_frame(d: FrameData) -> (int, ImageData) {
    (delay_nanos(d.3, d.4), ImageData::Rgba(d.0, d.1, d.2))
}

impl Frame {
    /// The frame made of a decoded frame: its delay in nanoseconds, and its
    /// pixels as a raw RGBA image.
    pub fn from_decoded(frame: DecodedFrame) -> (r: Frame)
        requires
            frame.delay_denom_ms > 0,
        ensures
            r@ == spec_frame(frame@),
    {
        let delay_nanos = delay_to_nanos(frame.delay_numer_ms, frame.delay_denom_ms);
        Frame {
            delay_nanos,
            handle: ImageHandle::Rgba { width: frame.width, height: frame.height, pixels: frame.pixels },
        }
    }

    /// A copy of the frame.
    pub fn duplicate(&self) -> (r: Frame)
        ensures
            r@ == self@,
    {
        let handle = match &self.handle {
            ImageHandle::Path(p) => ImageHandle::Path(p.clone()),
            ImageHandle::Bytes(b) => ImageHandle::Bytes(copy_bytes(b)),
            ImageHandle::Rgba { width, height, pixels } => ImageHandle::Rgba {
                width: *width,
                height: *height,
                pixels: copy_bytes(pixels),
            },
        };
        Frame { delay_nanos: self.delay_nanos, handle }
    }
}

/// The number of pixel bytes of the first `k` decoded frames.
pub open spec fn pixel_bytes(frames: Seq<FrameData>, k: nat) -> int
    decreases k,
{
    if k == 0 || k > frames.len() {
        0
    } else {
        pixel_bytes(frames, (k - 1) as nat) + frames[k - 1].2.len()
    }
}

proof fn lemma_pixel_bytes_monotone(frames: Seq<FrameData>, j: nat, k: nat)
    requires
        j <= k <= frames.len(),
    ensures
        pixel_bytes(frames, j) <= pixel_bytes(frames, k),
    decreases k - j,
{
    if j < k {
        lemma_pixel_bytes_monotone(frames, j, (k - 1) as nat);
    }
}

/// The decoded frames of an animated image.
pub struct Frames {
    pub first: Frame,
    pub frames: Vec<Frame>,
    /// The number of bytes the frames hold, or zero where it does not fit.
    pub total_bytes: u64,
}

/// Whether `f` holds the decoded frames `d`: each one made into a frame,
/// the first one again apart, and their byte count.
pub open spec fn holds_frames(f: Frames, d: Seq<FrameData>) -> bool {
    &&& f.frames@.len() == d.len()
    &&& forall|i: int| 0 <= i < d.len() ==> #[trigger] f.frames@[i]@ == spec_frame(d[i])
    &&& f.first@ == spec_frame(d[0])
    &&& f.total_bytes == (if pixel_bytes(d, d.len()) <= u64::MAX { pixel_bytes(d, d.len()) } else { 0 })
}

/// Adds up the pixel bytes of the frames, where the sum fits.
fn checked_pixel_bytes(frames: &Vec<DecodedFrame>) -> (r: Option<usize>)
    ensures
        match r {
            Some(n) => n == pixel_bytes(decoded_view(frames@), frames@.len()),
            None => pixel_bytes(decoded_view(frames@), frames@.len()) > usize::MAX,
        },
{
    let ghost d = decoded_view(frames@);
    let mut sum: usize = 0;
    let mut i: usize = 0;
    while i < frames.len()
        invariant
            0 <= i <= frames@.len(),
            d == decoded_view(frames@),
            sum == pixel_bytes(d, i as nat),
        decreases frames.len() - i,
    {
        assert(d[i as int].2 == frames@[i as int].pixels@);
        match sum.checked_add(frames[i].pixels.len()) {
            Some(s) => sum = s,
            None => {
                proof {
                    lemma_pixel_bytes_monotone(d, (i + 1) as nat, frames@.len());
                }
                return None;
            },
        }
        i += 1;
    }
    Some(sum)
}

impl Frames {
    /// The frames of an animated image from what a decoder handed out.
    pub fn from_decoder(decoded: Vec<DecodedFrame>) -> (r: Frames)
        requires
            decoded@.len() > 0,
            delays_well_formed(decoded_view(decoded@)),
            pixel_bytes(decoded_view(decoded@), decoded@.len()) <= usize::MAX,
        ensures
            holds_frames(r, decoded_view(decoded@)),
    {
        let ghost d = decoded_view(decoded@);
        let n = decoded.len();
        let mut sum: usize = 0;
        let mut frames: Vec<Frame> = Vec::new();
        let mut rest = decoded;
        let mut i: usize = 0;
        while i < n
            invariant
                n == d.len(),
                0 <= i <= n,
                delays_well_formed(d),
                pixel_bytes(d, n as nat) <= usize::MAX,
                decoded_view(rest@) == d.skip(i as int),
                frames@.len() == i,
                forall|j: int| 0 <= j < i ==> #[trigger] frames@[j]@ == spec_frame(d[j]),
                sum == pixel_bytes(d, i as nat),
            decreases n - i,
        {
            assert(decoded_view(rest@).len() == rest@.len());
            assert(decoded_view(rest@)[0] == d[i as int]);
            assert(decoded_view(rest@)[0] == rest@[0]@);
            let ghost old_rest = rest@;
            let f = rest.remove(0);
            assert(f@ == d[i as int]);
            assert(d[i as int].4 > 0);
            proof {
                lemma_pixel_bytes_monotone(d, (i + 1) as nat, n as nat);
            }
            sum = sum + f.pixels.len();
            frames.push(Frame::from_decoded(f));
            assert(decoded_view(rest@) =~= d.skip(i + 1)) by {
                assert(decoded_view(old_rest).len() == old_rest.len());
                assert forall|j: int| 0 <= j < rest@.len() implies decoded_view(rest@)[j] == d.skip(i + 1)[j] by {
                    assert(rest@[j] == old_rest[j + 1]);
                    assert(decoded_view(old_rest)[j + 1] == d.skip(i as int)[j + 1]);
                }
            }
            i += 1;
        }
        let first = frames[0].duplicate();
        let total_bytes: u64 = if sum as u128 <= u64::MAX as u128 { sum as u64 } else { 0 };
        Frames { first, frames, total_bytes }
    }

    /// Decodes the frames of an animated image of the given kind from its
    /// bytes.
    ///
    /// A decoder error is returned as it came. An image without frames, or
    /// whose pixels do not fit in memory, has no frames to show: then the
    /// result is `None`.
    pub fn from_bytes(bytes: Vec<u8>, image_type: ImageType) -> (r: Option<Result<Frames, Error>>)
        ensures
            match spec_decoded(bytes@, image_type) {
                None => r matches Some(Err(Error::Image(_))),
                Some(d) => if d.len() == 0 || pixel_bytes(d, d.len()) > usize::MAX {
                    r is None
                } else {
                    r matches Some(Ok(f)) && holds_frames(f, d)
                },
            },
    {
        let decoded = match image_type {
            ImageType::Gif => decode_gif(bytes),
            ImageType::Apng => decode_apng(bytes),
            ImageType::WebP => decode_webp(bytes),
        };
        match decoded {
            Err(e) => Some(Err(Error::Image(e))),
            Ok(frames) => {
                if frames.len() == 0 {
                    return None;
                }
                match checked_pixel_bytes(&frames) {
                    None => None,
                    Some(_) => Some(Ok(Frames::from_decoder(frames))),
                }
            },
        }
    }
}


/// A widget showing the frames of an animated image in turn, keeping the
/// image's aspect ratio.
pub struct AnimatedImage<'a> {
    pub frames: &'a Frames,
    pub width: Length,
    pub height: Length,
    pub content_fit: ContentFit,
}

/// An animated image of the given frames, shrinking to them and fitting
/// within its bounds.
pub fn animated_image(frames: &Frames) -> (r: AnimatedImage<'_>)
    ensures
        r.frames == frames,
        r.width == Length::Shrink && r.height == Length::Shrink,
        r.content_fit == ContentFit::Contain,
{
    AnimatedImage::new(frames)
}

impl<'a> AnimatedImage<'a> {
    /// An animated image of the given frames, shrinking to them and fitting
    /// within its bounds.
    pub fn new(frames: &'a Frames) -> (r: Self)
        ensures
            r.frames == frames,
            r.width == Length::Shrink && r.height == Length::Shrink,
            r.content_fit == ContentFit::Contain,
    {
        AnimatedImage { frames, width: Length::Shrink, height: Length::Shrink, content_fit: ContentFit::Contain }
    }

    /// Sets the width.
    pub fn width(self, width: Length) -> (r: Self)
        ensures
            r == (AnimatedImage { width, ..self }),
    {
        AnimatedImage { width, ..self }
    }

    /// Sets the height.
    pub fn height(self, height: Length) -> (r: Self)
        ensures
            r == (AnimatedImage { height, ..self }),
    {
        AnimatedImage { height, ..self }
    }

    /// Sets how the image fits its bounds.
    pub fn content_fit(self, content_fit: ContentFit) -> (r: Self)
        ensures
            r == (AnimatedImage { content_fit, ..self }),
    {
        AnimatedImage { content_fit, ..self }
    }

    /// The animation state of a new widget: the first frame from `now`.
    pub fn state(&self, now: u64) -> (r: Animation)
        ensures
            r == (Animation { index: 0, started: now, total_bytes: self.frames.total_bytes }),
    {
        Animation::new(now, self.frames.total_bytes)
    }

    /// The delay of each frame, in nanoseconds, in order.
    pub fn delays(&self) -> (r: Vec<u64>)
        ensures
            r@.len() == self.frames.frames@.len(),
            forall|i: int| 0 <= i < r@.len() ==> #[trigger] r@[i] == self.frames.frames@[i].delay_nanos,
    {
        let mut r: Vec<u64> = Vec::new();
        let mut i: usize = 0;
        while i < self.frames.frames.len()
            invariant
                0 <= i <= self.frames.frames@.len(),
                r@.len() == i,
                forall|k: int| 0 <= k < i ==> #[trigger] r@[k] == self.frames.frames@[k].delay_nanos,
            decreases self.frames.frames.len() - i,
        {
            r.push(self.frames.frames[i].delay_nanos);
            i += 1;
        }
        r
    }
}

} // verus!
