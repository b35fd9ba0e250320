//! The frame payload: pictures of one canvas, run through one H.264 encoder.
//!
//! The caller draws each picture as RGBA bytes, row by row from the top. The
//! generator drops the alpha channel, hands the picture to its encoder and
//! wraps the bitstream that comes back. The encoder compresses over time, so
//! a generator belongs to one connection and to no other.

use vstd::prelude::*;

verus! {

/// One encoded picture: a bitstream of at least one byte, never changed once
/// made.
#[derive(Debug)]
pub struct Frame {
    data: Vec<u8>,
}

impl View for Frame {
    type V = Seq<u8>;

    closed spec fn view(&self) -> Seq<u8> {
        self.data@
    }
}

impl Frame {
    /// A frame is never empty.
    #[verifier::type_invariant]
    spec fn holds_bytes(self) -> bool {
        self.data@.len() > 0
    }

    /// Wraps an encoded bitstream. There is no frame of no bytes.
    pub fn with_bitstream(bitstream: Vec<u8>) -> (frame: Option<Frame>)
        ensures
            bitstream@.len() == 0 <==> frame is None,
            frame matches Some(made) ==> made@ == bitstream@,
    {
        if bitstream.len() == 0 {
            None
        } else {
            Some(Frame { data: bitstream })
        }
    }

    /// The encoded bytes, of which there is at least one.
    pub fn data(&self) -> (bytes: &[u8])
        ensures
            bytes@ == self@,
            bytes@.len() > 0,
    {
        proof {
            use_type_invariant(self);
        }
        self.data.as_slice()
    }

    /// Gives up the frame for its bytes, of which there is at least one.
    pub fn to_vec(self) -> (bytes: Vec<u8>)
        ensures
            bytes@ == self@,
            bytes@.len() > 0,
    {
        proof {
            use_type_invariant(&self);
        }
        self.data
    }
}

/// Why no frame came out. All but `Skipped` end the connection that asked;
/// the server goes on.
#[derive(Clone, Copy, Debug, PartialEq, Eq, Structural)]
pub enum EncodingError {
    /// The canvas has an odd side or is too large to address.
    Canvas,
    /// The picture does not have four bytes for every pixel of the canvas.
    Picture,
    /// The encoder could not be set up, or refused the picture.
    Encoder,
    /// The encoder took the picture and made no bitstream for it: it skipped
    /// the frame. The stream goes on with the next picture.
    Skipped,
}

/// Bytes of one RGBA pixel.
pub const RGBA_BYTES: usize = 4;

/// Bytes of one RGB pixel.
pub const RGB_BYTES: usize = 3;

/// Default width of the canvas.
pub const DEFAULT_WIDTH: u32 = 800;

/// Default height of the canvas.
pub const DEFAULT_HEIGHT: u32 = 600;

/// `pixels` without every fourth byte: byte `k` of the result is byte
/// `k + k / 3` of `pixels`.
pub open spec fn without_alpha(pixels: Seq<u8>) -> Seq<u8> {
    Seq::new((pixels.len() - pixels.len() / 4) as nat, |k: int| pixels[k + k / 3])
}

/// The first `n` bytes of `pixels`, each kept unless it stands at a fourth
/// place.
pub open spec fn kept_of(pixels: Seq<u8>, n: nat) -> Seq<u8>
    decreases n,
{
    if n == 0 {
        Seq::empty()
    } else if n % 4 == 0 {
        kept_of(pixels, (n - 1) as nat)
    } else {
        kept_of(pixels, (n - 1) as nat).push(pixels[n - 1])
    }
}

/// Dropping every fourth byte one by one gives `without_alpha`.
pub proof fn lemma_without_alpha_drops_fourths(pixels: Seq<u8>, n: nat)
    requires
        n <= pixels.len(),
    ensures
        kept_of(pixels, n) == without_alpha(pixels.take(n as int)),
    decreases n,
{
    if n > 0 {
        let before = (n - 1) as nat;
        lemma_without_alpha_drops_fourths(pixels, before);
        assert(without_alpha(pixels.take(before as int)).len() == before - before / 4);
        if n % 4 == 0 {
            assert(without_alpha(pixels.take(n as int)) =~= without_alpha(
                pixels.take(before as int),
            ));
        } else {
            assert(without_alpha(pixels.take(n as int)) =~= without_alpha(
                pixels.take(before as int),
            ).push(pixels[n - 1]));
        }
    } else {
        assert(without_alpha(pixels.take(0)) =~= Seq::<u8>::empty());
    }
}

/// A picture of whole RGBA pixels loses a quarter of its bytes, and pixel
/// `p` keeps its red, green and blue in that order.
pub proof fn lemma_without_alpha_pixels(pixels: Seq<u8>, p: int)
    requires
        pixels.len() % 4 == 0,
        0 <= p < pixels.len() / 4,
    ensures
        without_alpha(pixels).len() * 4 == pixels.len() * 3,
        without_alpha(pixels)[3 * p] == pixels[4 * p],
        without_alpha(pixels)[3 * p + 1] == pixels[4 * p + 1],
        without_alpha(pixels)[3 * p + 2] == pixels[4 * p + 2],
{
}

/// Drops the alpha channel of an RGBA picture.
pub fn strip_alpha(pixels: &[u8]) -> (rgb: Vec<u8>)
    ensures
        rgb@ == without_alpha(pixels@),
{
    let mut rgb: Vec<u8> = Vec::new();
    let mut i: usize = 0;
    while i < pixels.len()
        invariant
            i <= pixels.len(),
            rgb@.len() == i - i / 4,
            forall|k: int| 0 <= k < rgb@.len() ==> rgb@[k] == pixels@[k + k / 3],
        decreases pixels.len() - i,
    {
        if i % 4 != 3 {
            rgb.push(pixels[i]);
        }
        i += 1;
    }
    assert(rgb@ =~= without_alpha(pixels@));
    rgb
}

/// The H.264 encoder, held by a generator and never looked into.
#[verifier::external_type_specification]
#[verifier::external_body]
pub struct ExEncoder(openh264::encoder::Encoder);

/// The error type of the encoder library, carried through unread.
#[verifier::external_type_specification]
#[verifier::external_body]
pub struct ExEncoderError(openh264::Error);

/// The width and height that an encoder was configured for.
pub uninterp spec fn encoder_canvas(encoder: openh264::encoder::Encoder) -> (int, int);

/// Whether a canvas of this size can be encoded: both sides even, each
/// within `i32`, and four bytes a pixel within `usize`.
pub open spec fn supported_canvas(width: u32, height: u32) -> bool {
    &&& width % 2 == 0
    &&& height % 2 == 0
    &&& width <= i32::MAX
    &&& height <= i32::MAX
    &&& width * height * RGBA_BYTES <= usize::MAX
}

/// Calls `openh264::encoder::Encoder::with_config` on
/// `EncoderConfig::new(width, height)`. Trusted: an encoder that comes back
/// is configured for that width and height. Whether one comes back rests
/// with the encoder library.
#[verifier::external_body]
fn new_encoder(width: u32, height: u32) -> (encoder: Result<
    openh264::encoder::Encoder,
    openh264::Error,
>)
    requires
        width <= i32::MAX,
        height <= i32::MAX,
    ensures
        encoder matches Ok(made) ==> encoder_canvas(made) == (width as int, height as int),
{
    openh264::encoder::Encoder::with_config(openh264::encoder::EncoderConfig::new(width, height))
}

/// Calls `openh264::formats::YUVBuffer::with_rgb` on the picture and
/// `Encoder::encode` on what it gives, and copies the bitstream out with
/// `EncodedBitStream::to_vec`. Trusted: the call returns and the encoder
/// keeps its configuration. Nothing is claimed of the bitstream, which
/// depends on the frames that the encoder saw before. The `requires` leaves
/// out what the two calls panic on: a picture that does not have three bytes
/// for every pixel, an odd side, and a size other than the encoder's.
#[verifier::external_body]
fn encode_rgb(encoder: &mut openh264::encoder::Encoder, width: usize, height: usize, rgb: &[u8]) -> (bitstream:
    Result<Vec<u8>, openh264::Error>)
    requires
        encoder_canvas(*old(encoder)) == (width as int, height as int),
        width % 2 == 0,
        height % 2 == 0,
        rgb@.len() == width * height * RGB_BYTES,
    ensures
        encoder_canvas(*final(encoder)) == encoder_canvas(*old(encoder)),
{
    let picture = openh264::formats::YUVBuffer::with_rgb(width, height, rgb);
    Ok(encoder.encode(&picture)?.to_vec())
}

/// What becomes of the encoder's answer: a bitstream of at least one byte
/// is wrapped as it is, a bitstream of none is reported as `Skipped`, and a
/// refusal as `Encoder`.
pub fn frame_from_encoding(encoded: Result<Vec<u8>, openh264::Error>) -> (frame: Result<
    Frame,
    EncodingError,
>)
    ensures
        match encoded {
            Ok(bitstream) => if bitstream@.len() > 0 {
                frame matches Ok(made) && made@ == bitstream@
            } else {
                frame matches Err(e) && e == EncodingError::Skipped
            },
            Err(_) => frame matches Err(e) && e == EncodingError::Encoder,
        },
        frame matches Ok(made) ==> made@.len() > 0,
{
    match encoded {
        Ok(bitstream) => match Frame::with_bitstream(bitstream) {
            Some(made) => Ok(made),
            None => Err(EncodingError::Skipped),
        },
        Err(_) => Err(EncodingError::Encoder),
    }
}

/// Encodes the pictures of one connection, one after another.
pub struct FrameGenerator {
    encoder: openh264::encoder::Encoder,
    width: u32,
    height: u32,
    produced: u64,
}

impl FrameGenerator {
    /// Width of the canvas in pixels.
    pub closed spec fn canvas_width(&self) -> u32 {
        self.width
    }

    /// Height of the canvas in pixels.
    pub closed spec fn canvas_height(&self) -> u32 {
        self.height
    }

    /// Index of the next frame: how many frames have come out so far,
    /// counted up to `u64::MAX`.
    pub closed spec fn frame_index(&self) -> int {
        self.produced as int
    }

    /// The encoder is configured for the canvas, and the canvas is one that
    /// can be encoded.
    pub closed spec fn wf(&self) -> bool {
        &&& supported_canvas(self.width, self.height)
        &&& encoder_canvas(self.encoder) == (self.width as int, self.height as int)
    }

    /// Bytes of one RGBA picture of the canvas.
    pub open spec fn picture_len(&self) -> int {
        self.canvas_width() * self.canvas_height() * RGBA_BYTES
    }

    /// A generator with a fresh encoder for a canvas of `width` by `height`
    /// pixels. Fails with `Canvas` exactly when the canvas is not supported;
    /// otherwise the encoder library decides, and its refusal is `Encoder`.
    pub fn new(width: u32, height: u32) -> (generator: Result<FrameGenerator, EncodingError>)
        ensures
            !supported_canvas(width, height) <==> (generator matches Err(e) && e
                == EncodingError::Canvas),
            generator matches Ok(made) ==> made.wf() && made.canvas_width() == width
                && made.canvas_height() == height && made.frame_index() == 0,
            generator matches Err(e) ==> e == EncodingError::Canvas || e == EncodingError::Encoder,
    {
        if width % 2 != 0 || height % 2 != 0 || width > i32::MAX as u32 || height > i32::MAX as u32 {
            return Err(EncodingError::Canvas);
        }
        assert(width * height <= 0x7fff_ffff * 0x7fff_ffff) by (nonlinear_arith)
            requires
                width <= 0x7fff_ffff,
                height <= 0x7fff_ffff,
        ;
        let pixels: u64 = width as u64 * height as u64;
        if pixels > (usize::MAX / RGBA_BYTES) as u64 {
            assert(width * height * RGBA_BYTES > usize::MAX) by (nonlinear_arith)
                requires
                    width * height > usize::MAX / RGBA_BYTES,
                    RGBA_BYTES == 4,
            ;
            return Err(EncodingError::Canvas);
        }
        match new_encoder(width, height) {
            Ok(encoder) => Ok(FrameGenerator { encoder, width, height, produced: 0 }),
            Err(_) => Err(EncodingError::Encoder),
        }
    }

    /// Width of the canvas in pixels.
    pub fn width(&self) -> (width: u32)
        ensures
            width == self.canvas_width(),
    {
        self.width
    }

    /// Height of the canvas in pixels.
    pub fn height(&self) -> (height: u32)
        ensures
            height == self.canvas_height(),
    {
        self.height
    }

    /// How many frames have come out so far, counted up to `u64::MAX`.
    pub fn frames_produced(&self) -> (count: u64)
        ensures
            count == self.frame_index(),
    {
        self.produced
    }

    /// Encodes the next picture of the stream. `picture` holds the canvas as
    /// RGBA bytes.
    ///
    /// Fails with `Picture` exactly when `picture` does not have four bytes
    /// for every pixel; the encoder is then left alone. Otherwise the encoder
    /// decides: its bitstream comes back as the frame, its refusal as
    /// `Encoder`, and a bitstream of no bytes as `Skipped`, so that a frame
    /// that comes out is never empty. The frame index moves on by one with
    /// every frame that comes out and with nothing else.
    pub fn next_frame(&mut self, picture: &[u8]) -> (frame: Result<Frame, EncodingError>)
        requires
            old(self).wf(),
        ensures
            final(self).wf(),
            final(self).canvas_width() == old(self).canvas_width(),
            final(self).canvas_height() == old(self).canvas_height(),
            picture@.len() != old(self).picture_len() <==> (frame matches Err(e) && e
                == EncodingError::Picture),
            frame is Err ==> final(self).frame_index() == old(self).frame_index(),
            frame is Ok ==> final(self).frame_index() == if old(self).frame_index() < u64::MAX {
                old(self).frame_index() + 1
            } else {
                old(self).frame_index()
            },
            frame matches Err(e) ==> e == EncodingError::Picture || e == EncodingError::Encoder
                || e == EncodingError::Skipped,
            frame matches Ok(made) ==> made@.len() > 0,
    {
        let width = self.width as usize;
        let height = self.height as usize;
        assert(width * height * RGBA_BYTES <= usize::MAX && width * height * RGB_BYTES
            <= width * height * RGBA_BYTES && width * height <= width * height * RGBA_BYTES)
            by (nonlinear_arith)
            requires
                width * height * RGBA_BYTES <= usize::MAX,
                RGBA_BYTES == 4,
                RGB_BYTES == 3,
        ;
        if picture.len() != width * height * RGBA_BYTES {
            return Err(EncodingError::Picture);
        }
        let rgb = strip_alpha(picture);
        assert(rgb@.len() == width * height * RGB_BYTES) by (nonlinear_arith)
            requires
                rgb@.len() == picture@.len() - picture@.len() / 4,
                picture@.len() == width * height * RGBA_BYTES,
                RGBA_BYTES == 4,
                RGB_BYTES == 3,
        ;
        let frame = frame_from_encoding(encode_rgb(&mut self.encoder, width, height, rgb.as_slice()));
        if frame.is_ok() && self.produced < u64::MAX {
            self.produced = self.produced + 1;
        }
        frame
    }
}

} // verus!
