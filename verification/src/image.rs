//! A decoded image for the host's drawing surface, which wants its pixels in
//! blue, green, red, alpha order.

use vstd::prelude::*;
use vstd::slice::SliceAdditionalExecFns;

verus! {

/// The first frame of an image as the decoder hands it out: the width and
/// height in pixels, the bytes of one line, the bytes of the whole frame,
/// and the buffer that was decoded into, which may be longer than the frame.
pub struct DecodedFrame {
    pub width: usize,
    pub height: usize,
    pub line_size: usize,
    pub frame_size: usize,
    pub buffer: Vec<u8>,
}

/// What the `png` crate decodes from `bytes` as the first frame: its width
/// and height in pixels, the bytes of one line, the bytes of the frame, and
/// the buffer it was decoded into; or nothing when `bytes` is not an image
/// it can decode.
pub uninterp spec fn png_decoding(bytes: Seq<u8>) -> Option<(nat, nat, nat, nat, Seq<u8>)>;

/// `png::Decoder::read_info` and `png::Reader::next_frame` on a buffer of
/// `output_buffer_size` bytes: the first frame of the image in `png_bytes`.
#[verifier::external_body]
pub(crate) fn decode_png(png_bytes: &[u8]) -> (decoded: Option<DecodedFrame>)
    ensures
        decoded is Some <==> png_decoding(png_bytes@) is Some,
        decoded matches Some(frame) ==> png_decoding(png_bytes@) == Some(
            (
                frame.width as nat,
                frame.height as nat,
                frame.line_size as nat,
                frame.frame_size as nat,
                frame.buffer@,
            ),
        ),
{
    let mut reader = png::Decoder::new(std::io::Cursor::new(png_bytes)).read_info().ok()?;
    let mut buffer = vec![0; reader.output_buffer_size()];
    let info = reader.next_frame(&mut buffer).ok()?;
    Some(
        DecodedFrame {
            width: info.width as usize,
            height: info.height as usize,
            line_size: info.line_size,
            frame_size: info.buffer_size(),
            buffer,
        },
    )
}

/// The byte sequence `s` with the first and third byte of every complete
/// group of four exchanged; a trailing partial group is left as it is.
pub open spec fn swapped_red_blue(s: Seq<u8>) -> Seq<u8> {
    Seq::new(
        s.len(),
        |i: int|
            if i >= (s.len() / 4) * 4 {
                s[i]
            } else if i % 4 == 0 {
                s[i + 2]
            } else if i % 4 == 2 {
                s[i - 2]
            } else {
                s[i]
            },
    )
}

/// The buffer `s` cut or filled with zeros to `size` bytes.
pub open spec fn sized(s: Seq<u8>, size: nat) -> Seq<u8> {
    Seq::new(
        size,
        |i: int|
            if i < s.len() {
                s[i]
            } else {
                0u8
            },
    )
}

/// A decoded image with its pixels in blue, green, red, alpha order.
pub struct PngImage {
    pub width: usize,
    pub height: usize,
    pub line_size: usize,
    pub data: Vec<u8>,
}

impl PngImage {
    /// Whether this image is the decoded frame `frame`, cut to the size of
    /// the frame, with red and blue exchanged.
    pub open spec fn is_frame(&self, frame: (nat, nat, nat, nat, Seq<u8>)) -> bool {
        &&& self.width == frame.0
        &&& self.height == frame.1
        &&& self.line_size == frame.2
        &&& self.data@ == swapped_red_blue(sized(frame.4, frame.3))
    }

    /// The image of a decoded frame of red, green, blue, alpha pixels.
    pub fn from_frame(frame: DecodedFrame) -> (image: Self)
        ensures
            image.is_frame(
                (
                    frame.width as nat,
                    frame.height as nat,
                    frame.line_size as nat,
                    frame.frame_size as nat,
                    frame.buffer@,
                ),
            ),
    {
        let mut data = frame.buffer;
        if data.len() != frame.frame_size {
            data.resize(frame.frame_size, 0);
        }
        assert(data@ =~= sized(frame.buffer@, frame.frame_size as nat));
        Self::rgba_to_bgra(data.as_mut_slice());
        PngImage { width: frame.width, height: frame.height, line_size: frame.line_size, data }
    }

    /// The image in `png_bytes`, which must hold one that can be decoded.
    pub fn new(png_bytes: &[u8]) -> (image: Self)
        requires
            png_decoding(png_bytes@) is Some,
        ensures
            image.is_frame(png_decoding(png_bytes@)->0),
    {
        match decode_png(png_bytes) {
            Some(frame) => Self::from_frame(frame),
            None => PngImage { width: 0, height: 0, line_size: 0, data: Vec::new() },
        }
    }

    /// The image in `png_bytes`, or nothing when the bytes hold none that
    /// can be decoded.
    pub fn try_new(png_bytes: &[u8]) -> (image: Option<Self>)
        ensures
            image is Some <==> png_decoding(png_bytes@) is Some,
            image matches Some(decoded) ==> decoded.is_frame(png_decoding(png_bytes@)->0),
    {
        if decode_png(png_bytes).is_some() {
            Some(Self::new(png_bytes))
        } else {
            None
        }
    }

    /// Converts red, green, blue, alpha pixels to blue, green, red, alpha in
    /// place.
    pub fn rgba_to_bgra(data: &mut [u8])
        ensures
            final(data)@ == swapped_red_blue(old(data)@),
    {
        let n: usize = data.len();
        let groups: usize = n / 4;
        let mut g: usize = 0;
        while g < groups
            invariant
                n == old(data)@.len(),
                data@.len() == n,
                groups == n / 4,
                g <= groups,
                forall|i: int| 0 <= i < 4 * g ==> data@[i] == swapped_red_blue(old(data)@)[i],
                forall|i: int| 4 * g <= i < n ==> data@[i] == old(data)@[i],
            decreases groups - g,
        {
            let base: usize = g * 4;
            let r: u8 = data[base];
            let b: u8 = data[base + 2];
            data.set(base, b);
            data.set(base + 2, r);
            g = g + 1;
        }
        assert(data@ =~= swapped_red_blue(old(data)@));
    }
}

} // verus!
