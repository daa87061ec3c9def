//! The captured frame: which output to ask for, and what makes a raw
//! buffer an image.

use vstd::prelude::*;

verus! {

/// Why a capture gave no image.
#[derive(Clone, Copy, Debug, PartialEq, Eq, Structural)]
pub enum CaptureError {
    /// The output index is not below the number of outputs.
    OutputOutOfRange,
    /// The compositor did not deliver a frame.
    CompositorFailed,
    /// The frame has no pixels: its width or height is zero.
    EmptyFrame,
    /// The buffer is not four bytes for each pixel.
    WrongLength,
}

/// The order of the four channels within a pixel.
#[derive(Clone, Copy, Debug, PartialEq, Eq, Structural)]
pub enum ChannelOrder {
    Rgba,
    Bgra,
    Argb,
    Abgr,
}

/// A frame as the compositor hands it over, unchecked.
pub struct RawFrame {
    pub width: u32,
    pub height: u32,
    pub bytes: Vec<u8>,
}

/// What a captured image holds: its size in pixels and its bytes, row by
/// row, four to a pixel in the order red, green, blue, alpha.
pub struct ImageModel {
    pub width: int,
    pub height: int,
    pub bytes: Seq<u8>,
}

impl ImageModel {
    /// Both dimensions are positive and there are four bytes for each
    /// pixel.
    pub open spec fn wf(self) -> bool {
        &&& 0 < self.width <= u32::MAX
        &&& 0 < self.height <= u32::MAX
        &&& self.bytes.len() == self.width * self.height * 4
    }
}

/// What is wrong with a frame of the given size and buffer length, or
/// `None` where it is an image.
pub open spec fn frame_fault(width: int, height: int, len: int) -> Option<CaptureError> {
    if width == 0 || height == 0 {
        Some(CaptureError::EmptyFrame)
    } else if len != width * height * 4 {
        Some(CaptureError::WrongLength)
    } else {
        None
    }
}

/// The image that a raw frame is, or what is wrong with the frame.
pub open spec fn checked_frame(frame: RawFrame) -> Result<ImageModel, CaptureError> {
    match frame_fault(frame.width as int, frame.height as int, frame.bytes@.len() as int) {
        Some(e) => Err(e),
        None => Ok(
            ImageModel {
                width: frame.width as int,
                height: frame.height as int,
                bytes: frame.bytes@,
            },
        ),
    }
}

/// The image that the compositor's answer gives: a missing frame is a
/// failed capture, a frame is checked.
pub open spec fn checked_capture(outcome: Option<RawFrame>) -> Result<ImageModel, CaptureError> {
    match outcome {
        None => Err(CaptureError::CompositorFailed),
        Some(frame) => checked_frame(frame),
    }
}

/// Where, within a pixel stored as red, green, blue, alpha, the channel
/// lies that `order` puts at place `k`.
pub open spec fn channel_source(order: ChannelOrder, k: int) -> int {
    match order {
        ChannelOrder::Rgba => k,
        ChannelOrder::Bgra => if k == 3 {
            3
        } else {
            2 - k
        },
        ChannelOrder::Argb => if k == 0 {
            3
        } else {
            k - 1
        },
        ChannelOrder::Abgr => 3 - k,
    }
}

/// The bytes of an image with the channels of every pixel put in `order`.
pub open spec fn reordered_bytes(bytes: Seq<u8>, order: ChannelOrder) -> Seq<u8> {
    Seq::new(bytes.len(), |i: int| bytes[(i / 4) * 4 + channel_source(order, i % 4)])
}

/// Picks the output to capture: `index` itself where there is such an
/// output.
pub fn select_output(output_count: usize, index: usize) -> (r: Result<usize, CaptureError>)
    ensures
        index < output_count ==> r == Ok::<usize, CaptureError>(index),
        index >= output_count ==> r == Err::<usize, CaptureError>(CaptureError::OutputOutOfRange),
{
    if index < output_count {
        Ok(index)
    } else {
        Err(CaptureError::OutputOutOfRange)
    }
}

/// A captured frame that is known to be an image. It is never changed:
/// pan and zoom work on how it is shown.
pub struct CapturedImage {
    width: u32,
    height: u32,
    bytes: Vec<u8>,
}

impl View for CapturedImage {
    type V = ImageModel;

    closed spec fn view(&self) -> ImageModel {
        ImageModel { width: self.width as int, height: self.height as int, bytes: self.bytes@ }
    }
}

impl CapturedImage {
    #[verifier::type_invariant]
    spec fn valid(self) -> bool {
        self@.wf()
    }

    /// Checks a raw frame and makes it an image.
    pub fn from_frame(frame: RawFrame) -> (r: Result<CapturedImage, CaptureError>)
        ensures
            match r {
                Ok(image) => checked_frame(frame) == Ok::<ImageModel, CaptureError>(image@)
                    && image@.wf(),
                Err(e) => checked_frame(frame) == Err::<ImageModel, CaptureError>(e),
            },
    {
        if frame.width == 0 || frame.height == 0 {
            return Err(CaptureError::EmptyFrame);
        }
        assert(frame.width * frame.height * 4 <= 0xffff_ffff * 0xffff_ffff * 4)
            by (nonlinear_arith)
            requires
                0 <= frame.width <= 0xffff_ffff,
                0 <= frame.height <= 0xffff_ffff,
        ;
        let expected: u128 = frame.width as u128 * frame.height as u128 * 4;
        if frame.bytes.len() as u128 != expected {
            return Err(CaptureError::WrongLength);
        }
        Ok(CapturedImage { width: frame.width, height: frame.height, bytes: frame.bytes })
    }

    /// Turns what the compositor answered into an image: a missing frame is
    /// a failed capture, a frame is checked.
    pub fn from_capture(outcome: Option<RawFrame>) -> (r: Result<CapturedImage, CaptureError>)
        ensures
            match r {
                Ok(image) => checked_capture(outcome) == Ok::<ImageModel, CaptureError>(image@)
                    && image@.wf(),
                Err(e) => checked_capture(outcome) == Err::<ImageModel, CaptureError>(e),
            },
    {
        match outcome {
            None => Err(CaptureError::CompositorFailed),
            Some(frame) => CapturedImage::from_frame(frame),
        }
    }

    /// The width in pixels.
    pub fn width(&self) -> (w: u32)
        ensures
            w == self@.width,
            self@.wf(),
    {
        proof {
            use_type_invariant(self);
        }
        self.width
    }

    /// The height in pixels.
    pub fn height(&self) -> (h: u32)
        ensures
            h == self@.height,
            self@.wf(),
    {
        proof {
            use_type_invariant(self);
        }
        self.height
    }

    /// The bytes, row by row, as red, green, blue, alpha.
    pub fn bytes(&self) -> (b: &Vec<u8>)
        ensures
            b@ == self@.bytes,
            self@.wf(),
    {
        proof {
            use_type_invariant(self);
        }
        &self.bytes
    }

    /// The bytes with the channels of every pixel put in `order`, for a
    /// surface that wants them so.
    pub fn reordered(&self, order: ChannelOrder) -> (out: Vec<u8>)
        ensures
            out@ == reordered_bytes(self@.bytes, order),
    {
        proof {
            use_type_invariant(self);
        }
        let n: usize = self.bytes.len();
        let mut out: Vec<u8> = Vec::new();
        let mut p: usize = 0;
        while p < n
            invariant
                n == self.bytes@.len(),
                n % 4 == 0,
                p % 4 == 0,
                p <= n,
                out@.len() == p,
                forall|i: int|
                    0 <= i < p ==> out@[i] == self.bytes@[(i / 4) * 4 + channel_source(
                        order,
                        i % 4,
                    )],
            decreases n - p,
        {
            let r: u8 = self.bytes[p];
            let g: u8 = self.bytes[p + 1];
            let b: u8 = self.bytes[p + 2];
            let a: u8 = self.bytes[p + 3];
            match order {
                ChannelOrder::Rgba => {
                    out.push(r);
                    out.push(g);
                    out.push(b);
                    out.push(a);
                },
                ChannelOrder::Bgra => {
                    out.push(b);
                    out.push(g);
                    out.push(r);
                    out.push(a);
                },
                ChannelOrder::Argb => {
                    out.push(a);
                    out.push(r);
                    out.push(g);
                    out.push(b);
                },
                ChannelOrder::Abgr => {
                    out.push(a);
                    out.push(b);
                    out.push(g);
                    out.push(r);
                },
            }
            p = p + 4;
        }
        assert(out@ =~= reordered_bytes(self@.bytes, order));
        out
    }
}

} // verus!
