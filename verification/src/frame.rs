//! Raw pixel frames: 8-bit RGBA, row-major, with an explicit row stride.

use vstd::prelude::*;

verus! {

/// What a frame shows, whatever its stride: its size in pixels and, for
/// each row from the top, the `4 * width` bytes of that row's pixels.
pub struct RawFrameView {
    pub width: nat,
    pub height: nat,
    pub rows: Seq<Seq<u8>>,
}

/// A buffer of `len` bytes can hold `height` rows of `stride` bytes, each
/// starting with `width` pixels.
pub open spec fn valid_layout(width: nat, height: nat, stride: nat, len: nat) -> bool {
    &&& 4 * width <= stride
    &&& len == stride * height
}

/// The pixel bytes of each row of a buffer laid out with `stride`: the
/// padding after the first `4 * width` bytes of a row is left out.
pub open spec fn rows_of(data: Seq<u8>, width: nat, height: nat, stride: nat) -> Seq<Seq<u8>> {
    Seq::new(height, |y: int| data.subrange(y * stride, y * stride + 4 * width))
}

/// The rows of a frame one after the other, without padding.
pub open spec fn packed_rows(rows: Seq<Seq<u8>>, upto: nat) -> Seq<u8>
    decreases upto,
{
    if upto == 0 {
        Seq::empty()
    } else {
        packed_rows(rows, (upto - 1) as nat) + rows[upto - 1]
    }
}

/// One captured picture. It never changes once made.
#[derive(Debug)]
pub struct RawFrame {
    width: u32,
    height: u32,
    stride: usize,
    data: Vec<u8>,
}

impl View for RawFrame {
    type V = RawFrameView;

    closed spec fn view(&self) -> RawFrameView {
        RawFrameView {
            width: self.width as nat,
            height: self.height as nat,
            rows: rows_of(self.data@, self.width as nat, self.height as nat, self.stride as nat),
        }
    }
}

/// Row `y` of `height` rows of `stride` bytes lies inside the buffer.
pub proof fn lemma_row_inside(y: int, height: int, stride: int)
    requires
        0 <= y < height,
        0 <= stride,
    ensures
        0 <= y * stride,
        y * stride + stride <= stride * height,
        (y + 1) * stride == y * stride + stride,
{
    assert(0 <= y * stride) by (nonlinear_arith)
        requires
            0 <= y,
            0 <= stride,
    ;
    assert((y + 1) * stride == y * stride + stride) by (nonlinear_arith);
    assert((y + 1) * stride <= stride * height) by (nonlinear_arith)
        requires
            y + 1 <= height,
            0 <= stride,
    ;
}

impl RawFrame {
    /// The buffer holds exactly `height` rows of `stride` bytes, and a row
    /// is long enough for `width` pixels.
    pub closed spec fn wf(&self) -> bool {
        valid_layout(
            self.width as nat,
            self.height as nat,
            self.stride as nat,
            self.data@.len(),
        )
    }

    /// The number of bytes from the start of one row to the start of the
    /// next.
    pub closed spec fn spec_stride(&self) -> nat {
        self.stride as nat
    }

    /// The bytes of the buffer, padding included.
    pub closed spec fn spec_data(&self) -> Seq<u8> {
        self.data@
    }

    /// Takes a buffer as a frame, if it has the layout of one: `None`
    /// exactly when a row is too short for `width` pixels or the buffer is
    /// not `stride * height` bytes long.
    pub fn new(width: u32, height: u32, stride: usize, data: Vec<u8>) -> (frame: Option<RawFrame>)
        ensures
            frame is Some <==> valid_layout(
                width as nat,
                height as nat,
                stride as nat,
                data@.len(),
            ),
            frame matches Some(f) ==> {
                &&& f.wf()
                &&& f@.width == width
                &&& f@.height == height
                &&& f@.rows == rows_of(data@, width as nat, height as nat, stride as nat)
                &&& f.spec_stride() == stride
                &&& f.spec_data() == data@
            },
    {
        if (stride as u64) < 4 * (width as u64) {
            return None;
        }
        let given: usize = data.len();
        match stride.checked_mul(height as usize) {
            Some(len) => {
                if len == given {
                    Some(RawFrame { width, height, stride, data })
                } else {
                    None
                }
            },
            None => None,
        }
    }

    /// Width in pixels.
    pub fn width(&self) -> (w: u32)
        ensures
            w == self@.width,
    {
        self.width
    }

    /// Height in pixels.
    pub fn height(&self) -> (h: u32)
        ensures
            h == self@.height,
    {
        self.height
    }

    /// Bytes from one row's start to the next.
    pub fn stride(&self) -> (s: usize)
        ensures
            s == self.spec_stride(),
    {
        self.stride
    }

    /// The buffer as it was given, padding included.
    pub fn data(&self) -> (bytes: &Vec<u8>)
        ensures
            bytes@ == self.spec_data(),
    {
        &self.data
    }

    /// The pixels of all rows one after the other, top row first, with the
    /// padding between rows left out: `4 * width * height` bytes.
    pub fn packed(&self) -> (pixels: Vec<u8>)
        requires
            self.wf(),
        ensures
            pixels@ == packed_rows(self@.rows, self@.height),
            pixels@.len() == 4 * self@.width * self@.height,
    {
        let len: usize = self.data.len();
        if self.height == 0 {
            return Vec::new();
        }
        proof {
            lemma_row_inside(0, self.height as int, self.stride as int);
        }
        let row_bytes: usize = 4 * (self.width as usize);
        let mut pixels: Vec<u8> = Vec::new();
        let mut base: usize = 0;
        let mut y: u32 = 0;
        assert(4 * self.width * 0 == 0);
        while y < self.height
            invariant
                self.wf(),
                len == self.data@.len(),
                y <= self.height,
                row_bytes == 4 * self.width,
                base == y * self.stride,
                pixels@ == packed_rows(self@.rows, y as nat),
                pixels@.len() == 4 * self.width * y,
            decreases self.height - y,
        {
            proof {
                lemma_row_inside(y as int, self.height as int, self.stride as int);
                assert(4 * self.width * (y + 1) == 4 * self.width * y + 4 * self.width)
                    by (nonlinear_arith);
            }
            let ghost row = self@.rows[y as int];
            let ghost done = pixels@;
            let mut j: usize = 0;
            while j < row_bytes
                invariant
                    self.wf(),
                    y < self.height,
                    j <= row_bytes,
                    row_bytes == 4 * self.width,
                    base == y * self.stride,
                    base + self.stride <= len,
                    len == self.data@.len(),
                    row == self@.rows[y as int],
                    pixels@ == done + row.take(j as int),
                decreases row_bytes - j,
            {
                pixels.push(self.data[base + j]);
                assert(pixels@ =~= done + row.take(j + 1));
                j = j + 1;
            }
            assert(row.take(row_bytes as int) =~= row);
            base = base + self.stride;
            y = y + 1;
        }
        pixels
    }

    /// What the frame shows follows from its buffer and layout alone.
    pub proof fn lemma_view(&self)
        ensures
            self@.rows == rows_of(
                self.spec_data(),
                self@.width,
                self@.height,
                self.spec_stride(),
            ),
            self.wf() ==> valid_layout(
                self@.width,
                self@.height,
                self.spec_stride(),
                self.spec_data().len(),
            ),
    {
    }
}

/// What an encoded frame carries: the compressed bytes, the size of the
/// picture they were made from, and the quality setting used.
pub struct EncodedFrameView {
    pub payload: Seq<u8>,
    pub width: nat,
    pub height: nat,
    pub quality: nat,
}

/// The one codec family that frames are encoded with.
#[derive(Debug, Clone, Copy, PartialEq, Eq, Structural)]
pub enum Encoding {
    Jpeg,
}

/// One compressed frame, ready to be sent as it is. It never changes once
/// made; each viewer gets its own copy.
#[derive(Debug)]
pub struct EncodedFrame {
    payload: Vec<u8>,
    width: u32,
    height: u32,
    quality: u8,
}

impl View for EncodedFrame {
    type V = EncodedFrameView;

    closed spec fn view(&self) -> EncodedFrameView {
        EncodedFrameView {
            payload: self.payload@,
            width: self.width as nat,
            height: self.height as nat,
            quality: self.quality as nat,
        }
    }
}

impl Clone for EncodedFrame {
    fn clone(&self) -> (copy: Self)
        ensures
            copy@ == self@,
    {
        let payload = self.payload.clone();
        assert(payload@ =~= self.payload@);
        EncodedFrame { payload, width: self.width, height: self.height, quality: self.quality }
    }
}

impl EncodedFrame {
    /// An encoded frame from its parts.
    pub fn new(payload: Vec<u8>, width: u32, height: u32, quality: u8) -> (frame: EncodedFrame)
        ensures
            frame@ == (EncodedFrameView {
                payload: payload@,
                width: width as nat,
                height: height as nat,
                quality: quality as nat,
            }),
    {
        EncodedFrame { payload, width, height, quality }
    }

    /// The compressed bytes: exactly what goes on the wire.
    pub fn payload(&self) -> (bytes: &Vec<u8>)
        ensures
            bytes@ == self@.payload,
    {
        &self.payload
    }

    /// Gives up the frame for its compressed bytes.
    pub fn into_payload(self) -> (bytes: Vec<u8>)
        ensures
            bytes@ == self@.payload,
    {
        self.payload
    }

    /// The number of compressed bytes.
    pub fn len(&self) -> (n: usize)
        ensures
            n == self@.payload.len(),
    {
        self.payload.len()
    }

    /// The codec that made the payload.
    pub fn encoding(&self) -> (codec: Encoding)
        ensures
            codec == Encoding::Jpeg,
    {
        Encoding::Jpeg
    }

    /// The quality setting that the payload was encoded at.
    pub fn quality(&self) -> (q: u8)
        ensures
            q == self@.quality,
    {
        self.quality
    }

    /// Width in pixels of the picture that was encoded.
    pub fn width(&self) -> (w: u32)
        ensures
            w == self@.width,
    {
        self.width
    }

    /// Height in pixels of the picture that was encoded.
    pub fn height(&self) -> (h: u32)
        ensures
            h == self@.height,
    {
        self.height
    }
}

} // verus!
