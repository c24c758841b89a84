//! Frame converter: packs a decoded frame's strided rows into a tight buffer
//! ready for display upload.
//!
//! A decoded picture arrives with each row padded to the codec's stride; the
//! display wants `width * height * 3` bytes with no padding. Packing copies
//! each logical row and drops the padding bytes beyond it; it never scales.

use vstd::arithmetic::div_mod::lemma_fundamental_div_mod_converse;
use vstd::prelude::*;

verus! {

/// Bytes per packed display pixel: one byte each of red, green and blue.
pub const BYTES_PER_PIXEL: usize = 3;

/// One raw decoded picture: pixel dimensions, the row stride of its packed
/// color plane, the plane's bytes, and the presentation timestamp the codec
/// attached to it.
pub struct DecodedFrame {
    pub width: usize,
    pub height: usize,
    pub stride: usize,
    pub data: Vec<u8>,
    pub pts: Option<i64>,
}

impl DecodedFrame {
    /// Bytes in one logical row, padding excluded.
    pub open spec fn row_bytes(self) -> int {
        self.width as int * (BYTES_PER_PIXEL as int)
    }

    /// A decoded frame is well-formed when each stored row is at least one
    /// logical row long and the plane holds all `height` rows.
    pub open spec fn wf(self) -> bool {
        &&& self.stride as int >= self.row_bytes()
        &&& self.data@.len() >= self.height as int * self.stride as int
    }
}

/// A packed pixel buffer ready for presentation: exactly
/// `width * height * 3` tightly packed bytes.
pub struct DisplayBuffer {
    pub width: usize,
    pub height: usize,
    pub data: Vec<u8>,
}

impl DisplayBuffer {
    pub open spec fn wf(self) -> bool {
        self.data@.len() == self.width as int * self.height as int * (BYTES_PER_PIXEL as int)
    }

    /// An all-black buffer of the given dimensions: the placeholder a display
    /// slot shows until the first decoded frame arrives.
    pub fn blank(width: usize, height: usize) -> (out: Self)
        requires
            width as int * height as int * (BYTES_PER_PIXEL as int) <= usize::MAX as int,
        ensures
            out.width == width,
            out.height == height,
            out.wf(),
            forall|i: int| 0 <= i < out.data@.len() ==> out.data@[i] == 0u8,
    {
        proof {
            assert(width as int * height as int <= width as int * height as int * (
            BYTES_PER_PIXEL as int)) by (nonlinear_arith)
                requires
                    width as int >= 0,
                    height as int >= 0,
            ;
        }
        let total = width * height * BYTES_PER_PIXEL;
        let mut data: Vec<u8> = Vec::new();
        let mut i: usize = 0;
        while i < total
            invariant
                i <= total,
                data@.len() == i,
                forall|j: int| 0 <= j < data@.len() ==> data@[j] == 0u8,
            decreases total - i,
        {
            data.push(0);
            i += 1;
        }
        DisplayBuffer { width, height, data }
    }
}

/// The tightly packed image drawn from a strided source plane: `height` rows
/// of `width * 3` bytes, row `r` starting at source offset `r * stride`, the
/// source's padding bytes beyond a logical row never copied.
pub open spec fn packed_bytes(src: Seq<u8>, width: int, height: int, stride: int) -> Seq<u8> {
    Seq::new(
        (height * (width * 3)) as nat,
        |i: int| src[(i / (width * 3)) * stride + (i % (width * 3))],
    )
}

/// Byte-level reading of `packed_bytes`: byte `c` of packed row `r` is byte
/// `c` of source row `r`, for every row and every in-row offset.
pub proof fn lemma_packed_byte(src: Seq<u8>, width: int, height: int, stride: int, r: int, c: int)
    requires
        0 <= r < height,
        0 <= c < width * 3,
    ensures
        packed_bytes(src, width, height, stride)[r * (width * 3) + c] == src[r * stride + c],
{
    let rb = width * 3;
    assert(0 <= r * rb + c < height * rb) by (nonlinear_arith)
        requires
            0 <= r < height,
            0 <= c < rb,
    ;
    lemma_fundamental_div_mod_converse(r * rb + c, rb, r, c);
}

/// Packs a decoded frame into a display buffer of the same dimensions:
/// exactly `width * height * 3` bytes, each row copied from the start of the
/// corresponding strided source row and truncated to the logical width.
pub fn convert(frame: &DecodedFrame) -> (out: DisplayBuffer)
    requires
        frame.wf(),
        frame.width as int * frame.height as int * (BYTES_PER_PIXEL as int) <= usize::MAX as int,
    ensures
        out.width == frame.width,
        out.height == frame.height,
        out.wf(),
        out.data@ == packed_bytes(
            frame.data@,
            frame.width as int,
            frame.height as int,
            frame.stride as int,
        ),
{
    let width = frame.width;
    let height = frame.height;
    let stride = frame.stride;
    let row_bytes = width * BYTES_PER_PIXEL;
    let src_len = frame.data.len();
    let mut data: Vec<u8> = Vec::new();
    let mut r: usize = 0;
    while r < height
        invariant
            frame.wf(),
            src_len == frame.data@.len(),
            width == frame.width,
            height == frame.height,
            stride == frame.stride,
            row_bytes == frame.row_bytes(),
            r <= height,
            data@.len() == r as int * row_bytes as int,
            forall|i: int|
                0 <= i < data@.len() ==> data@[i] == frame.data@[(i / (row_bytes as int)) * (
                stride as int) + (i % (row_bytes as int))],
        decreases height - r,
    {
        let mut c: usize = 0;
        while c < row_bytes
            invariant
                frame.wf(),
                src_len == frame.data@.len(),
                width == frame.width,
                height == frame.height,
                stride == frame.stride,
                row_bytes == frame.row_bytes(),
                r < height,
                c <= row_bytes,
                data@.len() == r as int * row_bytes as int + c as int,
                forall|i: int|
                    0 <= i < data@.len() ==> data@[i] == frame.data@[(i / (row_bytes as int)) * (
                    stride as int) + (i % (row_bytes as int))],
            decreases row_bytes - c,
        {
            proof {
                assert(r as int * stride as int + c < height as int * stride as int && r as int
                    * row_bytes as int + c < height as int * row_bytes as int) by (nonlinear_arith)
                    requires
                        0 <= r < height,
                        0 <= c < row_bytes,
                        row_bytes <= stride,
                ;
                lemma_fundamental_div_mod_converse(
                    r as int * row_bytes as int + c as int,
                    row_bytes as int,
                    r as int,
                    c as int,
                );
            }
            let b = frame.data[r * stride + c];
            data.push(b);
            c += 1;
        }
        r += 1;
        proof {
            assert(r as int * row_bytes as int == (r - 1) * row_bytes + row_bytes)
                by (nonlinear_arith);
        }
    }
    proof {
        assert(height as int * (row_bytes as int) == width as int * height as int * (
        BYTES_PER_PIXEL as int)) by (nonlinear_arith)
            requires
                row_bytes == width as int * (BYTES_PER_PIXEL as int),
        ;
        assert(data@ =~= packed_bytes(
            frame.data@,
            frame.width as int,
            frame.height as int,
            frame.stride as int,
        ));
    }
    DisplayBuffer { width, height, data }
}

} // verus!
