//! A captured frame: an owned RGB pixel buffer with its dimensions, and the
//! vertical flip applied before the buffer is uploaded as a texture.

use vstd::prelude::*;
use vstd::slice::slice_subrange;

verus! {

/// One decoded camera frame: `width * height` pixels, three bytes each, rows
/// top-down.
pub struct CapturedFrame {
    pub width: u32,
    pub height: u32,
    pub data: Vec<u8>,
}

/// Bytes per row of a frame `width` pixels wide.
pub open spec fn spec_row_bytes(width: int) -> int {
    3 * width
}

/// Row `i` of a pixel buffer whose rows are `rb` bytes long.
pub open spec fn spec_row(s: Seq<u8>, rb: int, i: int) -> Seq<u8> {
    s.subrange(i * rb, i * rb + rb)
}

proof fn lemma_mul_le(a: int, b: int, m: int)
    requires
        a <= b,
        m >= 0,
    ensures
        a * m <= b * m,
{
    assert(a * m <= b * m) by (nonlinear_arith)
        requires
            a <= b,
            m >= 0,
    ;
}

impl CapturedFrame {
    /// The buffer holds exactly three bytes per pixel.
    pub open spec fn wf(&self) -> bool {
        self.data@.len() == (self.height as int) * spec_row_bytes(self.width as int)
    }

    /// Build a frame from a raw buffer; `None` when the buffer's length does
    /// not match the dimensions.
    pub fn new(width: u32, height: u32, data: Vec<u8>) -> (r: Option<CapturedFrame>)
        ensures
            r matches Some(f) ==> f.wf() && f.width == width && f.height == height && f.data@
                == data@,
            r is None <==> data@.len() != (height as int) * spec_row_bytes(width as int),
    {
        proof {
            assert((width as int) * (height as int) <= 0xffff_ffff * 0xffff_ffff)
                by (nonlinear_arith)
                requires
                    width as int <= 0xffff_ffff,
                    height as int <= 0xffff_ffff,
            ;
        }
        let pixels: u128 = (width as u128) * (height as u128);
        let expected: u128 = 3 * pixels;
        proof {
            assert(3 * ((width as int) * (height as int)) == (height as int) * (3 * (
            width as int))) by (nonlinear_arith);
        }
        let n = data.len();
        if (n as u128) == expected {
            Some(CapturedFrame { width, height, data })
        } else {
            None
        }
    }

    /// The buffer with its rows in reverse order, bottom row first, as the
    /// texture upload expects it. Pixels within a row keep their order.
    pub fn flipped_rows(&self) -> (r: Vec<u8>)
        requires
            self.wf(),
        ensures
            r@.len() == self.data@.len(),
            forall|i: int|
                0 <= i < self.height ==> #[trigger] spec_row(
                    r@,
                    spec_row_bytes(self.width as int),
                    i,
                ) == spec_row(
                    self.data@,
                    spec_row_bytes(self.width as int),
                    self.height - 1 - i,
                ),
    {
        let h = self.height as usize;
        let n = self.data.len();
        if h == 0 {
            proof {
                vstd::arithmetic::mul::lemma_mul_basics(spec_row_bytes(self.width as int));
            }
            let empty: Vec<u8> = Vec::new();
            return empty;
        }
        proof {
            lemma_mul_le(1, self.height as int, spec_row_bytes(self.width as int));
            vstd::arithmetic::mul::lemma_mul_basics(spec_row_bytes(self.width as int));
            assert(3 * (self.width as int) <= n);
        }
        let rb: usize = 3 * (self.width as usize);
        let mut out: Vec<u8> = Vec::with_capacity(n);
        let mut i: usize = 0;
        while i < h
            invariant
                self.wf(),
                h == self.height,
                n == self.data@.len(),
                rb == spec_row_bytes(self.width as int),
                0 <= i <= h,
                out@.len() == i * rb,
                forall|k: int|
                    0 <= k < i ==> #[trigger] spec_row(out@, rb as int, k) == spec_row(
                        self.data@,
                        rb as int,
                        h - 1 - k,
                    ),
            decreases h - i,
        {
            proof {
                lemma_mul_le(i as int, h as int, rb as int);
                lemma_mul_le((h - 1 - i) as int, h as int, rb as int);
                lemma_mul_le((h - i) as int, h as int, rb as int);
                assert((h - 1 - i) as int * (rb as int) + rb == ((h - i) as int) * (rb as int))
                    by (nonlinear_arith);
            }
            let start: usize = (h - 1 - i) * rb;
            let end: usize = start + rb;
            let row = slice_subrange(self.data.as_slice(), start, end);
            let ghost prev = out@;
            out.extend_from_slice(row);
            proof {
                assert(spec_row(out@, rb as int, i as int) =~= row@);
                assert(row@ =~= spec_row(self.data@, rb as int, h - 1 - i));
                assert forall|k: int| 0 <= k < i implies #[trigger] spec_row(out@, rb as int, k)
                    == spec_row(self.data@, rb as int, h - 1 - k) by {
                    lemma_mul_le(k + 1, i as int, rb as int);
                    assert(k * (rb as int) + rb == (k + 1) * (rb as int)) by (nonlinear_arith);
                    assert(spec_row(out@, rb as int, k) =~= spec_row(prev, rb as int, k));
                }
                assert((i as int) * (rb as int) + rb == (i as int + 1) * (rb as int))
                    by (nonlinear_arith);
            }
            i = i + 1;
        }
        proof {
            assert(out@.len() == self.data@.len());
        }
        out
    }
}

} // verus!
