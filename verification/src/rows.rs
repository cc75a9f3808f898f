//! Rows of texels in buffers.
//!
//! A copy between a buffer and a texture wants every row of the buffer to
//! start at a multiple of the device's row alignment. Texel data is tight:
//! one row follows the other. This module computes the padded layout and
//! moves rows between the two forms.

use vstd::prelude::*;
use crate::scalar::Dimensions;

verus! {

/// Bytes of one RGBA8 texel.
pub const RGBA_TEXEL_SIZE: u64 = 4;

/// The row alignment of buffer-texture copies, in bytes.
///
/// Reads `wgpu::COPY_BYTES_PER_ROW_ALIGNMENT`. The contract is the value of
/// that constant, 256, which is taken from the crate's source and not proved.
#[verifier::external_body]
pub(crate) fn copy_bytes_per_row_alignment() -> (align: u64)
    ensures
        align == 256,
{
    wgpu::COPY_BYTES_PER_ROW_ALIGNMENT as u64
}

/// `padded` is the least multiple of `align` that is not below `width`.
pub open spec fn is_padded_width(width: nat, align: nat, padded: nat) -> bool {
    &&& padded % align == 0
    &&& width <= padded < width + align
}

/// There is one padded width.
pub proof fn lemma_padded_width_unique(width: nat, align: nat, a: nat, b: nat)
    requires
        align > 0,
        is_padded_width(width, align, a),
        is_padded_width(width, align, b),
    ensures
        a == b,
{
    let al = align as int;
    let x = a as int;
    let y = b as int;
    assert(x == y) by (nonlinear_arith)
        requires
            al > 0,
            x % al == 0,
            y % al == 0,
            -al < x - y < al,
    {
        assert(x == al * (x / al) + x % al);
        assert(y == al * (y / al) + y % al);
        assert(x - y == al * (x / al - y / al));
        if x / al - y / al >= 1 {
            assert(al * (x / al - y / al) >= al);
        } else if x / al - y / al <= -1 {
            assert(al * (x / al - y / al) <= -al);
        }
    }
}

/// The width of a row of `width` bytes after padding to a multiple of `align`.
pub fn padded_width(width: u64, align: u64) -> (padded: u64)
    requires
        align > 0,
        width + align <= u64::MAX,
    ensures
        is_padded_width(width as nat, align as nat, padded as nat),
{
    let rest = width % align;
    let padding = (align - rest) % align;
    proof {
        let w = width as int;
        let a = align as int;
        let r = rest as int;
        if r == 0 {
            assert((a - r) % a == 0) by (nonlinear_arith)
                requires
                    a > 0,
                    r == 0,
            ;
        } else {
            assert((a - r) % a == a - r) by (nonlinear_arith)
                requires
                    0 < r < a,
            ;
            assert((w + (a - r)) % a == 0) by (nonlinear_arith)
                requires
                    a > 0,
                    r == w % a,
                    0 < r < a,
            {
                assert(w == a * (w / a) + r);
                assert(w + (a - r) == a * (w / a + 1));
                assert((a * (w / a + 1)) % a == 0);
            }
        }
    }
    width + padding
}

/// The width of a row of `width` bytes in a buffer that a texture is copied
/// from or to.
pub fn padded_bytes_per_row(width: u64) -> (padded: u64)
    requires
        width + 256 <= u64::MAX,
    ensures
        is_padded_width(width as nat, 256, padded as nat),
{
    padded_width(width, copy_bytes_per_row_alignment())
}

/// How rows of texels lie in a buffer that is copied to or from a texture.
#[derive(Clone, Copy, Debug, PartialEq, Eq, Structural)]
pub struct CopyLayout {
    /// Bytes of one row of texels.
    pub byte_width: u64,
    /// Bytes from the start of one row to the start of the next.
    pub padded_width: u64,
    /// Number of rows.
    pub rows: u32,
    /// Bytes of the whole buffer.
    pub buffer_size: u64,
}

impl CopyLayout {
    /// The layout of `rows` rows of `byte_width` bytes.
    pub open spec fn fits(self, byte_width: nat, rows: nat) -> bool {
        &&& self.byte_width == byte_width
        &&& is_padded_width(byte_width, 256, self.padded_width as nat)
        &&& self.rows == rows
        &&& self.buffer_size == self.padded_width * self.rows
    }

    /// The layout of an RGBA8 texture of these dimensions.
    pub open spec fn fits_rgba(self, dimensions: Dimensions) -> bool {
        self.fits((dimensions.x * RGBA_TEXEL_SIZE) as nat, dimensions.y as nat)
    }
}

/// The layout of a buffer for `rows` rows of `byte_width` bytes, or `None`
/// when there is none, because the size of that buffer cannot be written in
/// sixty-four bits.
pub fn copy_layout(byte_width: u64, rows: u32) -> (layout: Option<CopyLayout>)
    requires
        byte_width + 256 <= u64::MAX,
    ensures
        match layout {
            Some(layout) => layout.fits(byte_width as nat, rows as nat),
            None => forall|other: CopyLayout|
                !(#[trigger] other.fits(byte_width as nat, rows as nat)),
        },
{
    let padded_width = padded_bytes_per_row(byte_width);
    match padded_width.checked_mul(rows as u64) {
        Some(buffer_size) => Some(CopyLayout { byte_width, padded_width, rows, buffer_size }),
        None => {
            assert forall|other: CopyLayout|
                !(#[trigger] other.fits(byte_width as nat, rows as nat)) by {
                if other.fits(byte_width as nat, rows as nat) {
                    lemma_padded_width_unique(
                        byte_width as nat,
                        256,
                        other.padded_width as nat,
                        padded_width as nat,
                    );
                }
            }
            None
        },
    }
}

/// The layout of the buffer that an RGBA8 texture of these dimensions is
/// copied to, or `None` when there is none.
pub fn download_layout(dimensions: Dimensions) -> (layout: Option<CopyLayout>)
    ensures
        match layout {
            Some(layout) => layout.fits_rgba(dimensions),
            None => forall|other: CopyLayout| !(#[trigger] other.fits_rgba(dimensions)),
        },
{
    let layout = copy_layout((dimensions.x as u64) * RGBA_TEXEL_SIZE, dimensions.y);
    proof {
        if layout is None {
            assert forall|other: CopyLayout| !(#[trigger] other.fits_rgba(dimensions)) by {
                if other.fits_rgba(dimensions) {
                    assert(other.fits(
                        (dimensions.x * RGBA_TEXEL_SIZE) as nat,
                        dimensions.y as nat,
                    ));
                }
            }
        }
    }
    layout
}

impl CopyLayout {
    /// The rows of `padded`, a buffer of this layout, without their padding.
    pub fn strip(&self, padded: &Vec<u8>) -> (tight: Vec<u8>)
        requires
            self.byte_width <= self.padded_width,
            self.buffer_size == self.padded_width * self.rows,
            padded.len() == self.buffer_size,
        ensures
            tight@ == tight_rows(
                padded@,
                self.byte_width as nat,
                self.padded_width as nat,
                self.rows as nat,
            ),
    {
        if self.rows == 0 || self.byte_width == 0 {
            let tight: Vec<u8> = Vec::new();
            proof {
                let w = self.byte_width as int;
                let r = self.rows as int;
                assert(r * w == 0) by (nonlinear_arith)
                    requires
                        r == 0 || w == 0,
                ;
                assert(tight@ =~= tight_rows(
                    padded@,
                    self.byte_width as nat,
                    self.padded_width as nat,
                    self.rows as nat,
                ));
            }
            return tight;
        }
        proof {
            let p = self.padded_width as int;
            let r = self.rows as int;
            assert(p <= p * r) by (nonlinear_arith)
                requires
                    p >= 0,
                    r >= 1,
            ;
            assert(r <= p * r) by (nonlinear_arith)
                requires
                    p >= 1,
                    r >= 0,
            ;
            assert(r * p == p * r) by (nonlinear_arith);
        }
        strip_row_padding(
            padded,
            self.byte_width as usize,
            self.padded_width as usize,
            self.rows as usize,
        )
    }
}

/// The rows of `padded` without their padding: byte `x` of row `y` of the
/// result is byte `x` of row `y` of `padded`, whose rows are `padded_width`
/// bytes apart.
pub open spec fn tight_rows(padded: Seq<u8>, byte_width: nat, padded_width: nat, rows: nat) -> Seq<
    u8,
> {
    Seq::new(
        rows * byte_width,
        |i: int| padded[(i / byte_width as int) * padded_width + i % byte_width as int],
    )
}

/// The rows of `tight` laid out `padded_width` bytes apart, with zeros between
/// the end of one row and the start of the next.
pub open spec fn padded_rows(tight: Seq<u8>, byte_width: nat, padded_width: nat, rows: nat) -> Seq<
    u8,
> {
    Seq::new(
        rows * padded_width,
        |i: int|
            if (i % (padded_width as int)) < byte_width {
                tight[(i / padded_width as int) * byte_width + i % padded_width as int]
            } else {
                0u8
            },
    )
}

/// Position `y * stride + x` is in row `y`, at byte `x`.
proof fn lemma_row_position(y: int, x: int, stride: int)
    requires
        0 <= y,
        0 <= x < stride,
    ensures
        (y * stride + x) / stride == y,
        (y * stride + x) % stride == x,
{
    assert((y * stride + x) / stride == y && (y * stride + x) % stride == x) by (nonlinear_arith)
        requires
            0 <= y,
            0 <= x < stride,
    {
        let n = y * stride + x;
        assert(n == stride * (n / stride) + n % stride);
        assert(0 <= n % stride < stride);
        if n / stride > y {
            assert(stride * (n / stride) >= stride * (y + 1));
        } else if n / stride < y {
            assert(stride * (n / stride) <= stride * (y - 1));
        }
    }
}

/// Rows lie one behind the other.
proof fn lemma_row_bounds(y: int, rows: int, stride: int)
    requires
        0 <= y < rows,
        0 <= stride,
    ensures
        0 <= y * stride,
        y * stride + stride <= rows * stride,
{
    assert(0 <= y * stride && y * stride + stride <= rows * stride) by (nonlinear_arith)
        requires
            0 <= y,
            y + 1 <= rows,
            0 <= stride,
    ;
}

/// Takes the padding out of the rows of a buffer that a texture was copied to.
pub fn strip_row_padding(
    padded: &Vec<u8>,
    byte_width: usize,
    padded_width: usize,
    rows: usize,
) -> (tight: Vec<u8>)
    requires
        0 < byte_width <= padded_width,
        rows * padded_width <= padded.len(),
    ensures
        tight@ == tight_rows(padded@, byte_width as nat, padded_width as nat, rows as nat),
{
    let mut tight: Vec<u8> = Vec::new();
    let mut y: usize = 0;
    while y < rows
        invariant
            y <= rows,
            0 < byte_width <= padded_width,
            rows * padded_width <= padded.len(),
            tight.len() == y * byte_width,
            forall|i: int|
                0 <= i < tight.len() ==> tight[i] == padded[(i / byte_width as int) * padded_width
                    + i % byte_width as int],
        decreases rows - y,
    {
        proof {
            lemma_row_bounds(y as int, rows as int, padded_width as int);
            lemma_row_bounds(y as int, rows as int, byte_width as int);
            assert(rows * byte_width <= rows * padded_width) by (nonlinear_arith)
                requires
                    0 <= rows,
                    byte_width <= padded_width,
            ;
        }
        let start: usize = y * padded_width;
        let mut x: usize = 0;
        while x < byte_width
            invariant
                x <= byte_width,
                y < rows,
                0 < byte_width <= padded_width,
                start == y * padded_width,
                start + padded_width <= padded.len(),
                y * byte_width + byte_width <= usize::MAX,
                tight.len() == y * byte_width + x,
                forall|i: int|
                    0 <= i < tight.len() ==> tight[i] == padded[(i / byte_width as int)
                        * padded_width + i % byte_width as int],
            decreases byte_width - x,
        {
            proof {
                lemma_row_position(y as int, x as int, byte_width as int);
            }
            tight.push(padded[start + x]);
            x += 1;
        }
        y += 1;
        proof {
            assert(y * byte_width == (y - 1) * byte_width + byte_width) by (nonlinear_arith);
        }
    }
    proof {
        assert(tight@ =~= tight_rows(
            padded@,
            byte_width as nat,
            padded_width as nat,
            rows as nat,
        ));
    }
    tight
}

/// Lays tight rows out `padded_width` bytes apart, for a buffer that a texture
/// is copied from.
pub fn pad_rows(tight: &Vec<u8>, byte_width: usize, padded_width: usize, rows: usize) -> (padded:
    Vec<u8>)
    requires
        0 < byte_width <= padded_width,
        rows * byte_width <= tight.len(),
        rows * padded_width <= usize::MAX,
    ensures
        padded@ == padded_rows(tight@, byte_width as nat, padded_width as nat, rows as nat),
{
    let mut padded: Vec<u8> = Vec::new();
    let mut y: usize = 0;
    while y < rows
        invariant
            y <= rows,
            0 < byte_width <= padded_width,
            rows * byte_width <= tight.len(),
            rows * padded_width <= usize::MAX,
            padded.len() == y * padded_width,
            forall|i: int|
                0 <= i < padded.len() ==> padded[i] == (if (i % (padded_width as int)) < byte_width {
                    tight[(i / padded_width as int) * byte_width + i % padded_width as int]
                } else {
                    0u8
                }),
        decreases rows - y,
    {
        proof {
            lemma_row_bounds(y as int, rows as int, padded_width as int);
            lemma_row_bounds(y as int, rows as int, byte_width as int);
        }
        let start: usize = y * byte_width;
        let mut x: usize = 0;
        while x < padded_width
            invariant
                x <= padded_width,
                y < rows,
                0 < byte_width <= padded_width,
                start == y * byte_width,
                start + byte_width <= tight.len(),
                y * padded_width + padded_width <= usize::MAX,
                padded.len() == y * padded_width + x,
                forall|i: int|
                    0 <= i < padded.len() ==> padded[i] == (if (i % (padded_width as int)) < byte_width {
                        tight[(i / padded_width as int) * byte_width + i % padded_width as int]
                    } else {
                        0u8
                    }),
            decreases padded_width - x,
        {
            proof {
                lemma_row_position(y as int, x as int, padded_width as int);
            }
            if x < byte_width {
                padded.push(tight[start + x]);
            } else {
                padded.push(0u8);
            }
            x += 1;
        }
        y += 1;
        proof {
            assert(y * padded_width == (y - 1) * padded_width + padded_width) by (nonlinear_arith);
        }
    }
    proof {
        assert(padded@ =~= padded_rows(
            tight@,
            byte_width as nat,
            padded_width as nat,
            rows as nat,
        ));
    }
    padded
}

} // verus!
