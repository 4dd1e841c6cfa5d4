//! Copying what was drawn anew from the engine's memory into the
//! platform's buffer.
//!
//! Both hold the same picture, row after row with `stride` bytes to a row.
//! Only the bytes of the damaged rectangle are copied. Where the session's
//! pixel format asks for it, the first and third byte of every pixel change
//! places on the way, which turns red-green-blue into blue-green-red.

use vstd::prelude::*;
use vstd::arithmetic::div_mod::{lemma_fundamental_div_mod, lemma_fundamental_div_mod_converse};

verus! {

/// A rectangle of a picture, in pixels from its top left corner.
#[derive(Clone, Copy, Debug, PartialEq, Eq, Structural)]
pub struct PixelRect {
    pub x: usize,
    pub y: usize,
    pub width: usize,
    pub height: usize,
}

/// The rectangle lies within a picture of `len` bytes in rows of `stride`
/// bytes, with `pixel_bytes` bytes to a pixel; bytes change places only
/// within pixels of four bytes.
pub open spec fn fits(len: int, stride: int, pixel_bytes: int, rect: PixelRect, swizzle: bool) -> bool {
    &&& stride > 0
    &&& pixel_bytes > 0
    &&& (rect.x + rect.width) * pixel_bytes <= stride
    &&& (rect.y + rect.height) * stride <= len
    &&& swizzle ==> pixel_bytes == 4
}

/// Byte `i` of the picture belongs to a pixel of the rectangle.
pub open spec fn in_damage(i: int, stride: int, pixel_bytes: int, rect: PixelRect) -> bool {
    &&& rect.y <= i / stride < rect.y + rect.height
    &&& rect.x * pixel_bytes <= i % stride < (rect.x + rect.width) * pixel_bytes
}

/// The byte of the source that ends up as byte `i` of the target.
pub open spec fn source_index(i: int, stride: int, swizzle: bool) -> int {
    let place = (i % stride) % 4;
    if swizzle && place == 0 {
        i + 2
    } else if swizzle && place == 2 {
        i - 2
    } else {
        i
    }
}

/// Byte `i` lies within the columns from `first_col` on and has been
/// copied: it is in a row from `first_row` up to `row` and before
/// `end_col`, or in row `row` itself and before `col`.
spec fn copied_so_far(
    i: int,
    stride: int,
    first_col: int,
    end_col: int,
    first_row: int,
    row: int,
    col: int,
) -> bool {
    &&& first_col <= i % stride
    &&& (first_row <= i / stride < row && i % stride < end_col) || (i / stride == row && i
        % stride < col)
}

/// Multiplying by a factor that is not negative keeps the order.
proof fn lemma_scaled(a: int, b: int, factor: int)
    requires
        0 <= a <= b,
        0 <= factor,
    ensures
        a * factor <= b * factor,
        factor >= 1 ==> b <= b * factor,
{
    assert(a * factor <= b * factor) by (nonlinear_arith)
        requires
            0 <= a <= b,
            0 <= factor,
    ;
    assert(factor >= 1 ==> b <= b * factor) by (nonlinear_arith)
        requires
            0 <= b,
            0 <= factor,
    ;
}

/// Copies the bytes of the damaged rectangle from `source` to `target`,
/// row by row, and leaves every other byte of `target` as it is. With
/// `swizzle`, the first and third byte of every pixel change places.
///
/// Nothing is copied, and `false` is returned, where the two pictures are
/// not of the same length or the rectangle does not fit them.
pub fn copy_damage(
    source: &[u8],
    target: &mut Vec<u8>,
    stride: usize,
    pixel_bytes: usize,
    rect: PixelRect,
    swizzle: bool,
) -> (copied: bool)
    ensures
        copied == (source@.len() == old(target)@.len() && fits(
            source@.len() as int,
            stride as int,
            pixel_bytes as int,
            rect,
            swizzle,
        )),
        final(target)@.len() == old(target)@.len(),
        !copied ==> final(target)@ == old(target)@,
        copied ==> forall|i: int|
            0 <= i < source@.len() ==> #[trigger] final(target)@[i] == (if in_damage(
                i,
                stride as int,
                pixel_bytes as int,
                rect,
            ) {
                source@[source_index(i, stride as int, swizzle)]
            } else {
                old(target)@[i]
            }),
{
    let len = source.len();
    if len != target.len() || stride == 0 || pixel_bytes == 0 || (swizzle && pixel_bytes != 4) {
        return false;
    }
    proof {
        lemma_scaled(0, rect.x + rect.width, pixel_bytes as int);
        lemma_scaled(0, rect.y + rect.height, stride as int);
        lemma_scaled(rect.x as int, rect.x + rect.width, pixel_bytes as int);
    }
    let right = match rect.x.checked_add(rect.width) {
        Some(right) => right,
        None => {
            return false;
        },
    };
    let end_col = match right.checked_mul(pixel_bytes) {
        Some(end_col) => end_col,
        None => {
            return false;
        },
    };
    let bottom = match rect.y.checked_add(rect.height) {
        Some(bottom) => bottom,
        None => {
            return false;
        },
    };
    let end = match bottom.checked_mul(stride) {
        Some(end) => end,
        None => {
            return false;
        },
    };
    if end_col > stride || end > len {
        return false;
    }
    let first_col = rect.x * pixel_bytes;
    let mut row = rect.y;
    while row < bottom
        invariant
            rect.y <= row <= bottom == rect.y + rect.height,
            first_col == rect.x * pixel_bytes,
            first_col <= end_col == (rect.x + rect.width) * pixel_bytes,
            end_col <= stride,
            end == bottom * stride,
            end <= len == source@.len() == target@.len() == old(target)@.len(),
            swizzle ==> pixel_bytes == 4,
            forall|i: int|
                0 <= i < len ==> #[trigger] target@[i] == (if copied_so_far(
                    i,
                    stride as int,
                    first_col as int,
                    end_col as int,
                    rect.y as int,
                    row as int,
                    first_col as int,
                ) {
                    source@[source_index(i, stride as int, swizzle)]
                } else {
                    old(target)@[i]
                }),
        decreases bottom - row,
    {
        proof {
            lemma_scaled(row as int, bottom - 1, stride as int);
            lemma_scaled(row + 1, bottom as int, stride as int);
            assert((row + 1) * stride == row * stride + stride) by (nonlinear_arith);
        }
        let base = row * stride;
        let mut col = first_col;
        while col < end_col
            invariant
                first_col <= col <= end_col <= stride,
                first_col == rect.x * pixel_bytes,
                end_col == (rect.x + rect.width) * pixel_bytes,
                base == row * stride,
                base + stride <= len == source@.len() == target@.len() == old(target)@.len(),
                swizzle ==> pixel_bytes == 4,
                forall|i: int|
                    0 <= i < len ==> #[trigger] target@[i] == (if copied_so_far(
                        i,
                        stride as int,
                        first_col as int,
                        end_col as int,
                        rect.y as int,
                        row as int,
                        col as int,
                    ) {
                        source@[source_index(i, stride as int, swizzle)]
                    } else {
                        old(target)@[i]
                    }),
            decreases end_col - col,
        {
            let at = base + col;
            let place = col % 4;
            let from = if swizzle && place == 0 {
                at + 2
            } else if swizzle && place == 2 {
                at - 2
            } else {
                at
            };
            proof {
                lemma_fundamental_div_mod_converse(at as int, stride as int, row as int, col as int);
                assert(from == source_index(at as int, stride as int, swizzle));
            }
            let ghost before = target@;
            let value = source[from];
            target.set(at, value);
            proof {
                assert forall|i: int| 0 <= i < len implies #[trigger] target@[i] == (
                if copied_so_far(
                    i,
                    stride as int,
                    first_col as int,
                    end_col as int,
                    rect.y as int,
                    row as int,
                    col + 1,
                ) {
                    source@[source_index(i, stride as int, swizzle)]
                } else {
                    old(target)@[i]
                }) by {
                    lemma_fundamental_div_mod(i, stride as int);
                    if i != at {
                        assert(target@[i] == before[i]);
                        assert(!(i / (stride as int) == row && i % (stride as int) == col)) by {
                            assert(stride * (i / (stride as int)) == (i / (stride as int)) * stride)
                                by (nonlinear_arith);
                        }
                    }
                }
            }
            col += 1;
        }
        row += 1;
    }
    proof {
        assert forall|i: int| 0 <= i < len implies #[trigger] target@[i] == (if in_damage(
            i,
            stride as int,
            pixel_bytes as int,
            rect,
        ) {
            source@[source_index(i, stride as int, swizzle)]
        } else {
            old(target)@[i]
        }) by {
            assert(in_damage(i, stride as int, pixel_bytes as int, rect) == copied_so_far(
                i,
                stride as int,
                first_col as int,
                end_col as int,
                rect.y as int,
                bottom as int,
                first_col as int,
            ));
        }
    }
    true
}

} // verus!
