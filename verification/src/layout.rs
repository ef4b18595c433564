//! Geometry of a square icon: the inner picture size left by the padding, its offset on
//! the canvas, and the pasting of the picture onto a transparent canvas.

use vstd::prelude::*;

verus! {

/// How one square icon image is drawn: a `size`×`size` transparent canvas with the
/// source picture resized to `inner_size`×`inner_size` pasted at (`offset`, `offset`),
/// then rounded by `border_radius_percent`.
#[derive(Debug, Clone, Copy, PartialEq, Eq, Structural)]
pub struct IconRender {
    pub size: u32,
    pub inner_size: u32,
    pub offset: u32,
    pub border_radius_percent: u32,
}

/// The side of the picture inside an icon of side `size` with `padding` percent of
/// padding on each side: padding outside 1..49 is ignored, the padding in pixels is
/// rounded down, and the picture keeps at least one pixel.
pub open spec fn inner_size(size: nat, padding: nat) -> nat {
    if 0 < padding < 50 {
        let pad = size * padding / 100;
        if size > 2 * pad {
            (size - 2 * pad) as nat
        } else {
            1
        }
    } else {
        size
    }
}

/// The layout of an icon of side `size`.
pub open spec fn icon_render_spec(size: u32, padding: u32, radius: u32) -> IconRender {
    let inner = inner_size(size as nat, padding as nat);
    IconRender {
        size,
        inner_size: inner as u32,
        offset: ((size - inner) / 2) as u32,
        border_radius_percent: radius,
    }
}

/// Computes the layout of an icon of side `size`, between 1 and 1024 pixels (the
/// largest icon any target uses; up to there the rounding of the padding is exact).
pub fn icon_render(size: u32, padding: u32, radius: u32) -> (r: IconRender)
    requires
        1 <= size <= 1024,
    ensures
        r == icon_render_spec(size, padding, radius),
        1 <= r.inner_size <= size,
        r.offset + r.inner_size <= size,
        size - r.inner_size - 2 * r.offset <= 1,
{
    let inner: u32 = if padding > 0 && padding < 50 {
        assert(size * padding <= 1024 * 50) by (nonlinear_arith)
            requires
                size <= 1024,
                padding < 50,
        ;
        let pad = size * padding / 100;
        assert(pad <= size * 49 / 100) by (nonlinear_arith)
            requires
                padding < 50,
                pad == size * padding / 100,
        ;
        if size > 2 * pad {
            size - 2 * pad
        } else {
            1
        }
    } else {
        size
    };
    IconRender { size, inner_size: inner, offset: (size - inner) / 2, border_radius_percent: radius }
}

} // verus!

verus! {

/// The byte at index `i` of the RGBA canvas of `r`, with the RGBA picture `pixels`
/// (of side `r.inner_size`) pasted at the offset and every other pixel transparent black.
pub open spec fn canvas_byte(r: IconRender, pixels: Seq<u8>, i: int) -> u8 {
    let size = r.size as int;
    let inner = r.inner_size as int;
    let off = r.offset as int;
    let p = i / 4;
    let c = i % 4;
    let x = p % size;
    let y = p / size;
    if off <= x < off + inner && off <= y < off + inner {
        pixels[((y - off) * inner + (x - off)) * 4 + c]
    } else {
        0
    }
}

proof fn lemma_source_index(a: int, b: int, c: int, inner: int)
    by (nonlinear_arith)
    requires
        0 <= a < inner,
        0 <= b < inner,
        0 <= c < 4,
    ensures
        0 <= (a * inner + b) * 4 + c < inner * inner * 4,
{
}

proof fn lemma_canvas_index(x: int, y: int, c: int, size: int)
    requires
        0 <= x < size,
        0 <= y < size,
        0 <= c < 4,
    ensures
        ((y * size + x) * 4 + c) / 4 == y * size + x,
        ((y * size + x) * 4 + c) % 4 == c,
        (y * size + x) % size == x,
        (y * size + x) / size == y,
        0 <= (y * size + x) * 4 + c < size * size * 4,
{
    vstd::arithmetic::div_mod::lemma_fundamental_div_mod_converse(
        (y * size + x) * 4 + c,
        4,
        y * size + x,
        c,
    );
    vstd::arithmetic::div_mod::lemma_fundamental_div_mod_converse(y * size + x, size, y, x);
    lemma_source_index(y, x, c, size);
}

/// Pastes the RGBA picture `pixels`, of side `r.inner_size`, onto a transparent
/// `r.size`×`r.size` RGBA canvas at (`r.offset`, `r.offset`). Bytes are row-major, four
/// per pixel.
pub fn compose_canvas(r: IconRender, pixels: &Vec<u8>) -> (canvas: Vec<u8>)
    requires
        1 <= r.size <= 1024,
        r.offset + r.inner_size <= r.size,
        pixels.len() == r.inner_size * r.inner_size * 4,
    ensures
        canvas.len() == r.size * r.size * 4,
        forall|i: int| 0 <= i < canvas.len() ==> #[trigger] canvas@[i] == canvas_byte(r, pixels@, i),
        forall|x: int, y: int, c: int|
            0 <= x < r.size && 0 <= y < r.size && 0 <= c < 4 ==> #[trigger] canvas@[(y * r.size + x) * 4 + c]
                == if r.offset <= x < r.offset + r.inner_size && r.offset <= y < r.offset + r.inner_size {
                pixels@[((y - r.offset) * r.inner_size + (x - r.offset)) * 4 + c]
            } else {
                0u8
            },
{
    let size = r.size as usize;
    let inner = r.inner_size as usize;
    let off = r.offset as usize;
    assert(size * size * 4 <= 1024 * 1024 * 4) by (nonlinear_arith)
        requires
            size <= 1024,
    ;
    let total = size * size * 4;
    let mut canvas: Vec<u8> = Vec::new();
    let mut i: usize = 0;
    while i < total
        invariant
            size == r.size,
            inner == r.inner_size,
            off == r.offset,
            1 <= size <= 1024,
            off + inner <= size,
            total == size * size * 4,
            pixels.len() == inner * inner * 4,
            i <= total,
            canvas.len() == i,
            forall|j: int| 0 <= j < i ==> #[trigger] canvas@[j] == canvas_byte(r, pixels@, j),
        decreases total - i,
    {
        let p = i / 4;
        let c = i % 4;
        let x = p % size;
        let y = p / size;
        let v: u8 = if off <= x && x < off + inner && off <= y && y < off + inner {
            proof {
                lemma_source_index((y - off) as int, (x - off) as int, c as int, inner as int);
            }
            pixels[((y - off) * inner + (x - off)) * 4 + c]
        } else {
            0
        };
        canvas.push(v);
        i = i + 1;
    }
    assert forall|x: int, y: int, c: int|
        0 <= x < r.size && 0 <= y < r.size && 0 <= c < 4 implies #[trigger] canvas@[(y * r.size + x) * 4 + c]
            == if r.offset <= x < r.offset + r.inner_size && r.offset <= y < r.offset + r.inner_size {
            pixels@[((y - r.offset) * r.inner_size + (x - r.offset)) * 4 + c]
        } else {
            0u8
        } by {
        lemma_canvas_index(x, y, c, r.size as int);
        assert(canvas@[(y * r.size + x) * 4 + c] == canvas_byte(r, pixels@, (y * r.size + x) * 4 + c));
    }
    canvas
}

} // verus!
