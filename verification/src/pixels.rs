//! Conversion of 32-bit framebuffer pixels, row by row with a stride, to
//! packed RGBA.
use vstd::prelude::*;

verus! {

/// Byte order of a 32-bit pixel in memory.
#[derive(Debug, Clone, Copy, PartialEq, Eq, Structural)]
pub enum PixelLayout {
    /// `[B, G, R, X]`: no alpha, the result is opaque.
    Bgrx,
    /// `[B, G, R, A]`.
    Bgra,
    /// `[R, G, B, X]`: no alpha, the result is opaque.
    Rgbx,
    /// `[R, G, B, A]`.
    Rgba,
}

/// The RGBA bytes of the pixel at byte offset `off`; a pixel that does not
/// lie wholly inside the data is black with alpha `pad_alpha`.
pub open spec fn pixel_rgba(data: Seq<u8>, off: int, layout: PixelLayout, pad_alpha: u8) -> Seq<
    u8,
> {
    if off + 3 >= data.len() {
        seq![0u8, 0u8, 0u8, pad_alpha]
    } else {
        match layout {
            PixelLayout::Bgrx => seq![data[off + 2], data[off + 1], data[off], 255u8],
            PixelLayout::Bgra => seq![data[off + 2], data[off + 1], data[off], data[off + 3]],
            PixelLayout::Rgbx => seq![data[off], data[off + 1], data[off + 2], 255u8],
            PixelLayout::Rgba => seq![data[off], data[off + 1], data[off + 2], data[off + 3]],
        }
    }
}

/// The first `n` pixels of row `y`, in RGBA.
pub open spec fn rgba8_row(
    data: Seq<u8>,
    stride: nat,
    layout: PixelLayout,
    pad_alpha: u8,
    y: nat,
    n: nat,
) -> Seq<u8>
    decreases n,
{
    if n == 0 {
        seq![]
    } else {
        rgba8_row(data, stride, layout, pad_alpha, y, (n - 1) as nat) + pixel_rgba(
            data,
            y * stride + 4 * (n - 1),
            layout,
            pad_alpha,
        )
    }
}

/// The first `rows` rows of a `width`-pixel-wide image, in RGBA, row after row.
pub open spec fn rgba8_image(
    data: Seq<u8>,
    width: nat,
    stride: nat,
    layout: PixelLayout,
    pad_alpha: u8,
    rows: nat,
) -> Seq<u8>
    decreases rows,
{
    if rows == 0 {
        seq![]
    } else {
        rgba8_image(data, width, stride, layout, pad_alpha, (rows - 1) as nat) + rgba8_row(
            data,
            stride,
            layout,
            pad_alpha,
            (rows - 1) as nat,
            width,
        )
    }
}

/// A row of `n` pixels is `4 * n` bytes long.
pub proof fn lemma_row_len(data: Seq<u8>, stride: nat, layout: PixelLayout, pad_alpha: u8, y: nat, n: nat)
    ensures
        rgba8_row(data, stride, layout, pad_alpha, y, n).len() == 4 * n,
    decreases n,
{
    if n > 0 {
        lemma_row_len(data, stride, layout, pad_alpha, y, (n - 1) as nat);
    }
}

/// An image of `rows` rows of `width` pixels is `4 * width * rows` bytes long.
pub proof fn lemma_image_len(
    data: Seq<u8>,
    width: nat,
    stride: nat,
    layout: PixelLayout,
    pad_alpha: u8,
    rows: nat,
)
    ensures
        rgba8_image(data, width, stride, layout, pad_alpha, rows).len() == 4 * width * rows,
    decreases rows,
{
    if rows > 0 {
        lemma_image_len(data, width, stride, layout, pad_alpha, (rows - 1) as nat);
        lemma_row_len(data, stride, layout, pad_alpha, (rows - 1) as nat, width);
        let r1 = (rows - 1) as nat;
        assert(4 * width * rows == 4 * width * r1 + 4 * width) by (nonlinear_arith)
            requires
                r1 == rows - 1,
        ;
    } else {
        assert(4 * width * rows == 0) by (nonlinear_arith)
            requires
                rows == 0,
        ;
    }
}

/// Pixel `x` of a row is the 4 bytes at `4 * x`, read from the data at
/// `y * stride + 4 * x`.
proof fn lemma_row_pixel(
    data: Seq<u8>,
    stride: nat,
    layout: PixelLayout,
    pad_alpha: u8,
    y: nat,
    n: nat,
    x: nat,
)
    requires
        x < n,
    ensures
        rgba8_row(data, stride, layout, pad_alpha, y, n).subrange((4 * x) as int, (4 * x + 4) as int) == pixel_rgba(
            data,
            (y * stride + 4 * x) as int,
            layout,
            pad_alpha,
        ),
    decreases n,
{
    let prev = rgba8_row(data, stride, layout, pad_alpha, y, (n - 1) as nat);
    let row = rgba8_row(data, stride, layout, pad_alpha, y, n);
    lemma_row_len(data, stride, layout, pad_alpha, y, (n - 1) as nat);
    if x == n - 1 {
        assert(row.subrange((4 * x) as int, (4 * x + 4) as int) =~= pixel_rgba(data, (y * stride + 4 * x) as int, layout, pad_alpha));
    } else {
        lemma_row_pixel(data, stride, layout, pad_alpha, y, (n - 1) as nat, x);
        assert(row.subrange((4 * x) as int, (4 * x + 4) as int) =~= prev.subrange((4 * x) as int, (4 * x + 4) as int));
    }
}

/// Pixel `(x, y)` of an image is the 4 bytes at `4 * (y * width + x)`.
proof fn lemma_image_pixel(
    data: Seq<u8>,
    width: nat,
    stride: nat,
    layout: PixelLayout,
    pad_alpha: u8,
    rows: nat,
    y: nat,
    x: nat,
)
    requires
        y < rows,
        x < width,
    ensures
        rgba8_image(data, width, stride, layout, pad_alpha, rows).subrange(
            (4 * (y * width + x)) as int,
            (4 * (y * width + x) + 4) as int,
        ) == pixel_rgba(data, (y * stride + 4 * x) as int, layout, pad_alpha),
    decreases rows,
{
    let r1 = (rows - 1) as nat;
    let prev = rgba8_image(data, width, stride, layout, pad_alpha, r1);
    let img = rgba8_image(data, width, stride, layout, pad_alpha, rows);
    let i = (4 * (y * width + x)) as int;
    lemma_image_len(data, width, stride, layout, pad_alpha, r1);
    let row = rgba8_row(data, stride, layout, pad_alpha, r1, width);
    lemma_row_len(data, stride, layout, pad_alpha, r1, width);
    assert(img == prev + row);
    if y == r1 {
        lemma_row_pixel(data, stride, layout, pad_alpha, r1, width, x);
        assert(i == 4 * width * r1 + 4 * x) by (nonlinear_arith)
            requires
                i == 4 * (y * width + x),
                y == r1,
        ;
        assert(img.subrange(i, i + 4) =~= rgba8_row(data, stride, layout, pad_alpha, r1, width).subrange(
            (4 * x) as int,
            (4 * x + 4) as int,
        ));
    } else {
        lemma_image_pixel(data, width, stride, layout, pad_alpha, r1, y, x);
        assert(i + 4 <= 4 * width * r1) by (nonlinear_arith)
            requires
                i == 4 * (y * width + x),
                y + 1 <= r1,
                x + 1 <= width,
        ;
        assert(img.subrange(i, i + 4) =~= prev.subrange(i, i + 4));
    }
}

/// The conversion's law: the output has 4 bytes per pixel, and output pixel
/// `(x, y)`, at byte `4 * (y * width + x)`, is read from the input pixel at
/// byte `y * stride + 4 * x`, the rows being `stride` bytes apart. Its red,
/// green and blue come from bytes 2, 1, 0 of a BGR pixel or 0, 1, 2 of an
/// RGB one; its alpha is byte 3 where the layout has alpha, else 255; an
/// input pixel that does not lie wholly inside the data gives black with
/// alpha `pad_alpha`.
pub proof fn lemma_converted_pixel(
    data: Seq<u8>,
    width: nat,
    stride: nat,
    layout: PixelLayout,
    pad_alpha: u8,
    rows: nat,
    y: nat,
    x: nat,
)
    requires
        y < rows,
        x < width,
    ensures
        ({
            let img = rgba8_image(data, width, stride, layout, pad_alpha, rows);
            let i = (4 * (y * width + x)) as int;
            let off = (y * stride + 4 * x) as int;
            let inside = off + 3 < data.len();
            &&& img.len() == 4 * width * rows
            &&& i + 4 <= img.len()
            &&& inside && (layout == PixelLayout::Bgrx || layout == PixelLayout::Bgra) ==> img[i]
                == data[off + 2] && img[i + 1] == data[off + 1] && img[i + 2] == data[off]
            &&& inside && (layout == PixelLayout::Rgbx || layout == PixelLayout::Rgba) ==> img[i]
                == data[off] && img[i + 1] == data[off + 1] && img[i + 2] == data[off + 2]
            &&& inside && (layout == PixelLayout::Bgrx || layout == PixelLayout::Rgbx) ==> img[i
                + 3] == 255
            &&& inside && (layout == PixelLayout::Bgra || layout == PixelLayout::Rgba) ==> img[i
                + 3] == data[off + 3]
            &&& !inside ==> img[i] == 0 && img[i + 1] == 0 && img[i + 2] == 0 && img[i + 3]
                == pad_alpha
        }),
{
    let img = rgba8_image(data, width, stride, layout, pad_alpha, rows);
    let i = (4 * (y * width + x)) as int;
    lemma_image_len(data, width, stride, layout, pad_alpha, rows);
    lemma_image_pixel(data, width, stride, layout, pad_alpha, rows, y, x);
    assert(i + 4 <= 4 * width * rows) by (nonlinear_arith)
        requires
            i == 4 * (y * width + x),
            y + 1 <= rows,
            x + 1 <= width,
    ;
    let px = pixel_rgba(data, (y * stride + 4 * x) as int, layout, pad_alpha);
    assert(img[i] == px[0] && img[i + 1] == px[1] && img[i + 2] == px[2] && img[i + 3] == px[3]) by {
        assert(img.subrange(i, i + 4)[0] == img[i]);
        assert(img.subrange(i, i + 4)[1] == img[i + 1]);
        assert(img.subrange(i, i + 4)[2] == img[i + 2]);
        assert(img.subrange(i, i + 4)[3] == img[i + 3]);
    }
}

fn push_pixel(out: &mut Vec<u8>, data: &[u8], off: u64, layout: PixelLayout, pad_alpha: u8)
    requires
        off < 0x10_0000_0000,
    ensures
        final(out)@ == old(out)@ + pixel_rgba(data@, off as int, layout, pad_alpha),
{
    if off + 3 >= data.len() as u64 {
        out.push(0);
        out.push(0);
        out.push(0);
        out.push(pad_alpha);
    } else {
        let o = off as usize;
        let (r, g, b, a) = match layout {
            PixelLayout::Bgrx => (data[o + 2], data[o + 1], data[o], 255u8),
            PixelLayout::Bgra => (data[o + 2], data[o + 1], data[o], data[o + 3]),
            PixelLayout::Rgbx => (data[o], data[o + 1], data[o + 2], 255u8),
            PixelLayout::Rgba => (data[o], data[o + 1], data[o + 2], data[o + 3]),
        };
        out.push(r);
        out.push(g);
        out.push(b);
        out.push(a);
    }
    assert(out@ =~= old(out)@ + pixel_rgba(data@, off as int, layout, pad_alpha));
}

/// Converts `height` rows of `width` 32-bit pixels, rows `stride` bytes
/// apart, to packed RGBA.
pub fn convert_to_rgba8(
    data: &[u8],
    width: u32,
    height: u32,
    stride: u32,
    layout: PixelLayout,
    pad_alpha: u8,
) -> (rgba: Vec<u8>)
    requires
        height == 0 || (height - 1) * stride <= u32::MAX,
    ensures
        rgba@ == rgba8_image(data@, width as nat, stride as nat, layout, pad_alpha, height as nat),
{
    let mut rgba: Vec<u8> = Vec::new();
    let mut y: u32 = 0;
    while y < height
        invariant
            y <= height,
            height == 0 || (height - 1) * stride <= u32::MAX,
            rgba@ == rgba8_image(
                data@,
                width as nat,
                stride as nat,
                layout,
                pad_alpha,
                y as nat,
            ),
        decreases height - y,
    {
        assert(y * stride <= (height - 1) * stride) by (nonlinear_arith)
            requires
                y <= height - 1,
        ;
        let row_start = (y * stride) as u64;
        let ghost before = rgba@;
        let mut x: u32 = 0;
        while x < width
            invariant
                x <= width,
                row_start == y * stride,
                row_start <= 0xffff_ffff,
                rgba@ == before + rgba8_row(data@, stride as nat, layout, pad_alpha, y as nat, x as nat),
            decreases width - x,
        {
            let off = row_start + (x as u64) * 4;
            push_pixel(&mut rgba, data, off, layout, pad_alpha);
            x = x + 1;
            assert(rgba@ =~= before + rgba8_row(
                data@,
                stride as nat,
                layout,
                pad_alpha,
                y as nat,
                x as nat,
            ));
        }
        y = y + 1;
    }
    rgba
}

} // verus!
