use vstd::prelude::*;

verus! {

/// The result adapter: it views the mapped staging bytes as a rectangular
/// buffer of tightly packed 4-byte RGBA texels, bytes passed through
/// verbatim. Beside it stands the host-side model of the two image-wide
/// steps whose joint effect the render relies on: clearing a target to one
/// texel, and the equal-weight 2 x 2 box filter of the downsample kernel.

/// Byte offset of channel `c` of the texel at `(x, y)` in a tightly packed
/// RGBA8 buffer of `width` texels per row.
pub open spec fn texel_offset(width: int, x: int, y: int, c: int) -> int {
    4 * (y * width + x) + c
}

/// The buffer is exactly one tightly packed RGBA8 rectangle of this size:
/// row pitch 4 * width bytes, height rows, no interleaving.
pub open spec fn pixel_buffer_sized(len: int, width: int, height: int) -> bool {
    len == 4 * (width * height)
}

/// Channel `c` of one RGBA8 texel.
pub open spec fn texel_channel(t: (u8, u8, u8, u8), c: int) -> u8 {
    if c == 0 {
        t.0
    } else if c == 1 {
        t.1
    } else if c == 2 {
        t.2
    } else {
        t.3
    }
}

/// Every byte of the buffer comes from this one texel.
pub open spec fn uniform_image(img: Seq<u8>, width: int, height: int, t: (u8, u8, u8, u8)) -> bool {
    &&& pixel_buffer_sized(img.len() as int, width, height)
    &&& forall|i: int| 0 <= i < img.len() ==> img[i] == texel_channel(t, i % 4)
}

/// Check that a mapped byte range has exactly the size of a width x height
/// RGBA8 rectangle before handing it to the image-encoding consumer.
pub fn pixel_buffer_matches(len: usize, width: u32, height: u32) -> (r: bool)
    ensures
        r == pixel_buffer_sized(len as int, width as int, height as int),
{
    proof {
        assert(4 * ((width as int) * (height as int)) <= u128::MAX as int) by (nonlinear_arith)
            requires
                width <= u32::MAX,
                height <= u32::MAX,
        ;
        vstd::arithmetic::mul::lemma_mul_nonnegative(width as int, height as int);
    }
    (len as u128) == 4 * ((width as u128) * (height as u128))
}

/// A texel's byte offset lies inside the buffer, and splits back into the
/// texel's coordinates and channel.
pub proof fn lemma_texel_offset_in_bounds(width: int, height: int, x: int, y: int, c: int)
    requires
        0 <= x < width,
        0 <= y < height,
        0 <= c < 4,
    ensures
        0 <= texel_offset(width, x, y, c) < 4 * (width * height),
        texel_offset(width, x, y, c) % 4 == c,
        (texel_offset(width, x, y, c) / 4) % width == x,
        (texel_offset(width, x, y, c) / 4) / width == y,
{
    let p = y * width + x;
    assert(0 <= p && p < width * height) by (nonlinear_arith)
        requires
            0 <= x < width,
            0 <= y < height,
            p == y * width + x,
    ;
    vstd::arithmetic::div_mod::lemma_fundamental_div_mod_converse(4 * p + c, 4, p, c);
    vstd::arithmetic::div_mod::lemma_fundamental_div_mod_converse(p, width, y, x);
}

/// A byte index of the buffer splits into a channel, a column and a row, and
/// the texel offset of those is the index itself.
pub proof fn lemma_index_decomposes(width: int, height: int, i: int)
    requires
        width > 0,
        0 <= i < 4 * (width * height),
    ensures
        0 <= i % 4 < 4,
        0 <= (i / 4) % width < width,
        0 <= (i / 4) / width < height,
        texel_offset(width, (i / 4) % width, (i / 4) / width, i % 4) == i,
{
    vstd::arithmetic::div_mod::lemma_fundamental_div_mod(i, 4);
    vstd::arithmetic::div_mod::lemma_mod_bound(i, 4);
    let p = i / 4;
    assert(0 <= p && p < width * height);
    vstd::arithmetic::div_mod::lemma_fundamental_div_mod(p, width);
    vstd::arithmetic::div_mod::lemma_mod_bound(p, width);
    let y = p / width;
    let x = p % width;
    assert(0 <= y && y < height) by (nonlinear_arith)
        requires
            width > 0,
            0 <= p < width * height,
            p == width * y + x,
            0 <= x < width,
    ;
    assert(y * width == width * y) by (nonlinear_arith);
}

/// Equal-weight average of the four bytes of one channel in a 2 x 2 block.
pub open spec fn avg4(a: u8, b: u8, c: u8, d: u8) -> u8 {
    ((a + b + c + d) / 4) as u8
}

/// Host model of the downsample kernel's contract: each final texel is the
/// equal-weight average of the 2 x 2 block of supersampled texels above it,
/// channel by channel. No edge case exists because the source extents are
/// exactly twice the output's.
pub open spec fn downsampled(src: Seq<u8>, width: int, height: int) -> Seq<u8> {
    Seq::new(
        (4 * (width * height)) as nat,
        |i: int|
            {
                let c = i % 4;
                let x = (i / 4) % width;
                let y = (i / 4) / width;
                avg4(
                    src[texel_offset(2 * width, 2 * x, 2 * y, c)],
                    src[texel_offset(2 * width, 2 * x + 1, 2 * y, c)],
                    src[texel_offset(2 * width, 2 * x, 2 * y + 1, c)],
                    src[texel_offset(2 * width, 2 * x + 1, 2 * y + 1, c)],
                )
            },
    )
}

/// Box-filtering a uniform supersampled image yields the same uniform image
/// at the final resolution: in particular, after the explicit clear, a
/// render to which no kernel write applies still downsamples to the clear
/// color everywhere.
pub proof fn lemma_downsample_keeps_uniform(
    src: Seq<u8>,
    width: int,
    height: int,
    t: (u8, u8, u8, u8),
)
    requires
        width >= 0,
        height >= 0,
        uniform_image(src, 2 * width, 2 * height, t),
    ensures
        uniform_image(downsampled(src, width, height), width, height, t),
{
    let out = downsampled(src, width, height);
    vstd::arithmetic::mul::lemma_mul_nonnegative(width, height);
    assert(out.len() == 4 * (width * height));
    assert forall|i: int| 0 <= i < out.len() implies out[i] == texel_channel(t, i % 4) by {
        assert(width > 0 && height > 0) by (nonlinear_arith)
            requires
                width >= 0,
                height >= 0,
                0 <= i < 4 * (width * height),
        ;
        lemma_index_decomposes(width, height, i);
        let c = i % 4;
        let x = (i / 4) % width;
        let y = (i / 4) / width;
        lemma_texel_offset_in_bounds(2 * width, 2 * height, 2 * x, 2 * y, c);
        lemma_texel_offset_in_bounds(2 * width, 2 * height, 2 * x + 1, 2 * y, c);
        lemma_texel_offset_in_bounds(2 * width, 2 * height, 2 * x, 2 * y + 1, c);
        lemma_texel_offset_in_bounds(2 * width, 2 * height, 2 * x + 1, 2 * y + 1, c);
        let a = texel_channel(t, c);
        assert(src[texel_offset(2 * width, 2 * x, 2 * y, c)] == a);
        assert(src[texel_offset(2 * width, 2 * x + 1, 2 * y, c)] == a);
        assert(src[texel_offset(2 * width, 2 * x, 2 * y + 1, c)] == a);
        assert(src[texel_offset(2 * width, 2 * x + 1, 2 * y + 1, c)] == a);
        assert(avg4(a, a, a, a) == a) by {
            vstd::arithmetic::div_mod::lemma_fundamental_div_mod_converse(
                (a + a + a + a) as int,
                4,
                a as int,
                0,
            );
        }
    }
}

/// Read one texel of the mapped pixel rectangle, bytes verbatim.
pub fn texel_at(pixels: &Vec<u8>, width: u32, height: u32, x: u32, y: u32) -> (t: (
    u8,
    u8,
    u8,
    u8,
))
    requires
        pixel_buffer_sized(pixels@.len() as int, width as int, height as int),
        x < width,
        y < height,
    ensures
        t.0 == pixels@[texel_offset(width as int, x as int, y as int, 0)],
        t.1 == pixels@[texel_offset(width as int, x as int, y as int, 1)],
        t.2 == pixels@[texel_offset(width as int, x as int, y as int, 2)],
        t.3 == pixels@[texel_offset(width as int, x as int, y as int, 3)],
{
    proof {
        lemma_texel_offset_in_bounds(width as int, height as int, x as int, y as int, 0);
        lemma_texel_offset_in_bounds(width as int, height as int, x as int, y as int, 3);
        vstd::arithmetic::mul::lemma_mul_nonnegative(y as int, width as int);
    }
    let n: usize = pixels.len();
    let yu: usize = y as usize;
    let wu: usize = width as usize;
    let xu: usize = x as usize;
    proof {
        assert((yu as int) * (wu as int) == (y as int) * (width as int)) by (nonlinear_arith)
            requires
                yu as int == y as int,
                wu as int == width as int,
        ;
    }
    let off: usize = 4 * (yu * wu + xu);
    (pixels[off], pixels[off + 1], pixels[off + 2], pixels[off + 3])
}

/// Host reference of the downsample kernel: box-filter a supersampled
/// rectangle down to width x height, each output byte the equal-weight
/// average of its 2 x 2 source block's matching channel.
pub fn downsample_image(src: &Vec<u8>, width: u32, height: u32) -> (out: Vec<u8>)
    requires
        pixel_buffer_sized(src@.len() as int, 2 * (width as int), 2 * (height as int)),
    ensures
        out@ == downsampled(src@, width as int, height as int),
{
    let ghost dw: int = width as int;
    let ghost dh: int = height as int;
    let ghost dst = downsampled(src@, dw, dh);
    let n: usize = src.len();
    let w: usize = width as usize;
    let h: usize = height as usize;
    proof {
        assert((2 * dw) * (2 * dh) == 4 * (dw * dh)) by (nonlinear_arith);
        vstd::arithmetic::mul::lemma_mul_nonnegative(dw, dh);
        assert((w as int) * (h as int) == dw * dh) by (nonlinear_arith)
            requires
                w as int == dw,
                h as int == dh,
        ;
    }
    let texels: usize = w * h;
    let mut out: Vec<u8> = Vec::new();
    let mut p: usize = 0;
    while p < texels
        invariant
            p <= texels,
            texels as int == dw * dh,
            dw == width as int,
            dh == height as int,
            w as int == dw,
            h as int == dh,
            n == src@.len(),
            src@.len() == 4 * ((2 * dw) * (2 * dh)),
            (2 * dw) * (2 * dh) == 4 * (dw * dh),
            dst == downsampled(src@, dw, dh),
            dst.len() == 4 * (dw * dh),
            out@.len() == 4 * p,
            out@ == dst.take(4 * p as int),
        decreases texels - p,
    {
        proof {
            assert(w > 0 && h > 0) by (nonlinear_arith)
                requires
                    0 <= p < texels,
                    texels as int == (w as int) * (h as int),
                    w >= 0,
                    h >= 0,
            ;
        }
        let x: usize = p % w;
        let yy: usize = p / w;
        proof {
            vstd::arithmetic::div_mod::lemma_mod_bound(p as int, w as int);
            vstd::arithmetic::div_mod::lemma_fundamental_div_mod(p as int, w as int);
            assert((yy as int) < dh) by (nonlinear_arith)
                requires
                    w as int == dw,
                    h as int == dh,
                    dw > 0,
                    (p as int) < dw * dh,
                    p as int == dw * (yy as int) + (x as int),
                    0 <= (x as int) < dw,
                    yy as int == (p as int) / (w as int),
                    0 <= yy as int,
            ;
            lemma_texel_offset_in_bounds(2 * dw, 2 * dh, 2 * (x as int), 2 * (yy as int), 0);
            lemma_texel_offset_in_bounds(2 * dw, 2 * dh, 2 * (x as int) + 1, 2 * (yy as int), 3);
            lemma_texel_offset_in_bounds(2 * dw, 2 * dh, 2 * (x as int), 2 * (yy as int) + 1, 0);
            lemma_texel_offset_in_bounds(
                2 * dw,
                2 * dh,
                2 * (x as int) + 1,
                2 * (yy as int) + 1,
                3,
            );
            assert((2 * (yy as int)) * (2 * dw) >= 0 && (2 * (yy as int) + 1) * (2 * dw)
                >= 0) by (nonlinear_arith)
                requires
                    yy as int >= 0,
                    dw > 0,
            ;
            assert(2 * dw <= n as int) by (nonlinear_arith)
                requires
                    n as int == 4 * ((2 * dw) * (2 * dh)),
                    dw > 0,
                    dh > 0,
            ;
        }
        let sw: usize = 2 * w;
        proof {
            assert((2 * (yy as int)) * (sw as int) == (2 * (yy as int)) * (2 * dw) && (2 * (yy
                as int) + 1) * (sw as int) == (2 * (yy as int) + 1) * (2 * dw)) by (nonlinear_arith)
                requires
                    sw as int == 2 * dw,
            ;
        }
        let top: usize = 4 * ((2 * yy) * sw + 2 * x);
        let bot: usize = 4 * ((2 * yy + 1) * sw + 2 * x);
        proof {
            assert(top as int == texel_offset(2 * dw, 2 * (x as int), 2 * (yy as int), 0));
            assert(bot as int == texel_offset(2 * dw, 2 * (x as int), 2 * (yy as int) + 1, 0));
        }
        let mut c: usize = 0;
        while c < 4
            invariant
                c <= 4,
                p < texels,
                texels as int == dw * dh,
                w as int == dw,
                h as int == dh,
                n == src@.len(),
                src@.len() == 4 * ((2 * dw) * (2 * dh)),
                (2 * dw) * (2 * dh) == 4 * (dw * dh),
                dst == downsampled(src@, dw, dh),
                dst.len() == 4 * (dw * dh),
                x as int == (p as int) % dw,
                yy as int == (p as int) / dw,
                0 <= (x as int) < dw,
                0 <= (yy as int) < dh,
                top as int == texel_offset(2 * dw, 2 * (x as int), 2 * (yy as int), 0),
                bot as int == texel_offset(2 * dw, 2 * (x as int), 2 * (yy as int) + 1, 0),
                out@.len() == 4 * p + c,
                out@ == dst.take(4 * p + c as int),
            decreases 4 - c,
        {
            proof {
                lemma_texel_offset_in_bounds(
                    2 * dw,
                    2 * dh,
                    2 * (x as int),
                    2 * (yy as int),
                    c as int,
                );
                lemma_texel_offset_in_bounds(
                    2 * dw,
                    2 * dh,
                    2 * (x as int) + 1,
                    2 * (yy as int),
                    c as int,
                );
                lemma_texel_offset_in_bounds(
                    2 * dw,
                    2 * dh,
                    2 * (x as int),
                    2 * (yy as int) + 1,
                    c as int,
                );
                lemma_texel_offset_in_bounds(
                    2 * dw,
                    2 * dh,
                    2 * (x as int) + 1,
                    2 * (yy as int) + 1,
                    c as int,
                );
            }
            let a = src[top + c];
            let b = src[top + 4 + c];
            let d = src[bot + c];
            let e = src[bot + 4 + c];
            let sum: u16 = (a as u16) + (b as u16) + (d as u16) + (e as u16);
            let byte: u8 = (sum / 4) as u8;
            proof {
                let i: int = 4 * p + c as int;
                vstd::arithmetic::div_mod::lemma_fundamental_div_mod_converse(
                    i,
                    4,
                    p as int,
                    c as int,
                );
                assert(dst[i] == avg4(
                    src@[texel_offset(2 * dw, 2 * (x as int), 2 * (yy as int), c as int)],
                    src@[texel_offset(2 * dw, 2 * (x as int) + 1, 2 * (yy as int), c as int)],
                    src@[texel_offset(2 * dw, 2 * (x as int), 2 * (yy as int) + 1, c as int)],
                    src@[texel_offset(2 * dw, 2 * (x as int) + 1, 2 * (yy as int) + 1, c as int)],
                ));
                assert(byte == dst[i]);
                assert(dst.take(i + 1) =~= dst.take(i).push(dst[i]));
            }
            out.push(byte);
            c = c + 1;
        }
        p = p + 1;
    }
    proof {
        assert(dst.take(4 * (texels as int)) =~= dst);
    }
    out
}

/// Host model of the on-device clear: a width x height rectangle holding one
/// texel everywhere.
pub fn solid_image(width: u32, height: u32, t: (u8, u8, u8, u8)) -> (img: Vec<u8>)
    requires
        4 * ((width as int) * (height as int)) <= usize::MAX as int,
    ensures
        uniform_image(img@, width as int, height as int, t),
{
    proof {
        vstd::arithmetic::mul::lemma_mul_nonnegative(width as int, height as int);
    }
    let texels: usize = (width as usize) * (height as usize);
    let mut img: Vec<u8> = Vec::new();
    let mut k: usize = 0;
    while k < texels
        invariant
            k <= texels,
            texels == (width as int) * (height as int),
            4 * (texels as int) <= usize::MAX as int,
            img@.len() == 4 * k,
            forall|i: int| 0 <= i < img@.len() ==> img@[i] == texel_channel(t, i % 4),
        decreases texels - k,
    {
        img.push(t.0);
        img.push(t.1);
        img.push(t.2);
        img.push(t.3);
        proof {
            assert forall|i: int| 0 <= i < img@.len() implies img@[i] == texel_channel(
                t,
                i % 4,
            ) by {
                if i >= 4 * (k as int) {
                    vstd::arithmetic::div_mod::lemma_fundamental_div_mod_converse(
                        i,
                        4,
                        k as int,
                        i - 4 * (k as int),
                    );
                }
            }
        }
        k = k + 1;
    }
    img
}

} // verus!
