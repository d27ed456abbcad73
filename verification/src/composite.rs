//! Per-pixel compositing of rendered layers onto a pixel buffer.
//!
//! Each layer carries a coverage bitmap and a packed color `0xRRGGBBAA`
//! whose last byte is transparency: the effective alpha is `255 - (color
//! & 0xFF)`.  A layer is blended onto an RGBA frame buffer channel by
//! channel with `out = (coverage * fg + (255 - coverage) * bg) / 255`,
//! where `fg` is the layer's value for that channel (red, green, blue,
//! or effective alpha) and `bg` the buffer's previous value.

use vstd::prelude::*;
use vstd::arithmetic::div_mod::lemma_fundamental_div_mod;
use vstd::arithmetic::div_mod::lemma_fundamental_div_mod_converse;
use vstd::arithmetic::div_mod::lemma_mod_pos_bound;
use crate::image::Layer;

verus! {

/// The blend of one channel: foreground weighted by coverage against
/// background weighted by the rest.
pub open spec fn blend(k: int, fg: int, bg: int) -> int {
    (k * fg + (255 - k) * bg) / 255
}

/// The red byte of a packed `0xRRGGBBAA` color.
pub open spec fn red_of(c: u32) -> int {
    (c >> 24) as int
}

/// The green byte of a packed color.
pub open spec fn green_of(c: u32) -> int {
    ((c >> 16) & 0xff) as int
}

/// The blue byte of a packed color.
pub open spec fn blue_of(c: u32) -> int {
    ((c >> 8) & 0xff) as int
}

/// The effective alpha of a packed color: its last byte is transparency,
/// so an alpha byte of zero means fully opaque.
pub open spec fn alpha_of(c: u32) -> int {
    255 - ((c & 0xff) as int)
}

/// The layer's value for frame channel `ch`: red, green, blue, then
/// effective alpha.
pub open spec fn channel_of(c: u32, ch: int) -> int {
    if ch == 0 {
        red_of(c)
    } else if ch == 1 {
        green_of(c)
    } else if ch == 2 {
        blue_of(c)
    } else {
        alpha_of(c)
    }
}

/// Blends one channel value.
pub fn blend_channel(coverage: u8, fg: u8, bg: u8) -> (out: u8)
    ensures
        out == blend(coverage as int, fg as int, bg as int),
{
    let k: u32 = coverage as u32;
    let f: u32 = fg as u32;
    let b: u32 = bg as u32;
    proof {
        assert(k * f + (255 - k) * b <= 255 * 255) by (nonlinear_arith)
            requires
                k <= 255,
                f <= 255,
                b <= 255,
        ;
    }
    ((k * f + (255 - k) * b) / 255) as u8
}

/// Unpacks a `0xRRGGBBAA` color into the four channel values the blend
/// uses: red, green, blue, effective alpha.
pub fn decode_color(color: u32) -> (rgba: (u8, u8, u8, u8))
    ensures
        rgba.0 == red_of(color),
        rgba.1 == green_of(color),
        rgba.2 == blue_of(color),
        rgba.3 == alpha_of(color),
{
    proof {
        assert(color >> 24 < 256 && (color >> 16) & 0xff < 256 && (color >> 8) & 0xff < 256 && (
        color & 0xff) < 256) by (bit_vector);
    }
    let r: u8 = (color >> 24) as u8;
    let g: u8 = ((color >> 16) & 0xff) as u8;
    let b: u8 = ((color >> 8) & 0xff) as u8;
    let a: u8 = (255 - (color & 0xff) as u8) as u8;
    (r, g, b, a)
}

/// Whether frame pixel `(xx, yy)` lies under the layer.
pub open spec fn layer_covers(l: Layer, xx: int, yy: int) -> bool {
    l.x <= xx < l.x + l.width && l.y <= yy < l.y + l.height
}

/// The value of frame byte `i` once the layer is composited: bytes under
/// the layer are blended with the layer's channel value and its coverage
/// at that pixel, every other byte keeps its value.  The frame is RGBA,
/// row-major, `fw` pixels per row.
pub open spec fn composited_value(frame0: Seq<u8>, l: Layer, fw: int, i: int) -> u8 {
    let ch = i % 4;
    let pix = i / 4;
    let xx = pix % fw;
    let yy = pix / fw;
    if layer_covers(l, xx, yy) {
        let k = l.bitmap@[(yy - l.y) * l.width + (xx - l.x)];
        blend(k as int, channel_of(l.color, ch), frame0[i] as int) as u8
    } else {
        frame0[i]
    }
}

/// The whole frame once the layer is composited.
pub open spec fn composited(frame0: Seq<u8>, l: Layer, fw: int) -> Seq<u8> {
    Seq::new(frame0.len(), |i: int| composited_value(frame0, l, fw, i))
}

/// Whether the layer byte at layer-relative row `a`, column `b`, channel
/// `c` comes strictly before position `(row, col, ch)` in the order the
/// compositing loop walks: row-major, then channel.
pub open spec fn walked(a: int, b: int, c: int, row: int, col: int, ch: int) -> bool {
    a < row || (a == row && (b < col || (b == col && c < ch)))
}

/// The frame when the compositing loop has processed exactly the layer
/// bytes before position `(row, col, ch)`.
pub open spec fn composited_upto(
    frame0: Seq<u8>,
    l: Layer,
    fw: int,
    row: int,
    col: int,
    ch: int,
) -> Seq<u8> {
    Seq::new(
        frame0.len(),
        |i: int|
            {
                let c = i % 4;
                let pix = i / 4;
                let xx = pix % fw;
                let yy = pix / fw;
                if layer_covers(l, xx, yy) && walked(yy - l.y, xx - l.x, c, row, col, ch) {
                    let k = l.bitmap@[(yy - l.y) * l.width + (xx - l.x)];
                    blend(k as int, channel_of(l.color, c), frame0[i] as int) as u8
                } else {
                    frame0[i]
                }
            },
    )
}

/// Composites one layer onto an RGBA frame buffer of `frame_width` by
/// `frame_height` pixels, blending each covered byte and leaving every
/// other byte unchanged.  The layer must lie inside the frame.
#[verifier::loop_isolation(false)]
#[verifier::rlimit(100)]
pub fn composite_layer(l: &Layer, frame: &mut Vec<u8>, frame_width: usize, frame_height: usize)
    requires
        l.wf(),
        0 <= l.x,
        0 <= l.y,
        l.x + l.width <= frame_width,
        l.y + l.height <= frame_height,
        old(frame)@.len() == frame_width * frame_height * 4,
    ensures
        final(frame)@.len() == old(frame)@.len(),
        final(frame)@ == composited(old(frame)@, *l, frame_width as int),
{
    let ghost frame0 = frame@;
    let ghost fwi = frame_width as int;
    let (cr, cg, cb, ca) = decode_color(l.color);
    let total: usize = frame.len();
    let bn: usize = l.bitmap.len();
    let w: usize = l.width as usize;
    let h: usize = l.height as usize;
    let x0: usize = l.x as usize;
    let y0: usize = l.y as usize;
    let mut row: usize = 0;
    proof {
        assert(frame@ =~= composited_upto(frame0, *l, fwi, 0, 0, 0));
    }
    while row < h
        invariant
            row <= h,
            frame@ == composited_upto(frame0, *l, fwi, row as int, 0, 0),
        decreases h - row,
    {
        let mut col: usize = 0;
        while col < w
            invariant
                row < h,
                col <= w,
                frame@ == composited_upto(frame0, *l, fwi, row as int, col as int, 0),
            decreases w - col,
        {
            let mut ch: usize = 0;
            proof {
                assert(row * w + col < w * h) by (nonlinear_arith)
                    requires
                        row < h,
                        col < w,
                        0 <= w,
                ;
                assert(w * h == l.bitmap@.len());
                assert(l.bitmap@.len() == bn);
                assert(((y0 + row) * frame_width + (x0 + col)) * 4 + 3 < frame_width * frame_height
                    * 4) by (nonlinear_arith)
                    requires
                        y0 + row < frame_height,
                        x0 + col < frame_width,
                        0 <= frame_width,
                ;
            }
            let k: u8 = l.bitmap[row * w + col];
            let pix: usize = (y0 + row) * frame_width + (x0 + col);
            while ch < 4
                invariant
                    row < h,
                    col < w,
                    ch <= 4,
                    k == l.bitmap@[row * w + col],
                    pix == (y0 + row) * frame_width + (x0 + col),
                    pix * 4 + 3 < frame@.len(),
                    frame@ == composited_upto(frame0, *l, fwi, row as int, col as int, ch as int),
                decreases 4 - ch,
            {
                let idx: usize = pix * 4 + ch;
                let fg: u8 = if ch == 0 {
                    cr
                } else if ch == 1 {
                    cg
                } else if ch == 2 {
                    cb
                } else {
                    ca
                };
                let ghost pre = frame@;
                let bg: u8 = frame[idx];
                let v: u8 = blend_channel(k, fg, bg);
                frame.set(idx, v);
                proof {
                    let rowi = row as int;
                    let coli = col as int;
                    let chi = ch as int;
                    let idxi = idx as int;
                    lemma_fundamental_div_mod_converse(idxi, 4, pix as int, chi);
                    lemma_fundamental_div_mod_converse(pix as int, fwi, y0 + rowi, x0 + coli);
                    assert(layer_covers(*l, x0 + coli, y0 + rowi));
                    assert(pre[idxi] == frame0[idxi]);
                    assert(frame@[idxi] == composited_upto(
                        frame0,
                        *l,
                        fwi,
                        rowi,
                        coli,
                        chi + 1,
                    )[idxi]);
                    assert forall|i: int|
                        0 <= i < frame0.len() && i != idxi implies frame@[i] == composited_upto(
                        frame0,
                        *l,
                        fwi,
                        rowi,
                        coli,
                        chi + 1,
                    )[i] by {
                        lemma_mod_pos_bound(i, 4);
                        lemma_mod_pos_bound(i / 4, fwi);
                        lemma_fundamental_div_mod(i, 4);
                        lemma_fundamental_div_mod(i / 4, fwi);
                        let c = i % 4;
                        let p = i / 4;
                        let xx = p % fwi;
                        let yy = p / fwi;
                        if layer_covers(*l, xx, yy) && yy - l.y == rowi && xx - l.x == coli && c
                            == chi {
                            assert(fwi * yy == yy * fwi) by (nonlinear_arith);
                            assert(p == yy * fwi + xx);
                            assert(p == pix as int);
                            assert(i == p * 4 + c);
                            assert(i == idxi);
                        }
                    }
                    assert(frame@ =~= composited_upto(frame0, *l, fwi, rowi, coli, chi + 1));
                }
                ch = ch + 1;
            }
            proof {
                assert forall|i: int| 0 <= i < frame0.len() implies composited_upto(
                    frame0,
                    *l,
                    fwi,
                    row as int,
                    col as int,
                    4,
                )[i] == composited_upto(frame0, *l, fwi, row as int, col as int + 1, 0)[i] by {
                    lemma_mod_pos_bound(i, 4);
                }
                assert(composited_upto(frame0, *l, fwi, row as int, col as int, 4)
                    =~= composited_upto(frame0, *l, fwi, row as int, col as int + 1, 0));
            }
            col = col + 1;
        }
        proof {
            assert(composited_upto(frame0, *l, fwi, row as int, w as int, 0) =~= composited_upto(
                frame0,
                *l,
                fwi,
                row as int + 1,
                0,
                0,
            ));
        }
        row = row + 1;
    }
    proof {
        assert forall|i: int| 0 <= i < frame0.len() implies composited_upto(
            frame0,
            *l,
            fwi,
            h as int,
            0,
            0,
        )[i] == composited(frame0, *l, fwi)[i] by {}
        assert(composited_upto(frame0, *l, fwi, h as int, 0, 0) =~= composited(frame0, *l, fwi));
    }
}

} // verus!
