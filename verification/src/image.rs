//! Rendered compositing layers.
//!
//! A render call on the native engine yields a forward-linked list of layer
//! nodes, each a stride-padded byte bitmap with a packed color, a
//! destination offset and a kind tag.  The unsafe walk of that list lives
//! outside this crate; each node's plain fields are handed here, where the
//! kind tag is decoded and the bitmap is packed row by row into owned,
//! contiguous storage.

use vstd::prelude::*;

verus! {

/// The kind of one compositing layer: glyph body, outline, or shadow.
#[derive(Debug, Clone, Eq, PartialEq, Structural)]
pub enum ImageKind {
    Character,
    Outline,
    Shadow,
}

impl ImageKind {
    /// The tag the native engine uses for this kind.
    pub open spec fn tag(self) -> int {
        match self {
            ImageKind::Character => 0,
            ImageKind::Outline => 1,
            ImageKind::Shadow => 2,
        }
    }

    /// Encodes this kind as the native tag.
    pub fn to_native(&self) -> (t: i32)
        ensures
            t == self.tag(),
    {
        match self {
            ImageKind::Character => 0,
            ImageKind::Outline => 1,
            ImageKind::Shadow => 2,
        }
    }

    /// Decodes a native tag.  `None` marks a tag outside the known set: an
    /// internal-invariant violation (an engine of another version), not a
    /// user error.
    pub fn from_native(t: i32) -> (r: Option<ImageKind>)
        ensures
            r is Some <==> 0 <= t <= 2,
            r matches Some(k) ==> k.tag() == t,
    {
        if t == 0 {
            Some(ImageKind::Character)
        } else if t == 1 {
            Some(ImageKind::Outline)
        } else if t == 2 {
            Some(ImageKind::Shadow)
        } else {
            None
        }
    }
}

/// One rasterized compositing element, with its bitmap copied into owned
/// storage: `bitmap` holds `width * height` coverage bytes, row-major and
/// contiguous (the stride padding of the native node is already gone).
#[derive(Debug, Clone)]
pub struct Layer {
    pub width: i32,
    pub height: i32,
    pub bitmap: Vec<u8>,
    pub color: u32,
    pub x: i32,
    pub y: i32,
    pub kind: ImageKind,
}

impl Layer {
    /// A well-formed layer: non-negative extent and a bitmap of exactly one
    /// byte per pixel.
    pub open spec fn wf(self) -> bool {
        &&& 0 <= self.width
        &&& 0 <= self.height
        &&& self.bitmap@.len() == self.width * self.height
    }

    /// Builds an owned layer from the plain fields of one native list node.
    /// `bitmap` is the node's backing storage, `stride` its row pitch.
    ///
    /// `None` marks a node whose fields the engine's documented invariants
    /// rule out (negative extent, stride under width, storage shorter than
    /// `height` rows, or a kind tag outside the known set): an
    /// internal-invariant violation, not a user error.
    pub fn from_native(
        width: i32,
        height: i32,
        stride: i32,
        bitmap: &[u8],
        color: u32,
        x: i32,
        y: i32,
        kind_tag: i32,
    ) -> (r: Option<Layer>)
        ensures
            r is Some <==> {
                &&& 0 <= width
                &&& 0 <= height
                &&& width <= stride
                &&& padded_len(width as int, height as int, stride as int) <= bitmap@.len()
                &&& 0 <= kind_tag <= 2
            },
            r matches Some(l) ==> {
                &&& l.wf()
                &&& l.width == width
                &&& l.height == height
                &&& l.color == color
                &&& l.x == x
                &&& l.y == y
                &&& l.kind.tag() == kind_tag
                &&& forall|rr: int, c: int|
                    0 <= rr < height && 0 <= c < width ==> #[trigger] at(
                        l.bitmap@,
                        width as int,
                        rr,
                        c,
                    ) == at(bitmap@, stride as int, rr, c)
            },
    {
        if width < 0 || height < 0 || stride < width {
            return None;
        }
        let w: usize = width as usize;
        let h: usize = height as usize;
        let s: usize = stride as usize;
        let n: usize = bitmap.len();
        if h > 0 {
            let hm: u64 = h as u64 - 1;
            let su: u64 = s as u64;
            let wu: u64 = w as u64;
            proof {
                assert(hm * su + wu < 0xFFFF_FFFF_FFFF_FFFFu64) by (nonlinear_arith)
                    requires
                        hm < 0x1_0000_0000u64,
                        su < 0x1_0000_0000u64,
                        wu < 0x1_0000_0000u64,
                ;
            }
            if hm * su + wu > n as u64 {
                return None;
            }
        }
        let kind = match ImageKind::from_native(kind_tag) {
            Some(k) => k,
            None => {
                return None;
            },
        };
        proof {
            assert(w * h <= padded_len(w as int, h as int, s as int)) by (nonlinear_arith)
                requires
                    0 <= h,
                    0 <= w <= s,
            ;
        }
        let packed = pack_bitmap(bitmap, w, h, s);
        Some(
            Layer {
                width,
                height,
                bitmap: packed,
                color,
                x,
                y,
                kind,
            },
        )
    }
}

/// The byte of a row-major grid `s` with row pitch `pitch` at row `r`,
/// column `c`.
pub open spec fn at(s: Seq<u8>, pitch: int, r: int, c: int) -> u8 {
    s[r * pitch + c]
}

/// The storage a stride-padded bitmap occupies: full rows but the last,
/// which holds only `width` bytes (the engine allocates no padding after
/// it).
pub open spec fn padded_len(width: int, height: int, stride: int) -> int {
    if height == 0 {
        0
    } else {
        (height - 1) * stride + width
    }
}

/// Packs a stride-padded bitmap into contiguous row-major storage: row `r`
/// of the result is bytes `r * stride .. r * stride + width` of `src`.  The
/// native engine's row stride may exceed the bitmap width; the copy honours
/// the stride instead of assuming the rows are contiguous.
pub fn pack_bitmap(src: &[u8], width: usize, height: usize, stride: usize) -> (out: Vec<u8>)
    requires
        width <= stride,
        padded_len(width as int, height as int, stride as int) <= src@.len(),
        width * height <= usize::MAX,
    ensures
        out@.len() == width * height,
        forall|r: int, c: int|
            0 <= r < height && 0 <= c < width ==> #[trigger] at(out@, width as int, r, c) == at(
                src@,
                stride as int,
                r,
                c,
            ),
{
    let n: usize = src.len();
    let mut out: Vec<u8> = Vec::new();
    let mut r: usize = 0;
    while r < height
        invariant
            width <= stride,
            n == src@.len(),
            padded_len(width as int, height as int, stride as int) <= src@.len(),
            width * height <= usize::MAX,
            r <= height,
            out@.len() == r * width,
            forall|rr: int, c: int|
                0 <= rr < r && 0 <= c < width ==> #[trigger] at(out@, width as int, rr, c) == at(
                    src@,
                    stride as int,
                    rr,
                    c,
                ),
        decreases height - r,
    {
        let mut c: usize = 0;
        proof {
            assert((r + 1) * width <= width * height) by (nonlinear_arith)
                requires
                    r < height,
                    0 <= width,
            ;
        }
        while c < width
            invariant
                width <= stride,
                n == src@.len(),
                padded_len(width as int, height as int, stride as int) <= src@.len(),
                r < height,
                (r + 1) * width <= width * height,
                width * height <= usize::MAX,
                c <= width,
                out@.len() == r * width + c,
                forall|rr: int, cc: int|
                    0 <= rr < r && 0 <= cc < width ==> #[trigger] at(out@, width as int, rr, cc)
                        == at(src@, stride as int, rr, cc),
                forall|cc: int|
                    0 <= cc < c ==> #[trigger] at(out@, width as int, r as int, cc) == at(
                        src@,
                        stride as int,
                        r as int,
                        cc,
                    ),
            decreases width - c,
        {
            proof {
                assert(r * stride + c < (height - 1) * stride + width && r * width + c < (r + 1)
                    * width) by (nonlinear_arith)
                    requires
                        c < width,
                        r < height,
                        0 <= r,
                        0 <= stride,
                ;
            }
            let ghost out0 = out@;
            let b: u8 = src[r * stride + c];
            out.push(b);
            proof {
                let w = width as int;
                let ri = r as int;
                let ci = c as int;
                assert(out@ == out0.push(b));
                assert forall|rr: int, cc: int|
                    0 <= rr < ri && 0 <= cc < w implies #[trigger] at(out@, w, rr, cc) == at(
                    src@,
                    stride as int,
                    rr,
                    cc,
                ) by {
                    assert(0 <= rr * w + cc < ri * w) by (nonlinear_arith)
                        requires
                            0 <= rr < ri,
                            0 <= cc < w,
                    ;
                    assert(at(out0, w, rr, cc) == at(src@, stride as int, rr, cc));
                    assert(out@[rr * w + cc] == out0[rr * w + cc]);
                }
                assert forall|cc: int| 0 <= cc <= ci implies #[trigger] at(out@, w, ri, cc) == at(
                    src@,
                    stride as int,
                    ri,
                    cc,
                ) by {
                    assert(0 <= ri * w + cc <= ri * w + ci) by (nonlinear_arith)
                        requires
                            0 <= ri,
                            0 <= w,
                            0 <= cc <= ci,
                    ;
                    if cc < ci {
                        assert(at(out0, w, ri, cc) == at(src@, stride as int, ri, cc));
                        assert(out@[ri * w + cc] == out0[ri * w + cc]);
                    } else {
                        assert(out@[ri * w + ci] == b);
                    }
                }
            }
            c = c + 1;
        }
        r = r + 1;
        proof {
            assert(r * width == (r - 1) * width + width) by (nonlinear_arith);
        }
    }
    proof {
        assert(height * width == width * height) by (nonlinear_arith);
    }
    out
}

} // verus!
