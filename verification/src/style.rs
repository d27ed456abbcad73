//! Style values and their native record form.
//!
//! A `Style` is a plain, self-contained description with no native
//! backing.  At a call boundary it is converted to `NativeStyle`, a plain
//! mirror of the engine's fixed-layout style record: every number is
//! copied, every flag becomes a native truth value, and the two text
//! fields are validated (no embedded zero byte) so that the unverified
//! boundary layer may alias them as C strings for the duration of one
//! native call.  Scale-like quantities cross the boundary as 64-bit IEEE
//! 754 values; this crate never interprets them and carries them as their
//! bit patterns, unchanged.

use vstd::prelude::*;
use crate::Error;
use crate::text::check_text;
use crate::text::nul_free;

verus! {

/// The bit mask selecting which style attributes a selective override
/// replaces.  Bits combine by union; the named bits mirror the engine's
/// header, where the font-size bit is a deprecated alias of the selective
/// font-scale bit (both are bit 1).
#[derive(Debug, Clone, Copy, Eq, PartialEq, Structural)]
pub struct OverrideBits {
    pub bits: u32,
}

impl OverrideBits {
    /// The mask with no bit set: no attribute is overridden.
    pub fn default_bits() -> (r: OverrideBits)
        ensures
            r.bits == 0,
    {
        OverrideBits { bits: 0 }
    }

    /// The mask holding exactly the given bits.
    pub fn from_bits(bits: u32) -> (r: OverrideBits)
        ensures
            r.bits == bits,
    {
        OverrideBits { bits }
    }

    /// The raw bits of the mask.
    pub fn bits(&self) -> (r: u32)
        ensures
            r == self.bits,
    {
        self.bits
    }

    /// The union of two masks.
    pub fn union(self, other: OverrideBits) -> (r: OverrideBits)
        ensures
            r.bits == self.bits | other.bits,
    {
        OverrideBits { bits: self.bits | other.bits }
    }

    /// The intersection of two masks.
    pub fn intersect(self, other: OverrideBits) -> (r: OverrideBits)
        ensures
            r.bits == self.bits & other.bits,
    {
        OverrideBits { bits: self.bits & other.bits }
    }

    /// Whether every bit of `other` is set in `self`.
    pub fn contains(self, other: OverrideBits) -> (r: bool)
        ensures
            r == (self.bits & other.bits == other.bits),
    {
        self.bits & other.bits == other.bits
    }

    /// The mask as the native call takes it.  The defined bits all lie
    /// far below the sign bit, so the value is unchanged.
    pub fn to_native(&self) -> (r: i32)
        requires
            self.bits <= i32::MAX as u32,
        ensures
            r == self.bits,
    {
        self.bits as i32
    }
}

/// Overrides the whole style.
pub const BIT_STYLE: u32 = 1;

/// Overrides the font scale of selectively overridden events.
pub const BIT_SELECTIVE_FONT_SCALE: u32 = 2;

/// Deprecated alias of the selective font-scale bit, kept as the engine's
/// header keeps it.
pub const BIT_FONT_SIZE: u32 = 2;

/// Overrides the font-size related fields.
pub const BIT_FONT_SIZE_FIELDS: u32 = 4;

/// Overrides the font name.
pub const BIT_FONT_NAME: u32 = 8;

/// Overrides the colors.
pub const BIT_COLORS: u32 = 16;

/// Overrides the bold/italic/underline/strikeout attributes.
pub const BIT_ATTRIBUTES: u32 = 32;

/// Overrides the border.
pub const BIT_BORDER: u32 = 64;

/// Overrides the alignment.
pub const BIT_ALIGNMENT: u32 = 128;

/// Overrides the margins.
pub const BIT_MARGINS: u32 = 256;

/// Overrides the full style, aggregate of the independent bits.
pub const FULL_STYLE: u32 = 512;

/// Overrides the justification.
pub const BIT_JUSTIFY: u32 = 1024;

/// A plain style description.  The two text fields must hold no embedded
/// zero byte to cross the boundary; the `u64` fields carry IEEE 754 bit
/// patterns that this crate never interprets.
#[derive(Debug, Clone)]
pub struct Style {
    pub name: Vec<u8>,
    pub font_name: Vec<u8>,
    pub font_size: u64,
    pub primary_color: u32,
    pub secondary_color: u32,
    pub outline_color: u32,
    pub back_color: u32,
    pub bold: bool,
    pub italic: bool,
    pub underline: bool,
    pub strikeout: bool,
    pub scale_x: u64,
    pub scale_y: u64,
    pub spacing: u64,
    pub angle: u64,
    pub border_style: i32,
    pub outline: u64,
    pub shadow: u64,
    pub alignment: i32,
    pub margin_l: i32,
    pub margin_r: i32,
    pub margin_v: i32,
    pub encoding: i32,
    pub treat_fontname_as_pattern: bool,
    pub blur: u64,
    pub justify: i32,
}

/// A plain mirror of the engine's fixed-layout style record: flags as
/// native truth values, text as the validated bytes the boundary layer
/// aliases.  Valid only for the duration of one native call.
#[derive(Debug, Clone)]
pub struct NativeStyle {
    pub name: Vec<u8>,
    pub font_name: Vec<u8>,
    pub font_size: u64,
    pub primary_color: u32,
    pub secondary_color: u32,
    pub outline_color: u32,
    pub back_color: u32,
    pub bold: i32,
    pub italic: i32,
    pub underline: i32,
    pub strikeout: i32,
    pub scale_x: u64,
    pub scale_y: u64,
    pub spacing: u64,
    pub angle: u64,
    pub border_style: i32,
    pub outline: u64,
    pub shadow: u64,
    pub alignment: i32,
    pub margin_l: i32,
    pub margin_r: i32,
    pub margin_v: i32,
    pub encoding: i32,
    pub treat_fontname_as_pattern: i32,
    pub blur: u64,
    pub justify: i32,
}

/// The native truth value of a flag.
pub open spec fn flag(b: bool) -> int {
    if b {
        1
    } else {
        0
    }
}

/// How a style encodes as a native record: numbers copied, flags as
/// native truth values, text carried over byte for byte.
pub open spec fn encodes(s: Style, n: NativeStyle) -> bool {
    &&& n.name@ == s.name@
    &&& n.font_name@ == s.font_name@
    &&& n.font_size == s.font_size
    &&& n.primary_color == s.primary_color
    &&& n.secondary_color == s.secondary_color
    &&& n.outline_color == s.outline_color
    &&& n.back_color == s.back_color
    &&& n.bold == flag(s.bold)
    &&& n.italic == flag(s.italic)
    &&& n.underline == flag(s.underline)
    &&& n.strikeout == flag(s.strikeout)
    &&& n.scale_x == s.scale_x
    &&& n.scale_y == s.scale_y
    &&& n.spacing == s.spacing
    &&& n.angle == s.angle
    &&& n.border_style == s.border_style
    &&& n.outline == s.outline
    &&& n.shadow == s.shadow
    &&& n.alignment == s.alignment
    &&& n.margin_l == s.margin_l
    &&& n.margin_r == s.margin_r
    &&& n.margin_v == s.margin_v
    &&& n.encoding == s.encoding
    &&& n.treat_fontname_as_pattern == flag(s.treat_fontname_as_pattern)
    &&& n.blur == s.blur
    &&& n.justify == s.justify
}

/// How a native record reads back as a style: numbers copied, any
/// non-zero native truth value read as set.
pub open spec fn decodes(n: NativeStyle, s: Style) -> bool {
    &&& s.name@ == n.name@
    &&& s.font_name@ == n.font_name@
    &&& s.font_size == n.font_size
    &&& s.primary_color == n.primary_color
    &&& s.secondary_color == n.secondary_color
    &&& s.outline_color == n.outline_color
    &&& s.back_color == n.back_color
    &&& s.bold == (n.bold != 0)
    &&& s.italic == (n.italic != 0)
    &&& s.underline == (n.underline != 0)
    &&& s.strikeout == (n.strikeout != 0)
    &&& s.scale_x == n.scale_x
    &&& s.scale_y == n.scale_y
    &&& s.spacing == n.spacing
    &&& s.angle == n.angle
    &&& s.border_style == n.border_style
    &&& s.outline == n.outline
    &&& s.shadow == n.shadow
    &&& s.alignment == n.alignment
    &&& s.margin_l == n.margin_l
    &&& s.margin_r == n.margin_r
    &&& s.margin_v == n.margin_v
    &&& s.encoding == n.encoding
    &&& s.treat_fontname_as_pattern == (n.treat_fontname_as_pattern != 0)
    &&& s.blur == n.blur
    &&& s.justify == n.justify
}

impl Style {
    /// A style whose text fields may cross the boundary.
    pub open spec fn wf(self) -> bool {
        nul_free(self.name@) && nul_free(self.font_name@)
    }

    /// Converts this style to the native record form.  `Ok` exactly when
    /// both text fields can cross as C strings; `Err` is the encoding
    /// failure of the boundary, reported before any native call.
    pub fn to_native(&self) -> (r: Result<NativeStyle, Error>)
        ensures
            r is Ok <==> self.wf(),
            r matches Ok(n) ==> encodes(*self, n),
    {
        check_text(self.name.as_slice())?;
        check_text(self.font_name.as_slice())?;
        Ok(
            NativeStyle {
                name: clone_bytes(&self.name),
                font_name: clone_bytes(&self.font_name),
                font_size: self.font_size,
                primary_color: self.primary_color,
                secondary_color: self.secondary_color,
                outline_color: self.outline_color,
                back_color: self.back_color,
                bold: if self.bold {
                    1
                } else {
                    0
                },
                italic: if self.italic {
                    1
                } else {
                    0
                },
                underline: if self.underline {
                    1
                } else {
                    0
                },
                strikeout: if self.strikeout {
                    1
                } else {
                    0
                },
                scale_x: self.scale_x,
                scale_y: self.scale_y,
                spacing: self.spacing,
                angle: self.angle,
                border_style: self.border_style,
                outline: self.outline,
                shadow: self.shadow,
                alignment: self.alignment,
                margin_l: self.margin_l,
                margin_r: self.margin_r,
                margin_v: self.margin_v,
                encoding: self.encoding,
                treat_fontname_as_pattern: if self.treat_fontname_as_pattern {
                    1
                } else {
                    0
                },
                blur: self.blur,
                justify: self.justify,
            },
        )
    }

    /// Reads a native record back as a style.
    pub fn from_native(n: &NativeStyle) -> (r: Style)
        ensures
            decodes(*n, r),
    {
        Style {
            name: clone_bytes(&n.name),
            font_name: clone_bytes(&n.font_name),
            font_size: n.font_size,
            primary_color: n.primary_color,
            secondary_color: n.secondary_color,
            outline_color: n.outline_color,
            back_color: n.back_color,
            bold: n.bold != 0,
            italic: n.italic != 0,
            underline: n.underline != 0,
            strikeout: n.strikeout != 0,
            scale_x: n.scale_x,
            scale_y: n.scale_y,
            spacing: n.spacing,
            angle: n.angle,
            border_style: n.border_style,
            outline: n.outline,
            shadow: n.shadow,
            alignment: n.alignment,
            margin_l: n.margin_l,
            margin_r: n.margin_r,
            margin_v: n.margin_v,
            encoding: n.encoding,
            treat_fontname_as_pattern: n.treat_fontname_as_pattern != 0,
            blur: n.blur,
            justify: n.justify,
        }
    }
}

/// A byte-for-byte copy of a buffer.
fn clone_bytes(v: &Vec<u8>) -> (r: Vec<u8>)
    ensures
        r@ == v@,
{
    let n: usize = v.len();
    let mut out: Vec<u8> = Vec::new();
    let mut i: usize = 0;
    while i < n
        invariant
            n == v@.len(),
            i <= n,
            out@ == v@.subrange(0, i as int),
        decreases n - i,
    {
        out.push(v[i]);
        proof {
            assert(out@ =~= v@.subrange(0, i + 1));
        }
        i = i + 1;
    }
    proof {
        assert(out@ =~= v@);
    }
    out
}

/// A style converted to the native record and read straight back is
/// unchanged: every numeric field, every flag and both text fields come
/// back equal.
pub proof fn lemma_style_round_trip(s: Style, n: NativeStyle, s2: Style)
    requires
        encodes(s, n),
        decodes(n, s2),
    ensures
        s2.name@ == s.name@,
        s2.font_name@ == s.font_name@,
        s2.font_size == s.font_size,
        s2.primary_color == s.primary_color,
        s2.secondary_color == s.secondary_color,
        s2.outline_color == s.outline_color,
        s2.back_color == s.back_color,
        s2.bold == s.bold,
        s2.italic == s.italic,
        s2.underline == s.underline,
        s2.strikeout == s.strikeout,
        s2.scale_x == s.scale_x,
        s2.scale_y == s.scale_y,
        s2.spacing == s.spacing,
        s2.angle == s.angle,
        s2.border_style == s.border_style,
        s2.outline == s.outline,
        s2.shadow == s.shadow,
        s2.alignment == s.alignment,
        s2.margin_l == s.margin_l,
        s2.margin_r == s.margin_r,
        s2.margin_v == s.margin_v,
        s2.encoding == s.encoding,
        s2.treat_fontname_as_pattern == s.treat_fontname_as_pattern,
        s2.blur == s.blur,
        s2.justify == s.justify,
{
}

} // verus!
