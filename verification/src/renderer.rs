//! The rendering pipeline's configuration and boundary decisions.
//!
//! A renderer is a native pipeline instance bound to a library context.
//! Its configuration setters may be called in any order, any number of
//! times; each stores one setting, and a setting takes effect starting
//! with the next render call only.  `RendererConfig` is that
//! configuration state as plain values, with one setter per native
//! setter; the unsafe calls that forward each setting to the engine live
//! outside this crate.  The order-independence of the setters is proved
//! here over the one-step model `apply`.

use vstd::prelude::*;
use crate::Error;
use crate::library::DefaultFontProvider;
use crate::style::OverrideBits;
use crate::style::Style;
use crate::text::nul_free;
use crate::text::check_text;

verus! {

/// The text-shaping level of the renderer.
#[derive(Debug, Clone, Eq, PartialEq, Structural)]
pub enum ShapingLevel {
    Simple,
    Complex,
}

impl ShapingLevel {
    /// The tag the native engine uses for this level.
    pub open spec fn tag(self) -> int {
        match self {
            ShapingLevel::Simple => 0,
            ShapingLevel::Complex => 1,
        }
    }

    /// Encodes this level as the native tag.
    pub fn to_native(&self) -> (t: i32)
        ensures
            t == self.tag(),
    {
        match self {
            ShapingLevel::Simple => 0,
            ShapingLevel::Complex => 1,
        }
    }

    /// Decodes a native tag; `None` marks a tag outside the known set.
    pub fn from_native(t: i32) -> (r: Option<ShapingLevel>)
        ensures
            r is Some <==> 0 <= t <= 1,
            r matches Some(l) ==> l.tag() == t,
    {
        if t == 0 {
            Some(ShapingLevel::Simple)
        } else if t == 1 {
            Some(ShapingLevel::Complex)
        } else {
            None
        }
    }
}

/// The font-hinting mode of the renderer.
#[derive(Debug, Clone, Eq, PartialEq, Structural)]
pub enum Hinting {
    NoHinting,
    Light,
    Normal,
    Native,
}

impl Hinting {
    /// The tag the native engine uses for this mode.
    pub open spec fn tag(self) -> int {
        match self {
            Hinting::NoHinting => 0,
            Hinting::Light => 1,
            Hinting::Normal => 2,
            Hinting::Native => 3,
        }
    }

    /// Encodes this mode as the native tag.
    pub fn to_native(&self) -> (t: i32)
        ensures
            t == self.tag(),
    {
        match self {
            Hinting::NoHinting => 0,
            Hinting::Light => 1,
            Hinting::Normal => 2,
            Hinting::Native => 3,
        }
    }

    /// Decodes a native tag; `None` marks a tag outside the known set.
    pub fn from_native(t: i32) -> (r: Option<Hinting>)
        ensures
            r is Some <==> 0 <= t <= 3,
            r matches Some(h) ==> h.tag() == t,
    {
        if t == 0 {
            Some(Hinting::NoHinting)
        } else if t == 1 {
            Some(Hinting::Light)
        } else if t == 2 {
            Some(Hinting::Normal)
        } else if t == 3 {
            Some(Hinting::Native)
        } else {
            None
        }
    }
}

/// How much a newly rendered frame differs from the previous one:
/// unchanged, repositioned only, or recomposited content.
#[derive(Debug, Clone, Eq, PartialEq, Structural)]
pub enum Change {
    Unchanged,
    Position,
    Content,
}

impl Change {
    /// The value the native render call stores in its detection
    /// out-parameter for this classification.
    pub open spec fn tag(self) -> int {
        match self {
            Change::Unchanged => 0,
            Change::Position => 1,
            Change::Content => 2,
        }
    }

    /// Decodes the native detection value.  `None` marks a value outside
    /// the known set: an internal-invariant violation, not a user error.
    pub fn from_native(t: i32) -> (r: Option<Change>)
        ensures
            r is Some <==> 0 <= t <= 2,
            r matches Some(c) ==> c.tag() == t,
    {
        if t == 0 {
            Some(Change::Unchanged)
        } else if t == 1 {
            Some(Change::Position)
        } else if t == 2 {
            Some(Change::Content)
        } else {
            None
        }
    }
}

/// The font sources a renderer resolves text through: optional default
/// font and family, a provider, an optional fontconfig path, and whether
/// to update the fontconfig cache.  Each text field present must cross
/// the boundary as a C string.
#[derive(Debug, Clone)]
pub struct FontSelection {
    pub font: Option<Vec<u8>>,
    pub family: Option<Vec<u8>>,
    pub provider: DefaultFontProvider,
    pub fontconfig_path: Option<Vec<u8>>,
    pub update_cache: bool,
}

impl FontSelection {
    /// Every present text field may cross as a C string.
    pub open spec fn wf(self) -> bool {
        &&& self.font matches Some(f) ==> nul_free(f@)
        &&& self.family matches Some(f) ==> nul_free(f@)
        &&& self.fontconfig_path matches Some(p) ==> nul_free(p@)
    }

    /// Checks the selection before the boundary: `Ok` exactly when every
    /// present text field holds no embedded zero byte.
    pub fn check(&self) -> (r: Result<(), Error>)
        ensures
            r is Ok <==> self.wf(),
    {
        match &self.font {
            Some(f) => check_text(f.as_slice())?,
            None => (),
        }
        match &self.family {
            Some(f) => check_text(f.as_slice())?,
            None => (),
        }
        match &self.fontconfig_path {
            Some(p) => check_text(p.as_slice())?,
            None => (),
        }
        Ok(())
    }
}

/// The stored configuration of a renderer, one field per native setting.
/// The `u64` fields carry IEEE 754 bit patterns that this crate never
/// interprets.
#[derive(Debug, Clone)]
#[verifier::ext_equal]
pub struct RendererConfig {
    pub frame_width: i32,
    pub frame_height: i32,
    pub storage_width: i32,
    pub storage_height: i32,
    pub margin_top: i32,
    pub margin_bottom: i32,
    pub margin_left: i32,
    pub margin_right: i32,
    pub use_margins: bool,
    pub shaping: ShapingLevel,
    pub hinting: Hinting,
    pub font_scale: u64,
    pub pixel_aspect: u64,
    pub aspect_dar: u64,
    pub aspect_sar: u64,
    pub line_spacing: u64,
    pub line_position: u64,
    pub glyph_cache_max: i32,
    pub bitmap_cache_max: i32,
    pub override_style: Option<Style>,
    pub override_enabled: OverrideBits,
    pub fonts: Option<FontSelection>,
}

/// One configuration setting, as an event: what one setter call stores.
#[derive(Debug, Clone)]
pub enum ConfigEvent {
    FrameSize(i32, i32),
    StorageSize(i32, i32),
    Margins(i32, i32, i32, i32),
    UseMargins(bool),
    Shaper(ShapingLevel),
    FontHinting(Hinting),
    FontScale(u64),
    PixelAspect(u64),
    AspectRatio(u64, u64),
    LineSpacing(u64),
    LinePosition(u64),
    CacheLimits(i32, i32),
    OverrideStyle(Style),
    OverrideEnabled(OverrideBits),
    Fonts(FontSelection),
}

/// The setting a configuration event writes, as a small index; two
/// events with different indices touch disjoint fields.
pub open spec fn setting_of(e: ConfigEvent) -> int {
    match e {
        ConfigEvent::FrameSize(..) => 0,
        ConfigEvent::StorageSize(..) => 1,
        ConfigEvent::Margins(..) => 2,
        ConfigEvent::UseMargins(..) => 3,
        ConfigEvent::Shaper(..) => 4,
        ConfigEvent::FontHinting(..) => 5,
        ConfigEvent::FontScale(..) => 6,
        ConfigEvent::PixelAspect(..) => 7,
        ConfigEvent::AspectRatio(..) => 8,
        ConfigEvent::LineSpacing(..) => 9,
        ConfigEvent::LinePosition(..) => 10,
        ConfigEvent::CacheLimits(..) => 11,
        ConfigEvent::OverrideStyle(..) => 12,
        ConfigEvent::OverrideEnabled(..) => 13,
        ConfigEvent::Fonts(..) => 14,
    }
}

/// What one setter call does to the stored configuration: it overwrites
/// the one setting the event carries and leaves every other unchanged.
pub open spec fn apply(c: RendererConfig, e: ConfigEvent) -> RendererConfig {
    match e {
        ConfigEvent::FrameSize(w, h) => RendererConfig { frame_width: w, frame_height: h, ..c },
        ConfigEvent::StorageSize(w, h) => RendererConfig {
            storage_width: w,
            storage_height: h,
            ..c
        },
        ConfigEvent::Margins(t, b, l, r) => RendererConfig {
            margin_top: t,
            margin_bottom: b,
            margin_left: l,
            margin_right: r,
            ..c
        },
        ConfigEvent::UseMargins(u) => RendererConfig { use_margins: u, ..c },
        ConfigEvent::Shaper(s) => RendererConfig { shaping: s, ..c },
        ConfigEvent::FontHinting(h) => RendererConfig { hinting: h, ..c },
        ConfigEvent::FontScale(v) => RendererConfig { font_scale: v, ..c },
        ConfigEvent::PixelAspect(v) => RendererConfig { pixel_aspect: v, ..c },
        ConfigEvent::AspectRatio(d, s) => RendererConfig { aspect_dar: d, aspect_sar: s, ..c },
        ConfigEvent::LineSpacing(v) => RendererConfig { line_spacing: v, ..c },
        ConfigEvent::LinePosition(v) => RendererConfig { line_position: v, ..c },
        ConfigEvent::CacheLimits(g, b) => RendererConfig {
            glyph_cache_max: g,
            bitmap_cache_max: b,
            ..c
        },
        ConfigEvent::OverrideStyle(s) => RendererConfig { override_style: Some(s), ..c },
        ConfigEvent::OverrideEnabled(m) => RendererConfig { override_enabled: m, ..c },
        ConfigEvent::Fonts(f) => RendererConfig { fonts: Some(f), ..c },
    }
}

/// A whole sequence of setter calls, applied in order.
pub open spec fn apply_all(c: RendererConfig, es: Seq<ConfigEvent>) -> RendererConfig
    decreases es.len(),
{
    if es.len() == 0 {
        c
    } else {
        apply(apply_all(c, es.drop_last()), es.last())
    }
}

impl RendererConfig {
    /// The configuration before any setter has run, matching the
    /// engine's own initial state: everything zero or off, complex
    /// shaping, no hinting, no override, no font selection.
    pub open spec fn initial() -> RendererConfig {
        RendererConfig {
            frame_width: 0,
            frame_height: 0,
            storage_width: 0,
            storage_height: 0,
            margin_top: 0,
            margin_bottom: 0,
            margin_left: 0,
            margin_right: 0,
            use_margins: false,
            shaping: ShapingLevel::Complex,
            hinting: Hinting::NoHinting,
            font_scale: 0,
            pixel_aspect: 0,
            aspect_dar: 0,
            aspect_sar: 0,
            line_spacing: 0,
            line_position: 0,
            glyph_cache_max: 0,
            bitmap_cache_max: 0,
            override_style: None,
            override_enabled: OverrideBits { bits: 0 },
            fonts: None,
        }
    }

    /// A fresh, unconfigured renderer configuration.
    pub fn new() -> (c: RendererConfig)
        ensures
            c == RendererConfig::initial(),
    {
        RendererConfig {
            frame_width: 0,
            frame_height: 0,
            storage_width: 0,
            storage_height: 0,
            margin_top: 0,
            margin_bottom: 0,
            margin_left: 0,
            margin_right: 0,
            use_margins: false,
            shaping: ShapingLevel::Complex,
            hinting: Hinting::NoHinting,
            font_scale: 0,
            pixel_aspect: 0,
            aspect_dar: 0,
            aspect_sar: 0,
            line_spacing: 0,
            line_position: 0,
            glyph_cache_max: 0,
            bitmap_cache_max: 0,
            override_style: None,
            override_enabled: OverrideBits { bits: 0 },
            fonts: None,
        }
    }

    /// Stores the frame size of the output.
    pub fn set_frame_size(&mut self, width: i32, height: i32)
        ensures
            *final(self) == apply(*old(self), ConfigEvent::FrameSize(width, height)),
    {
        self.frame_width = width;
        self.frame_height = height;
    }

    /// Stores the storage size the subtitles were designed for.
    pub fn set_storage_size(&mut self, width: i32, height: i32)
        ensures
            *final(self) == apply(*old(self), ConfigEvent::StorageSize(width, height)),
    {
        self.storage_width = width;
        self.storage_height = height;
    }

    /// Stores the frame margins.
    pub fn set_margins(&mut self, top: i32, bottom: i32, left: i32, right: i32)
        ensures
            *final(self) == apply(*old(self), ConfigEvent::Margins(top, bottom, left, right)),
    {
        self.margin_top = top;
        self.margin_bottom = bottom;
        self.margin_left = left;
        self.margin_right = right;
    }

    /// Stores whether rendering may use the margins.
    pub fn use_margins(&mut self, use_: bool)
        ensures
            *final(self) == apply(*old(self), ConfigEvent::UseMargins(use_)),
    {
        self.use_margins = use_;
    }

    /// Stores the shaping level.
    pub fn set_shaper(&mut self, level: ShapingLevel)
        ensures
            *final(self) == apply(*old(self), ConfigEvent::Shaper(level)),
    {
        self.shaping = level;
    }

    /// Stores the hinting mode.
    pub fn set_hinting(&mut self, font_hinting: Hinting)
        ensures
            *final(self) == apply(*old(self), ConfigEvent::FontHinting(font_hinting)),
    {
        self.hinting = font_hinting;
    }

    /// Stores the font scale, as its IEEE 754 bit pattern.
    pub fn set_font_scale(&mut self, font_scale: u64)
        ensures
            *final(self) == apply(*old(self), ConfigEvent::FontScale(font_scale)),
    {
        self.font_scale = font_scale;
    }

    /// Stores the pixel aspect ratio, as its IEEE 754 bit pattern.
    pub fn set_pixel_aspect_ratio(&mut self, par: u64)
        ensures
            *final(self) == apply(*old(self), ConfigEvent::PixelAspect(par)),
    {
        self.pixel_aspect = par;
    }

    /// Stores the display and storage aspect ratios, as IEEE 754 bit
    /// patterns.
    pub fn set_aspect_ratio(&mut self, dar: u64, sar: u64)
        ensures
            *final(self) == apply(*old(self), ConfigEvent::AspectRatio(dar, sar)),
    {
        self.aspect_dar = dar;
        self.aspect_sar = sar;
    }

    /// Stores the line spacing, as its IEEE 754 bit pattern.
    pub fn set_line_spacing(&mut self, line_spacing: u64)
        ensures
            *final(self) == apply(*old(self), ConfigEvent::LineSpacing(line_spacing)),
    {
        self.line_spacing = line_spacing;
    }

    /// Stores the line position, as its IEEE 754 bit pattern.
    pub fn set_line_position(&mut self, line_position: u64)
        ensures
            *final(self) == apply(*old(self), ConfigEvent::LinePosition(line_position)),
    {
        self.line_position = line_position;
    }

    /// Stores the cache limits.
    pub fn set_cache_limits(&mut self, glyph_max: i32, bitmap_max_size: i32)
        ensures
            *final(self) == apply(*old(self), ConfigEvent::CacheLimits(glyph_max, bitmap_max_size)),
    {
        self.glyph_cache_max = glyph_max;
        self.bitmap_cache_max = bitmap_max_size;
    }

    /// Stores the selective override style.
    pub fn set_selective_style_override(&mut self, style: Style)
        ensures
            *final(self) == apply(*old(self), ConfigEvent::OverrideStyle(style)),
    {
        self.override_style = Some(style);
    }

    /// Stores the mask of attributes the selective override replaces.
    pub fn set_selective_style_override_enabled(&mut self, bits: OverrideBits)
        ensures
            *final(self) == apply(*old(self), ConfigEvent::OverrideEnabled(bits)),
    {
        self.override_enabled = bits;
    }

    /// Stores the font selection.
    pub fn set_fonts(&mut self, fonts: FontSelection)
        ensures
            *final(self) == apply(*old(self), ConfigEvent::Fonts(fonts)),
    {
        self.fonts = Some(fonts);
    }
}

/// Setters that store different settings commute: a configuration built
/// by calls before the first render does not depend on their order,
/// only on the last value stored for each setting.
#[verifier::rlimit(100)]
pub proof fn lemma_setters_commute(c: RendererConfig, e1: ConfigEvent, e2: ConfigEvent)
    requires
        setting_of(e1) != setting_of(e2),
    ensures
        apply(apply(c, e1), e2) == apply(apply(c, e2), e1),
{
    assert(apply(apply(c, e1), e2) =~= apply(apply(c, e2), e1));
}

/// Repeating a setter for the same setting leaves only the last call
/// visible: the earlier value is overwritten entirely.
pub proof fn lemma_last_write_wins(c: RendererConfig, e1: ConfigEvent, e2: ConfigEvent)
    requires
        setting_of(e1) == setting_of(e2),
    ensures
        apply(apply(c, e1), e2) == apply(c, e2),
{
    assert(apply(apply(c, e1), e2) =~= apply(c, e2));
}

/// Applying a sequence of setter calls part by part is applying the
/// whole sequence.
pub proof fn lemma_apply_all_append(c: RendererConfig, s1: Seq<ConfigEvent>, s2: Seq<ConfigEvent>)
    ensures
        apply_all(c, s1 + s2) == apply_all(apply_all(c, s1), s2),
    decreases s2.len(),
{
    if s2.len() == 0 {
        assert(s1 + s2 =~= s1);
    } else {
        assert((s1 + s2).drop_last() =~= s1 + s2.drop_last());
        assert((s1 + s2).last() == s2.last());
        lemma_apply_all_append(c, s1, s2.drop_last());
    }
}

/// Configuration order independence, over whole call sequences: swapping
/// two adjacent setter calls that store different settings, anywhere in
/// a sequence, leaves the resulting configuration unchanged.  Since any
/// permutation is a chain of such swaps, a configuration built by calls
/// before the first render depends only on the last value stored for
/// each setting, exactly as if those values had been set once at
/// construction time.
pub proof fn lemma_config_order_independence(
    c: RendererConfig,
    p: Seq<ConfigEvent>,
    e1: ConfigEvent,
    e2: ConfigEvent,
    q: Seq<ConfigEvent>,
)
    requires
        setting_of(e1) != setting_of(e2),
    ensures
        apply_all(c, p + seq![e1, e2] + q) == apply_all(c, p + seq![e2, e1] + q),
{
    let c1 = apply_all(c, p);
    lemma_apply_all_append(c, p, seq![e1, e2]);
    lemma_apply_all_append(c, p, seq![e2, e1]);
    lemma_apply_pair(c1, e1, e2);
    lemma_apply_pair(c1, e2, e1);
    lemma_setters_commute(c1, e1, e2);
    lemma_apply_all_append(c, p + seq![e1, e2], q);
    lemma_apply_all_append(c, p + seq![e2, e1], q);
}

/// Two setter calls in a row are the two one-step applications in
/// order.
proof fn lemma_apply_pair(c: RendererConfig, e1: ConfigEvent, e2: ConfigEvent)
    ensures
        apply_all(c, seq![e1, e2]) == apply(apply(c, e1), e2),
{
    let s12 = seq![e1, e2];
    assert(s12.last() == e2);
    assert(apply_all(c, s12) == apply(apply_all(c, s12.drop_last()), e2));
    assert(s12.drop_last() =~= seq![e1]);
    let s1 = seq![e1];
    assert(s1.last() == e1);
    assert(apply_all(c, s1) == apply(apply_all(c, s1.drop_last()), e1));
    assert(s1.drop_last() =~= Seq::<ConfigEvent>::empty());
    assert(apply_all(c, Seq::<ConfigEvent>::empty()) == c);
}

/// The status of a font-cache refresh: the native call returns an
/// integer status, zero for success, surfaced as-is on failure for
/// diagnostics.
pub fn font_update_status(ret: i32) -> (r: Result<(), i32>)
    ensures
        r is Ok <==> ret == 0,
        r matches Err(e) ==> e == ret,
{
    if ret == 0 {
        Ok(())
    } else {
        Err(ret)
    }
}

/// The outcome of one render call, decoded from the plain values the
/// native call left behind: whether the image list is non-null and what
/// the detection out-parameter holds.  `None` marks a detection value
/// outside the known set: an internal-invariant violation.  When the
/// image list is null, nothing is visible at the queried time and there
/// is no layer to walk.
pub fn classify_frame(image_is_null: bool, detect: i32) -> (r: Option<(bool, Change)>)
    ensures
        r is Some <==> 0 <= detect <= 2,
        r matches Some(p) ==> p.1.tag() == detect && p.0 == !image_is_null,
{
    match Change::from_native(detect) {
        Some(c) => Some((!image_is_null, c)),
        None => None,
    }
}

} // verus!
