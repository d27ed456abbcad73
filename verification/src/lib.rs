//! Safe, verified core of a wrapper around a native subtitle-rendering
//! engine.
//!
//! The native engine itself is an opaque C library; the calls into it are
//! unsafe and live outside this crate.  What lives here, fully verified, is
//! everything the wrapper decides or computes on plain values: the two-way
//! mapping of every enum and bit mask that crosses the boundary, the
//! validation of text and lengths before they cross it, the packing of
//! stride-padded bitmaps into owned storage, the per-pixel compositing
//! blend, a model of the renderer's configuration state, and a model of the
//! handle-ownership discipline (create once, free once, parents outlive
//! children, one image sequence at a time).

use vstd::prelude::*;

mod composite;
mod image;
mod library;
mod lifecycle;
mod renderer;
mod style;
mod text;

pub use crate::composite::blend_channel;
pub use crate::composite::composite_layer;
pub use crate::composite::decode_color;
pub use crate::image::ImageKind;
pub use crate::image::Layer;
pub use crate::image::pack_bitmap;
pub use crate::library::DefaultFontProvider;
pub use crate::library::check_allocation;
pub use crate::library::check_font_registration;
pub use crate::library::check_override_patterns;
pub use crate::library::check_track_source_memory;
pub use crate::library::check_track_source_path;
pub use crate::library::decode_providers;
pub use crate::library::native_bool;
pub use crate::lifecycle::HandleTable;
pub use crate::lifecycle::lemma_context_outlives_renderer;
pub use crate::lifecycle::lemma_context_outlives_track;
pub use crate::lifecycle::lemma_no_double_destroy_context;
pub use crate::lifecycle::lemma_no_double_destroy_renderer;
pub use crate::lifecycle::lemma_no_double_destroy_track;
pub use crate::lifecycle::lemma_one_image_sequence_at_a_time;
pub use crate::renderer::Change;
pub use crate::renderer::ConfigEvent;
pub use crate::renderer::FontSelection;
pub use crate::renderer::Hinting;
pub use crate::renderer::RendererConfig;
pub use crate::renderer::ShapingLevel;
pub use crate::renderer::classify_frame;
pub use crate::renderer::font_update_status;
pub use crate::renderer::lemma_apply_all_append;
pub use crate::renderer::lemma_config_order_independence;
pub use crate::renderer::lemma_last_write_wins;
pub use crate::renderer::lemma_setters_commute;
pub use crate::style::BIT_ALIGNMENT;
pub use crate::style::BIT_ATTRIBUTES;
pub use crate::style::BIT_BORDER;
pub use crate::style::BIT_COLORS;
pub use crate::style::BIT_FONT_NAME;
pub use crate::style::BIT_FONT_SIZE;
pub use crate::style::BIT_FONT_SIZE_FIELDS;
pub use crate::style::BIT_JUSTIFY;
pub use crate::style::BIT_MARGINS;
pub use crate::style::BIT_SELECTIVE_FONT_SCALE;
pub use crate::style::BIT_STYLE;
pub use crate::style::FULL_STYLE;
pub use crate::style::NativeStyle;
pub use crate::style::OverrideBits;
pub use crate::style::Style;
pub use crate::style::lemma_style_round_trip;
pub use crate::text::check_nul_free;
pub use crate::text::check_text;
pub use crate::text::native_len;

verus! {

/// The uniform error value of the wrapper.
///
/// The native engine reports allocation failure only by returning null, with
/// no finer diagnostic, so one error value covers every such failure; the
/// same value reports a caller-supplied string that the boundary format
/// forbids (an embedded terminator byte), rejected before any native call.
#[derive(Debug, Clone, Copy, PartialEq, Eq, Structural)]
pub struct Error;

impl Error {
    /// A short description of the error, for diagnostics.
    pub fn message(&self) -> (m: &'static str)
        ensures
            m@ == "libass error"@,
    {
        "libass error"
    }
}

} // verus!
