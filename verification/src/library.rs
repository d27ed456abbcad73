//! The engine-wide library context: enum mapping and argument checking.
//!
//! One native library handle is the root of the resource hierarchy.  The
//! calls that create and configure it are unsafe and live outside this
//! crate; what lives here is every decision those calls depend on: the
//! two-way mapping of the font-provider enum, the decoding of the
//! provider list the engine returns, and the validation of every string
//! or buffer argument before it crosses the boundary.

use vstd::prelude::*;
use crate::Error;
use crate::text::check_text;
use crate::text::native_len;
use crate::text::nul_free;

verus! {

/// A font backend the engine may resolve fonts through.
#[derive(Debug, Clone, Eq, PartialEq, Structural)]
pub enum DefaultFontProvider {
    NoProvider,
    Autodetect,
    CoreText,
    Fontconfig,
    DirectWrite,
}

impl DefaultFontProvider {
    /// The tag the native engine uses for this provider.
    pub open spec fn tag(self) -> int {
        match self {
            DefaultFontProvider::NoProvider => 0,
            DefaultFontProvider::Autodetect => 1,
            DefaultFontProvider::CoreText => 2,
            DefaultFontProvider::Fontconfig => 3,
            DefaultFontProvider::DirectWrite => 4,
        }
    }

    /// Encodes this provider as the native tag.
    pub fn to_native(&self) -> (t: i32)
        ensures
            t == self.tag(),
    {
        match self {
            DefaultFontProvider::NoProvider => 0,
            DefaultFontProvider::Autodetect => 1,
            DefaultFontProvider::CoreText => 2,
            DefaultFontProvider::Fontconfig => 3,
            DefaultFontProvider::DirectWrite => 4,
        }
    }

    /// Decodes a native tag.  `None` marks a tag outside the known set: an
    /// internal-invariant violation (an engine of another version), not a
    /// user error.
    pub fn from_native(t: i32) -> (r: Option<DefaultFontProvider>)
        ensures
            r is Some <==> 0 <= t <= 4,
            r matches Some(p) ==> p.tag() == t,
    {
        if t == 0 {
            Some(DefaultFontProvider::NoProvider)
        } else if t == 1 {
            Some(DefaultFontProvider::Autodetect)
        } else if t == 2 {
            Some(DefaultFontProvider::CoreText)
        } else if t == 3 {
            Some(DefaultFontProvider::Fontconfig)
        } else if t == 4 {
            Some(DefaultFontProvider::DirectWrite)
        } else {
            None
        }
    }
}

/// Decodes the provider list the engine hands back from its query for
/// available font backends, once the borrowed native buffer has been
/// copied into `tags`.  `None` marks a tag outside the known set: an
/// internal-invariant violation, not a user error.
pub fn decode_providers(tags: &Vec<i32>) -> (r: Option<Vec<DefaultFontProvider>>)
    ensures
        r is Some <==> (forall|i: int| 0 <= i < tags@.len() ==> 0 <= #[trigger] tags@[i] <= 4),
        r matches Some(ps) ==> {
            &&& ps@.len() == tags@.len()
            &&& forall|i: int| 0 <= i < tags@.len() ==> #[trigger] ps@[i].tag() == tags@[i]
        },
{
    let n: usize = tags.len();
    let mut out: Vec<DefaultFontProvider> = Vec::new();
    let mut i: usize = 0;
    while i < n
        invariant
            n == tags@.len(),
            i <= n,
            out@.len() == i,
            forall|j: int| 0 <= j < i ==> 0 <= #[trigger] tags@[j] <= 4,
            forall|j: int| 0 <= j < i ==> #[trigger] out@[j].tag() == tags@[j],
        decreases n - i,
    {
        match DefaultFontProvider::from_native(tags[i]) {
            Some(p) => {
                out.push(p);
            },
            None => {
                return None;
            },
        }
        i = i + 1;
    }
    Some(out)
}

/// Checks the arguments of an embedded-font registration: the name must
/// cross as a C string, the data length as a native `int`.  `Ok` carries
/// the length as the native call takes it.
pub fn check_font_registration(name: &[u8], data: &[u8]) -> (r: Result<i32, Error>)
    ensures
        r is Ok <==> nul_free(name@) && data@.len() <= i32::MAX,
        r matches Ok(n) ==> n == data@.len(),
{
    check_text(name)?;
    native_len(data.len())
}

/// Checks the arguments of parsing a track from a file: path and codepage
/// must both cross as C strings.
pub fn check_track_source_path(path: &[u8], codepage: &[u8]) -> (r: Result<(), Error>)
    ensures
        r is Ok <==> nul_free(path@) && nul_free(codepage@),
{
    check_text(path)?;
    check_text(codepage)
}

/// Checks the arguments of parsing a track from memory: the codepage must
/// cross as a C string, the data length as a native `int` is not required
/// (the memory call takes the length as `size_t`).
pub fn check_track_source_memory(codepage: &[u8]) -> (r: Result<(), Error>)
    ensures
        r is Ok <==> nul_free(codepage@),
{
    check_text(codepage)
}

/// Checks a list of style-override patterns: every entry must cross as a
/// C string.
pub fn check_override_patterns(patterns: &Vec<Vec<u8>>) -> (r: Result<(), Error>)
    ensures
        r is Ok <==> (forall|i: int| 0 <= i < patterns@.len() ==> nul_free(#[trigger] patterns@[i]@)),
{
    let n: usize = patterns.len();
    let mut i: usize = 0;
    while i < n
        invariant
            n == patterns@.len(),
            i <= n,
            forall|j: int| 0 <= j < i ==> nul_free(#[trigger] patterns@[j]@),
        decreases n - i,
    {
        check_text(patterns[i].as_slice())?;
        i = i + 1;
    }
    Ok(())
}

/// The native truth value of a flag argument.
pub fn native_bool(b: bool) -> (t: i32)
    ensures
        t == if b {
            1int
        } else {
            0int
        },
{
    if b {
        1
    } else {
        0
    }
}

/// The outcome of a native creation call that reports failure by
/// returning null: `Ok` exactly when the handle is non-null, `Err` the
/// uniform allocation failure.  A failed creation leaves nothing to tear
/// down: nothing was allocated.
pub fn check_allocation(handle_is_null: bool) -> (r: Result<(), Error>)
    ensures
        r is Ok <==> !handle_is_null,
{
    if handle_is_null {
        Err(Error)
    } else {
        Ok(())
    }
}

} // verus!
