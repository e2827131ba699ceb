//! Surface configuration: negotiating a configuration from the surface's
//! reported capabilities and the window's size, and applying resize events.

use vstd::prelude::*;

verus! {

/// A drawable-surface pixel format as the surface reports it: an opaque
/// format code together with whether the format is an sRGB variant.
#[derive(Clone, Copy, PartialEq, Eq, Structural, Debug)]
pub struct TextureFormat {
    pub code: u32,
    pub srgb: bool,
}

/// What the surface reports it supports: candidate formats, present modes and
/// alpha modes, the latter two as opaque codes.
pub struct SurfaceCaps {
    pub formats: Vec<TextureFormat>,
    pub present_modes: Vec<u32>,
    pub alpha_modes: Vec<u32>,
}

impl SurfaceCaps {
    /// A usable surface reports at least one entry in each capability list.
    pub open spec fn well_formed(self) -> bool {
        self.formats@.len() > 0 && self.present_modes@.len() > 0 && self.alpha_modes@.len() > 0
    }
}

/// The first sRGB format in the list, if any.
pub open spec fn first_srgb(formats: Seq<TextureFormat>) -> Option<TextureFormat>
    decreases formats.len(),
{
    if formats.len() == 0 {
        None
    } else if formats[0].srgb {
        Some(formats[0])
    } else {
        first_srgb(formats.drop_first())
    }
}

/// The format a configuration uses: the first sRGB format the surface offers,
/// else the first format offered at all.
pub open spec fn preferred_format(formats: Seq<TextureFormat>) -> TextureFormat
    recommends
        formats.len() > 0,
{
    match first_srgb(formats) {
        Some(f) => f,
        None => formats[0],
    }
}

/// Scanning a prefix without an sRGB hit leaves the search in the rest.
proof fn lemma_first_srgb_skip(formats: Seq<TextureFormat>, i: int)
    requires
        0 <= i <= formats.len(),
        first_srgb(formats.take(i)) is None,
    ensures
        first_srgb(formats) == first_srgb(formats.skip(i)),
    decreases i,
{
    if i == 0 {
        assert(formats.skip(0) =~= formats);
    } else {
        assert(formats.take(i)[0] == formats[0]);
        assert(formats.take(i).drop_first() =~= formats.drop_first().take(i - 1));
        lemma_first_srgb_skip(formats.drop_first(), i - 1);
        assert(formats.drop_first().skip(i - 1) =~= formats.skip(i));
    }
}

/// Selects `preferred_format` from the reported format list.
pub fn choose_format(formats: &Vec<TextureFormat>) -> (r: TextureFormat)
    requires
        formats@.len() > 0,
    ensures
        r == preferred_format(formats@),
{
    let mut i: usize = 0;
    while i < formats.len()
        invariant
            0 <= i <= formats@.len(),
            first_srgb(formats@.take(i as int)) is None,
        decreases formats@.len() - i,
    {
        proof {
            if formats@[i as int].srgb {
                lemma_first_srgb_skip(formats@, i as int);
                assert(formats@.skip(i as int)[0] == formats@[i as int]);
            } else {
                assert(formats@.take(i + 1)[0] == formats@[0]);
                if i > 0 {
                    lemma_take_drop_first_none(formats@, i as int);
                } else {
                    assert(formats@.take(1).drop_first() =~= Seq::<TextureFormat>::empty());
                    assert(first_srgb(Seq::<TextureFormat>::empty()) is None);
                    assert(formats@.take(1)[0] == formats@[0]);
                }
                assert(first_srgb(formats@.take(i + 1)) is None);
            }
        }
        if formats[i].srgb {
            return formats[i];
        }
        i = i + 1;
    }
    proof {
        assert(formats@.take(formats@.len() as int) =~= formats@);
    }
    formats[0]
}

/// With no sRGB hit in the first `i` entries and none at entry `i`, the first
/// `i + 1` entries have none either.
proof fn lemma_take_drop_first_none(formats: Seq<TextureFormat>, i: int)
    requires
        0 < i < formats.len(),
        first_srgb(formats.take(i)) is None,
        !formats[i].srgb,
    ensures
        first_srgb(formats.take(i + 1)) is None,
{
    assert(formats.take(i + 1).take(i) =~= formats.take(i));
    lemma_first_srgb_skip(formats.take(i + 1), i);
    assert(formats.take(i + 1).skip(i) =~= seq![formats[i]]);
    assert(seq![formats[i]].drop_first() =~= Seq::<TextureFormat>::empty());
    assert(first_srgb(Seq::<TextureFormat>::empty()) is None);
    assert(seq![formats[i]][0] == formats[i]);
    assert(first_srgb(seq![formats[i]]) is None);
}

/// The negotiated configuration of the window's drawable target: pixel
/// format, size in physical pixels, and the surface's presentation and alpha
/// compositing policy.
pub struct SurfaceConfig {
    pub format: TextureFormat,
    pub width: u32,
    pub height: u32,
    pub present_mode: u32,
    pub alpha_mode: u32,
}

/// The configuration the surface is first configured with: the preferred
/// format, the window's current size, and the first reported present and
/// alpha modes.
pub open spec fn initial_config(caps: SurfaceCaps, width: u32, height: u32) -> SurfaceConfig
    recommends
        caps.well_formed(),
{
    SurfaceConfig {
        format: preferred_format(caps.formats@),
        width,
        height,
        present_mode: caps.present_modes@[0],
        alpha_mode: caps.alpha_modes@[0],
    }
}

impl SurfaceConfig {
    /// Builds the configuration the surface is first configured with.
    pub fn create(caps: &SurfaceCaps, width: u32, height: u32) -> (c: SurfaceConfig)
        requires
            caps.well_formed(),
        ensures
            c == initial_config(*caps, width, height),
    {
        SurfaceConfig {
            format: choose_format(&caps.formats),
            width,
            height,
            present_mode: caps.present_modes[0],
            alpha_mode: caps.alpha_modes[0],
        }
    }

    /// The configuration after a resize event: an accepted resize (both
    /// dimensions positive) overwrites width and height and nothing else; a
    /// degenerate resize leaves the configuration unchanged.
    pub open spec fn resized(self, width: u32, height: u32) -> SurfaceConfig {
        if width > 0 && height > 0 {
            SurfaceConfig { width, height, ..self }
        } else {
            self
        }
    }

    /// Applies a resize event. Returns whether the surface must be
    /// reconfigured, which is exactly when the event was accepted.
    pub fn resize(&mut self, width: u32, height: u32) -> (reconfigure: bool)
        ensures
            *final(self) == old(self).resized(width, height),
            reconfigure == (width > 0 && height > 0),
    {
        if width > 0 && height > 0 {
            self.width = width;
            self.height = height;
            true
        } else {
            false
        }
    }
}

} // verus!
