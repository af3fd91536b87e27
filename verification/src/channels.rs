//! Channel layout catalog.
//!
//! A channel mask is a bitmask in which each bit stands for one speaker
//! position.  The catalog names the canonical OR-combinations (mono, stereo,
//! quad, 5.1, 7.1 and the spatial layouts with height channels) and, for the
//! spatial layouts, the maximum number of static audio objects they imply.
//! The catalog is purely descriptive: a mask that matches no canonical layout
//! is simply reported as unrecognized.

use vstd::prelude::*;

verus! {

/// Speaker-position flag: front left.
pub const FRONT_LEFT: u32 = 0x2;

/// Speaker-position flag: front right.
pub const FRONT_RIGHT: u32 = 0x4;

/// Speaker-position flag: front center.
pub const FRONT_CENTER: u32 = 0x8;

/// Speaker-position flag: low-frequency effects.
pub const LOW_FREQUENCY: u32 = 0x10;

/// Speaker-position flag: side left.
pub const SIDE_LEFT: u32 = 0x20;

/// Speaker-position flag: side right.
pub const SIDE_RIGHT: u32 = 0x40;

/// Speaker-position flag: back left.
pub const BACK_LEFT: u32 = 0x80;

/// Speaker-position flag: back right.
pub const BACK_RIGHT: u32 = 0x100;

/// Speaker-position flag: top front left.
pub const TOP_FRONT_LEFT: u32 = 0x200;

/// Speaker-position flag: top front right.
pub const TOP_FRONT_RIGHT: u32 = 0x400;

/// Speaker-position flag: top back left.
pub const TOP_BACK_LEFT: u32 = 0x800;

/// Speaker-position flag: top back right.
pub const TOP_BACK_RIGHT: u32 = 0x1000;

/// Speaker-position flag: bottom front left.
pub const BOTTOM_FRONT_LEFT: u32 = 0x2000;

/// Speaker-position flag: bottom front right.
pub const BOTTOM_FRONT_RIGHT: u32 = 0x4000;

/// Speaker-position flag: bottom back left.
pub const BOTTOM_BACK_LEFT: u32 = 0x8000;

/// Speaker-position flag: bottom back right.
pub const BOTTOM_BACK_RIGHT: u32 = 0x10000;

/// Speaker-position flag: back center.
pub const BACK_CENTER: u32 = 0x20000;

/// Catalog of named canonical channel layouts.
pub struct ChannelMask {}

#[allow(non_upper_case_globals)]
impl ChannelMask {
    /// Single front-center speaker.
    pub const Mono: u32 = FRONT_CENTER;

    /// Front left and right.
    pub const Stereo: u32 = FRONT_LEFT | FRONT_RIGHT;

    /// Stereo plus a low-frequency channel.
    pub const Spatial_2_1: u32 = Self::Stereo | LOW_FREQUENCY;

    /// Stereo plus back left and right.
    pub const Quad: u32 = Self::Stereo | BACK_LEFT | BACK_RIGHT;

    /// Quad plus a low-frequency channel.
    pub const Spatial_4_1: u32 = Self::Quad | LOW_FREQUENCY;

    /// Stereo plus front center, low frequency and the two side speakers.
    pub const Spatial_5_1: u32 = Self::Stereo | FRONT_CENTER | LOW_FREQUENCY | SIDE_LEFT
        | SIDE_RIGHT;

    /// 5.1 plus back left and right.
    pub const Spatial_7_1: u32 = Self::Spatial_5_1 | BACK_LEFT | BACK_RIGHT;

    /// Maximum static object count implied by the 7.1.4 layout.
    pub const MaxStaticObjectCount_7_1_4: u32 = 12;

    /// 7.1 plus the four top speakers.
    pub const Spatial_7_1_4: u32 = Self::Spatial_7_1 | TOP_FRONT_LEFT | TOP_FRONT_RIGHT
        | TOP_BACK_LEFT | TOP_BACK_RIGHT;

    /// Maximum static object count implied by the 7.1.4.4 layout.
    pub const MaxStaticObjectCount_7_1_4_4: u32 = 16;

    /// 7.1.4 plus the four bottom speakers.
    pub const Spatial_7_1_4_4: u32 = Self::Spatial_7_1_4 | BOTTOM_FRONT_LEFT | BOTTOM_FRONT_RIGHT
        | BOTTOM_BACK_LEFT | BOTTOM_BACK_RIGHT;

    /// Maximum static object count implied by the 8.1.4.4 layout.
    pub const MaxStaticObjectCount_8_1_4_4: u32 = 17;

    /// 7.1.4.4 plus a back-center speaker.
    pub const Spatial_8_1_4_4: u32 = Self::Spatial_7_1_4_4 | BACK_CENTER;
}

/// A canonical layout named by the catalog.
#[allow(non_camel_case_types)]
#[derive(Debug, Clone, Copy, PartialEq, Eq, Structural)]
pub enum CanonicalLayout {
    Mono,
    Stereo,
    Spatial_2_1,
    Quad,
    Spatial_4_1,
    Spatial_5_1,
    Spatial_7_1,
    Spatial_7_1_4,
    Spatial_7_1_4_4,
    Spatial_8_1_4_4,
}

/// The bitmask of a canonical layout.
pub open spec fn spec_layout_bits(layout: CanonicalLayout) -> u32 {
    match layout {
        CanonicalLayout::Mono => ChannelMask::Mono,
        CanonicalLayout::Stereo => ChannelMask::Stereo,
        CanonicalLayout::Spatial_2_1 => ChannelMask::Spatial_2_1,
        CanonicalLayout::Quad => ChannelMask::Quad,
        CanonicalLayout::Spatial_4_1 => ChannelMask::Spatial_4_1,
        CanonicalLayout::Spatial_5_1 => ChannelMask::Spatial_5_1,
        CanonicalLayout::Spatial_7_1 => ChannelMask::Spatial_7_1,
        CanonicalLayout::Spatial_7_1_4 => ChannelMask::Spatial_7_1_4,
        CanonicalLayout::Spatial_7_1_4_4 => ChannelMask::Spatial_7_1_4_4,
        CanonicalLayout::Spatial_8_1_4_4 => ChannelMask::Spatial_8_1_4_4,
    }
}

/// The bitmask of a canonical layout.
pub fn layout_bits(layout: CanonicalLayout) -> (bits: u32)
    ensures
        bits == spec_layout_bits(layout),
{
    match layout {
        CanonicalLayout::Mono => ChannelMask::Mono,
        CanonicalLayout::Stereo => ChannelMask::Stereo,
        CanonicalLayout::Spatial_2_1 => ChannelMask::Spatial_2_1,
        CanonicalLayout::Quad => ChannelMask::Quad,
        CanonicalLayout::Spatial_4_1 => ChannelMask::Spatial_4_1,
        CanonicalLayout::Spatial_5_1 => ChannelMask::Spatial_5_1,
        CanonicalLayout::Spatial_7_1 => ChannelMask::Spatial_7_1,
        CanonicalLayout::Spatial_7_1_4 => ChannelMask::Spatial_7_1_4,
        CanonicalLayout::Spatial_7_1_4_4 => ChannelMask::Spatial_7_1_4_4,
        CanonicalLayout::Spatial_8_1_4_4 => ChannelMask::Spatial_8_1_4_4,
    }
}

/// True when `mask` contains every speaker position of `layout` (superset
/// match).
pub open spec fn spec_mask_covers(mask: u32, layout_bits: u32) -> bool {
    mask & layout_bits == layout_bits
}

/// Superset match: does `mask` contain every position of `layout`?
pub fn mask_covers_layout(mask: u32, layout: CanonicalLayout) -> (r: bool)
    ensures
        r == spec_mask_covers(mask, spec_layout_bits(layout)),
{
    let bits = layout_bits(layout);
    mask & bits == bits
}

/// The canonical layout a mask matches exactly, if any.
pub open spec fn spec_classify_exact(mask: u32) -> Option<CanonicalLayout> {
    if mask == ChannelMask::Mono {
        Some(CanonicalLayout::Mono)
    } else if mask == ChannelMask::Stereo {
        Some(CanonicalLayout::Stereo)
    } else if mask == ChannelMask::Spatial_2_1 {
        Some(CanonicalLayout::Spatial_2_1)
    } else if mask == ChannelMask::Quad {
        Some(CanonicalLayout::Quad)
    } else if mask == ChannelMask::Spatial_4_1 {
        Some(CanonicalLayout::Spatial_4_1)
    } else if mask == ChannelMask::Spatial_5_1 {
        Some(CanonicalLayout::Spatial_5_1)
    } else if mask == ChannelMask::Spatial_7_1 {
        Some(CanonicalLayout::Spatial_7_1)
    } else if mask == ChannelMask::Spatial_7_1_4 {
        Some(CanonicalLayout::Spatial_7_1_4)
    } else if mask == ChannelMask::Spatial_7_1_4_4 {
        Some(CanonicalLayout::Spatial_7_1_4_4)
    } else if mask == ChannelMask::Spatial_8_1_4_4 {
        Some(CanonicalLayout::Spatial_8_1_4_4)
    } else {
        None
    }
}

/// Exact-match lookup of a raw channel mask against the catalog.
///
/// Returns the canonical layout whose bits equal `mask`, and `None` for an
/// unrecognized mask.
pub fn classify_exact(mask: u32) -> (r: Option<CanonicalLayout>)
    ensures
        r == spec_classify_exact(mask),
        r matches Some(layout) ==> spec_layout_bits(layout) == mask,
        r is None ==> forall|layout: CanonicalLayout| spec_layout_bits(layout) != mask,
{
    proof {
        if spec_classify_exact(mask) is None {
            assert forall|layout: CanonicalLayout| spec_layout_bits(layout) != mask by {
                match layout {
                    CanonicalLayout::Mono => {},
                    CanonicalLayout::Stereo => {},
                    CanonicalLayout::Spatial_2_1 => {},
                    CanonicalLayout::Quad => {},
                    CanonicalLayout::Spatial_4_1 => {},
                    CanonicalLayout::Spatial_5_1 => {},
                    CanonicalLayout::Spatial_7_1 => {},
                    CanonicalLayout::Spatial_7_1_4 => {},
                    CanonicalLayout::Spatial_7_1_4_4 => {},
                    CanonicalLayout::Spatial_8_1_4_4 => {},
                }
            }
        }
    }
    if mask == ChannelMask::Mono {
        Some(CanonicalLayout::Mono)
    } else if mask == ChannelMask::Stereo {
        Some(CanonicalLayout::Stereo)
    } else if mask == ChannelMask::Spatial_2_1 {
        Some(CanonicalLayout::Spatial_2_1)
    } else if mask == ChannelMask::Quad {
        Some(CanonicalLayout::Quad)
    } else if mask == ChannelMask::Spatial_4_1 {
        Some(CanonicalLayout::Spatial_4_1)
    } else if mask == ChannelMask::Spatial_5_1 {
        Some(CanonicalLayout::Spatial_5_1)
    } else if mask == ChannelMask::Spatial_7_1 {
        Some(CanonicalLayout::Spatial_7_1)
    } else if mask == ChannelMask::Spatial_7_1_4 {
        Some(CanonicalLayout::Spatial_7_1_4)
    } else if mask == ChannelMask::Spatial_7_1_4_4 {
        Some(CanonicalLayout::Spatial_7_1_4_4)
    } else if mask == ChannelMask::Spatial_8_1_4_4 {
        Some(CanonicalLayout::Spatial_8_1_4_4)
    } else {
        None
    }
}

/// Number of set bits of a mask: how many speaker positions it names.
pub open spec fn spec_bit_count(mask: int) -> nat
    decreases mask,
{
    if mask <= 0 {
        0
    } else {
        (mask % 2) as nat + spec_bit_count(mask / 2)
    }
}

/// A mask never names more positions than its own value.
proof fn lemma_bit_count_le(mask: int)
    requires
        mask >= 0,
    ensures
        spec_bit_count(mask) <= mask,
    decreases mask,
{
    if mask > 0 {
        lemma_bit_count_le(mask / 2);
    }
}

/// Counts the speaker positions a channel mask names.
pub fn channel_count(mask: u32) -> (count: u32)
    ensures
        count == spec_bit_count(mask as int),
{
    proof {
        lemma_bit_count_le(mask as int);
    }
    let mut m = mask;
    let mut count: u32 = 0;
    while m != 0
        invariant
            count + spec_bit_count(m as int) == spec_bit_count(mask as int),
            spec_bit_count(mask as int) <= mask,
        decreases m,
    {
        count = count + (m % 2);
        m = m / 2;
    }
    count
}

/// The maximum static object count of a spatial layout with height channels,
/// and zero for every other layout.
pub open spec fn spec_max_static_object_count(layout: CanonicalLayout) -> u32 {
    match layout {
        CanonicalLayout::Spatial_7_1_4 => ChannelMask::MaxStaticObjectCount_7_1_4,
        CanonicalLayout::Spatial_7_1_4_4 => ChannelMask::MaxStaticObjectCount_7_1_4_4,
        CanonicalLayout::Spatial_8_1_4_4 => ChannelMask::MaxStaticObjectCount_8_1_4_4,
        _ => 0,
    }
}

/// Maximum static object count implied by a layout; zero when the layout
/// carries no static-object budget.
pub fn max_static_object_count(layout: CanonicalLayout) -> (count: u32)
    ensures
        count == spec_max_static_object_count(layout),
{
    match layout {
        CanonicalLayout::Spatial_7_1_4 => ChannelMask::MaxStaticObjectCount_7_1_4,
        CanonicalLayout::Spatial_7_1_4_4 => ChannelMask::MaxStaticObjectCount_7_1_4_4,
        CanonicalLayout::Spatial_8_1_4_4 => ChannelMask::MaxStaticObjectCount_8_1_4_4,
        _ => 0,
    }
}

} // verus!

