use media_registry::channels::{
    channel_count, classify_exact, layout_bits, mask_covers_layout, max_static_object_count,
    CanonicalLayout, ChannelMask, BACK_CENTER, BACK_LEFT, BACK_RIGHT, FRONT_CENTER, FRONT_LEFT,
    FRONT_RIGHT, LOW_FREQUENCY, SIDE_LEFT, SIDE_RIGHT,
};
use media_registry::domain::DeviceFormat;
use media_registry::errors::{policy_error_from_status, PolicyError, SessionError};

#[test]
fn channel_count_matches_the_named_positions() {
    assert_eq!(channel_count(0), 0);
    assert_eq!(channel_count(ChannelMask::Mono), 1);
    assert_eq!(channel_count(ChannelMask::Stereo), 2);
    assert_eq!(channel_count(ChannelMask::Spatial_5_1), 6);
    assert_eq!(channel_count(ChannelMask::Spatial_7_1), 8);
    assert_eq!(channel_count(ChannelMask::Spatial_7_1_4), 12);
    assert_eq!(channel_count(ChannelMask::Spatial_7_1_4_4), 16);
    assert_eq!(channel_count(ChannelMask::Spatial_8_1_4_4), 17);
    assert_eq!(channel_count(u32::MAX), 32);
}

#[test]
fn device_format_coherence_and_layout() {
    let stereo = DeviceFormat {
        sample_rate: 48_000,
        bits_per_sample: 24,
        channels: 2,
        channel_mask: ChannelMask::Stereo,
    };
    assert!(stereo.is_coherent());
    assert_eq!(stereo.layout(), Some(CanonicalLayout::Stereo));

    let wrong_count = DeviceFormat { channels: 3, ..stereo };
    assert!(!wrong_count.is_coherent());
    let zero_rate = DeviceFormat { sample_rate: 0, ..stereo };
    assert!(!zero_rate.is_coherent());

    let surround = DeviceFormat {
        sample_rate: 44_100,
        bits_per_sample: 16,
        channels: 6,
        channel_mask: ChannelMask::Spatial_5_1,
    };
    assert!(surround.is_coherent());
    assert_eq!(surround.layout(), Some(CanonicalLayout::Spatial_5_1));
}

#[test]
fn five_one_mask_reports_spatial_5_1() {
    let mask = FRONT_LEFT | FRONT_RIGHT | FRONT_CENTER | LOW_FREQUENCY | SIDE_LEFT | SIDE_RIGHT;
    assert_eq!(classify_exact(mask), Some(CanonicalLayout::Spatial_5_1));
}

#[test]
fn catalog_masks_are_the_documented_combinations() {
    assert_eq!(ChannelMask::Mono, FRONT_CENTER);
    assert_eq!(ChannelMask::Stereo, FRONT_LEFT | FRONT_RIGHT);
    assert_eq!(ChannelMask::Quad, ChannelMask::Stereo | BACK_LEFT | BACK_RIGHT);
    assert_eq!(ChannelMask::Spatial_7_1, ChannelMask::Spatial_5_1 | BACK_LEFT | BACK_RIGHT);
    assert_eq!(ChannelMask::Spatial_8_1_4_4, ChannelMask::Spatial_7_1_4_4 | BACK_CENTER);
    assert_eq!(layout_bits(CanonicalLayout::Stereo), ChannelMask::Stereo);
    assert_eq!(layout_bits(CanonicalLayout::Spatial_7_1_4), ChannelMask::Spatial_7_1_4);
}

#[test]
fn every_canonical_layout_classifies_to_itself() {
    let layouts = [
        CanonicalLayout::Mono,
        CanonicalLayout::Stereo,
        CanonicalLayout::Spatial_2_1,
        CanonicalLayout::Quad,
        CanonicalLayout::Spatial_4_1,
        CanonicalLayout::Spatial_5_1,
        CanonicalLayout::Spatial_7_1,
        CanonicalLayout::Spatial_7_1_4,
        CanonicalLayout::Spatial_7_1_4_4,
        CanonicalLayout::Spatial_8_1_4_4,
    ];
    for layout in layouts {
        assert_eq!(classify_exact(layout_bits(layout)), Some(layout));
    }
}

#[test]
fn unrecognized_masks_match_no_layout() {
    assert_eq!(classify_exact(0), None);
    assert_eq!(classify_exact(FRONT_LEFT), None);
    assert_eq!(classify_exact(0xFFFF_FFFF), None);
}

#[test]
fn superset_masks_cover_smaller_layouts() {
    assert!(mask_covers_layout(ChannelMask::Spatial_7_1, CanonicalLayout::Spatial_5_1));
    assert!(mask_covers_layout(ChannelMask::Spatial_8_1_4_4, CanonicalLayout::Stereo));
    assert!(!mask_covers_layout(ChannelMask::Stereo, CanonicalLayout::Spatial_5_1));
    assert!(!mask_covers_layout(ChannelMask::Mono, CanonicalLayout::Stereo));
}

#[test]
fn spatial_layouts_carry_their_object_budget() {
    assert_eq!(max_static_object_count(CanonicalLayout::Spatial_7_1_4), 12);
    assert_eq!(max_static_object_count(CanonicalLayout::Spatial_7_1_4_4), 16);
    assert_eq!(max_static_object_count(CanonicalLayout::Spatial_8_1_4_4), 17);
    assert_eq!(max_static_object_count(CanonicalLayout::Stereo), 0);
    assert_eq!(max_static_object_count(CanonicalLayout::Spatial_5_1), 0);
    assert_eq!(ChannelMask::MaxStaticObjectCount_7_1_4, 12);
    assert_eq!(ChannelMask::MaxStaticObjectCount_7_1_4_4, 16);
    assert_eq!(ChannelMask::MaxStaticObjectCount_8_1_4_4, 17);
}

#[test]
fn status_codes_translate_to_the_taxonomy() {
    // E_ACCESSDENIED
    assert_eq!(policy_error_from_status(0x8007_0005u32 as i32), PolicyError::AccessDenied);
    // HRESULT_FROM_WIN32(ERROR_NOT_FOUND)
    assert_eq!(policy_error_from_status(0x8007_0490u32 as i32), PolicyError::DeviceNotFound);
    // AUDCLNT_E_UNSUPPORTED_FORMAT
    assert_eq!(policy_error_from_status(0x8889_0008u32 as i32), PolicyError::FormatRejected);
    // REGDB_E_CLASSNOTREG and E_NOINTERFACE: the surface is absent
    assert_eq!(
        policy_error_from_status(0x8004_0154u32 as i32),
        PolicyError::InterfaceUnavailable
    );
    assert_eq!(
        policy_error_from_status(0x8000_4002u32 as i32),
        PolicyError::InterfaceUnavailable
    );
    // unknown failures degrade to feature absence, never a crash
    assert_eq!(policy_error_from_status(-1), PolicyError::InterfaceUnavailable);
}

#[test]
fn errors_describe_themselves() {
    assert_eq!(PolicyError::AccessDenied.describe(), "access denied");
    assert_eq!(PolicyError::DeviceNotFound.describe(), "device not found");
    assert_eq!(PolicyError::InterfaceUnavailable.describe(), "policy interface unavailable");
    assert_eq!(PolicyError::FormatRejected.describe(), "format rejected");
    assert_eq!(PolicyError::OutOfRange.describe(), "volume out of range");
    assert_eq!(SessionError::OutOfRange.describe(), "volume out of range");
    assert_eq!(SessionError::SessionGone.describe(), "session gone");
}
