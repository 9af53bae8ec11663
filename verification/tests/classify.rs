use jjy_clock::BitWidth;
use jjy_clock::classify::{classify, is_in_width};

#[test]
fn classifier_nominal_widths() {
    assert_eq!(classify(200), BitWidth::Marker);
    assert_eq!(classify(500), BitWidth::Short);
    assert_eq!(classify(800), BitWidth::Long);
}

#[test]
fn classifier_within_tolerance() {
    // 19% deviation on either side of each nominal width.
    assert_eq!(classify(162), BitWidth::Marker);
    assert_eq!(classify(238), BitWidth::Marker);
    assert_eq!(classify(405), BitWidth::Short);
    assert_eq!(classify(595), BitWidth::Short);
    assert_eq!(classify(648), BitWidth::Long);
    assert_eq!(classify(952), BitWidth::Long);
    // Just inside the strict boundaries.
    assert_eq!(classify(161), BitWidth::Marker);
    assert_eq!(classify(239), BitWidth::Marker);
    assert_eq!(classify(401), BitWidth::Short);
    assert_eq!(classify(599), BitWidth::Short);
    assert_eq!(classify(641), BitWidth::Long);
    assert_eq!(classify(959), BitWidth::Long);
}

#[test]
fn classifier_boundaries_are_unknown() {
    for e in [160, 240, 400, 600, 640, 960] {
        assert_eq!(classify(e), BitWidth::Unknown);
    }
}

#[test]
fn classifier_partitions_range() {
    for e in 0..=2000u32 {
        let expected = if 160 < e && e < 240 {
            BitWidth::Marker
        } else if 400 < e && e < 600 {
            BitWidth::Short
        } else if 640 < e && e < 960 {
            BitWidth::Long
        } else {
            BitWidth::Unknown
        };
        assert_eq!(classify(e), expected);
        // The three accepting windows never overlap.
        let hits = [
            is_in_width(e, 200),
            is_in_width(e, 500),
            is_in_width(e, 800),
        ]
        .iter()
        .filter(|h| **h)
        .count();
        assert!(hits <= 1);
    }
}

#[test]
fn symbol_to_bit() {
    assert_eq!(BitWidth::Short.try_as_bool(), Some(true));
    assert_eq!(BitWidth::Long.try_as_bool(), Some(false));
    assert_eq!(BitWidth::Marker.try_as_bool(), None);
    assert_eq!(BitWidth::Unknown.try_as_bool(), None);
}

#[test]
fn symbol_names() {
    assert_eq!(BitWidth::Unknown.as_str(), "Unknown");
    assert_eq!(BitWidth::Marker.as_str(), "Marker");
    assert_eq!(BitWidth::Short.as_str(), "Short");
    assert_eq!(BitWidth::Long.as_str(), "Long");
}
