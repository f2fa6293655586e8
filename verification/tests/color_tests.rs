use rainbow_led::color::{hue_to_rgb, to_device_byte_order, to_grb, ByteOrder, Rgb};

#[test]
fn primary_hues_exact() {
    assert_eq!(hue_to_rgb(0), Rgb { r: 255, g: 0, b: 0 });
    assert_eq!(hue_to_rgb(120), Rgb { r: 0, g: 255, b: 0 });
    assert_eq!(hue_to_rgb(240), Rgb { r: 0, g: 0, b: 255 });
}

#[test]
fn secondary_hues_exact() {
    assert_eq!(hue_to_rgb(60), Rgb { r: 255, g: 255, b: 0 });
    assert_eq!(hue_to_rgb(180), Rgb { r: 0, g: 255, b: 255 });
    assert_eq!(hue_to_rgb(300), Rgb { r: 255, g: 0, b: 255 });
}

#[test]
fn midpoint_hue_exact() {
    // 30 degrees: halfway up the first sector, 30 * 255 / 60 = 127.
    assert_eq!(hue_to_rgb(30), Rgb { r: 255, g: 127, b: 0 });
    // 359 degrees: almost back to red, 255 / 60 rounds down to 4.
    assert_eq!(hue_to_rgb(359), Rgb { r: 255, g: 0, b: 4 });
}

#[test]
fn matches_float_reference() {
    // The sector-based integer conversion tracks the floating-point
    // reference conversion within one count per channel, and exactly at
    // every sector boundary.
    for hue in 0u16..360 {
        let mine = hue_to_rgb(hue);
        let (r, g, b) = hsv::hsv_to_rgb(hue as f64, 1.0, 1.0);
        let close = |a: u8, b: u8| (a as i16 - b as i16).abs() <= 1;
        assert!(
            close(mine.r, r) && close(mine.g, g) && close(mine.b, b),
            "hue {}: integer {:?} vs float ({}, {}, {})",
            hue,
            mine,
            r,
            g,
            b
        );
        if hue % 60 == 0 {
            assert_eq!((mine.r, mine.g, mine.b), (r, g, b), "hue {}", hue);
        }
    }
}

#[test]
fn grb_reorders_channels() {
    let c = Rgb { r: 1, g: 2, b: 3 };
    assert_eq!(to_grb(c), vec![2, 1, 3]);
    assert_eq!(to_device_byte_order(c, ByteOrder::Grb), vec![2, 1, 3]);
    assert_eq!(to_device_byte_order(c, ByteOrder::Rgb), vec![1, 2, 3]);
}
