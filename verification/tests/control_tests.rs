use rainbow_led::color::Rgb;
use rainbow_led::control::{
    apply_color_query, get_param_u8, lookup_param, parse_u8_in, ParseError, KEY_B, KEY_G, KEY_R,
};
use rainbow_led::state::{update_step, State};

#[test]
fn parse_u8_accepts_plain_numbers() {
    let q = b"255";
    assert_eq!(parse_u8_in(q, 0, 3), Some(255));
    let q = b"0";
    assert_eq!(parse_u8_in(q, 0, 1), Some(0));
    let q = b"42";
    assert_eq!(parse_u8_in(q, 0, 2), Some(42));
    let q = b"007";
    assert_eq!(parse_u8_in(q, 0, 3), Some(7));
}

#[test]
fn parse_u8_rejects_malformed_values() {
    assert_eq!(parse_u8_in(b"abc", 0, 3), None);
    assert_eq!(parse_u8_in(b"", 0, 0), None);
    assert_eq!(parse_u8_in(b"256", 0, 3), None);
    assert_eq!(parse_u8_in(b"1000", 0, 4), None);
    assert_eq!(parse_u8_in(b"1a", 0, 2), None);
    assert_eq!(parse_u8_in(b"-1", 0, 2), None);
}

#[test]
fn lookup_finds_each_key() {
    let q = b"r=255&g=0&b=7";
    assert_eq!(lookup_param(q, KEY_R), Some((2, 5)));
    assert_eq!(lookup_param(q, KEY_G), Some((8, 9)));
    assert_eq!(lookup_param(q, KEY_B), Some((12, 13)));
}

#[test]
fn lookup_missing_key_is_none() {
    assert_eq!(lookup_param(b"g=1&b=2", KEY_R), None);
    assert_eq!(lookup_param(b"", KEY_R), None);
    assert_eq!(lookup_param(b"red=1", KEY_R), None);
}

#[test]
fn lookup_later_binding_wins() {
    let q = b"r=1&r=2";
    assert_eq!(lookup_param(q, KEY_R), Some((6, 7)));
}

#[test]
fn get_param_distinguishes_absent_and_malformed() {
    assert_eq!(get_param_u8(b"g=1", KEY_R), Ok(None));
    assert_eq!(get_param_u8(b"r=9", KEY_R), Ok(Some(9)));
    assert_eq!(get_param_u8(b"r=abc", KEY_R), Err(ParseError));
}

#[test]
fn set_color_command_applies() {
    // Default lamp: on, static green, colorloop off. A full well-formed
    // command repaints it red on the next update tick.
    let mut s = State::new(0);
    assert_eq!(apply_color_query(&mut s, b"r=255&g=0&b=0"), Ok(()));
    assert_eq!(s.led_color, Rgb { r: 255, g: 0, b: 0 });
    assert_eq!(update_step(&mut s, 1), Rgb { r: 255, g: 0, b: 0 });
}

#[test]
fn malformed_value_fails_and_leaves_state_alone() {
    let mut s = State::new(0);
    let before = s;
    assert_eq!(apply_color_query(&mut s, b"r=abc"), Err(ParseError));
    assert_eq!(s, before);
    assert_eq!(
        apply_color_query(&mut s, b"r=300&g=0&b=0"),
        Err(ParseError)
    );
    assert_eq!(s, before);
}

#[test]
fn missing_channels_are_a_noop() {
    let mut s = State::new(0);
    let before = s;
    assert_eq!(apply_color_query(&mut s, b""), Ok(()));
    assert_eq!(s, before);
    assert_eq!(apply_color_query(&mut s, b"r=1&g=2"), Ok(()));
    assert_eq!(s, before);
}

#[test]
fn colorloop_traverses_the_wheel_and_returns_to_red() {
    // Toggling the colorloop on and ticking at or above the minimum
    // cadence for 360 ticks walks the full hue wheel: red first, red again
    // after the wrap, and the phase back at its start.
    let mut s = State::new(0);
    s.toggle_colorloop();
    assert!(s.colorloop);
    let mut now = 0u64;
    let mut outputs = Vec::new();
    for _ in 0..360 {
        now += 16;
        outputs.push(update_step(&mut s, now));
    }
    assert_eq!(s.colorloop_progress, 0);
    assert_eq!(outputs[0], Rgb { r: 255, g: 0, b: 0 });
    assert_eq!(outputs[120], Rgb { r: 0, g: 255, b: 0 });
    assert_eq!(outputs[240], Rgb { r: 0, g: 0, b: 255 });
    // Every output differs from its neighbour: the wheel is walked, not
    // held; and the tick after the wrap is red again.
    for i in 1..360 {
        assert_ne!(outputs[i], outputs[i - 1], "tick {}", i);
    }
    now += 16;
    assert_eq!(update_step(&mut s, now), Rgb { r: 255, g: 0, b: 0 });
}
