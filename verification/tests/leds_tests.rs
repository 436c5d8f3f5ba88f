use ledctrl::leds::{make_random_led_vec, strip_from_channels};

#[test]
fn random_strip_shape() {
    let leds = make_random_led_vec(25);
    assert_eq!(leds.len(), 25);
    for led in &leds {
        assert_eq!(led.len(), 3);
        for &channel in led {
            assert!(channel < 255);
        }
    }
}

#[test]
fn random_strip_empty() {
    assert!(make_random_led_vec(0).is_empty());
}

#[test]
fn random_strip_is_not_constant() {
    let leds = make_random_led_vec(200);
    let first = leds[0].clone();
    assert!(leds.iter().any(|led| *led != first));
    assert!(leds.iter().flatten().any(|&c| c != 0));
}

#[test]
fn strip_layout_in_draw_order() {
    let channels: Vec<u8> = vec![1, 2, 3, 4, 5, 6, 7, 8, 9];
    let leds = strip_from_channels(&channels, 3);
    assert_eq!(leds, vec![vec![1, 2, 3], vec![4, 5, 6], vec![7, 8, 9]]);
}

#[test]
fn strip_layout_empty() {
    let channels: Vec<u8> = Vec::new();
    assert!(strip_from_channels(&channels, 0).is_empty());
}
