use mtb_master::background::{cycle_phase, opposite_phase, palette, rgba_noise, Rgba, Sky};

fn rgb(r: u8, g: u8, b: u8) -> Rgba {
    Rgba { r, g, b, a: 255 }
}

#[test]
fn palette_ends() {
    assert_eq!(palette(0), rgb(29, 24, 25));
    assert_eq!(palette(15), rgb(247, 246, 219));
    assert_eq!(palette(8), rgb(199, 115, 49));
}

#[test]
fn sky_gradients() {
    assert_eq!(Sky::day(), Sky { start: rgb(125, 207, 168), end: rgb(247, 246, 219) });
    assert_eq!(Sky::sun_set_rise(), Sky { start: rgb(199, 115, 49), end: rgb(147, 54, 51) });
    assert_eq!(Sky::night(), Sky { start: rgb(29, 24, 25), end: rgb(29, 24, 25) });
    assert_eq!(Sky::default(), Sky::sun_set_rise());
}

#[test]
fn cycle_phase_wraps() {
    assert_eq!(cycle_phase(0, 3_600_000), 0);
    assert_eq!(cycle_phase(3_700_000, 3_600_000), 100_000);
    assert_eq!(cycle_phase(7_200_000, 3_600_000), 0);
}

#[test]
fn opposite_phase_is_half_a_cycle_back() {
    assert_eq!(opposite_phase(10, 60), 40);
    assert_eq!(opposite_phase(45, 60), 15);
    assert_eq!(opposite_phase(30, 60), 0);
    assert_eq!(opposite_phase(0, 7), 4);
    assert_eq!(opposite_phase(u64::MAX, u64::MAX), u64::MAX - u64::MAX / 2);
}

#[test]
fn noise_has_four_bytes_per_pixel() {
    let bytes = rgba_noise(16, 8);
    assert_eq!(bytes.len(), 16 * 8 * 4);
    assert!(bytes.iter().all(|b| *b < 255));
    assert!(rgba_noise(0, 5).is_empty());
}

#[test]
fn noise_is_not_constant() {
    let bytes = rgba_noise(64, 64);
    let first = bytes[0];
    assert!(bytes.iter().any(|b| *b != first));
}
