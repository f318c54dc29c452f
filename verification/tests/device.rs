use color_space::ToRgb;
use deskled::device::Rgb;

#[test]
fn test_rgb_to_spectrum_rgb() {
    assert_eq!(16711935, Rgb { r: 255, g: 0, b: 255 }.into_spectrum_rgb());
}

#[test]
fn test_spectrum_rgb_to_rgb() {
    assert_eq!(Rgb { r: 255, g: 0, b: 255 }, Rgb::from_spectrum_rgb(16711935))
}

#[test]
fn spectrum_of_black_and_white() {
    assert_eq!(0, Rgb::off().into_spectrum_rgb());
    assert_eq!(16777215, Rgb::on().into_spectrum_rgb());
    assert_eq!(Rgb::off(), Rgb::from_spectrum_rgb(0));
    assert_eq!(Rgb::on(), Rgb::from_spectrum_rgb(16777215));
}

#[test]
fn spectrum_packs_red_high_and_blue_low() {
    assert_eq!(8405024, Rgb { r: 128, g: 64, b: 32 }.into_spectrum_rgb());
    assert_eq!(66051, Rgb { r: 1, g: 2, b: 3 }.into_spectrum_rgb());
    assert_eq!(Rgb { r: 0, g: 0, b: 255 }, Rgb::from_spectrum_rgb(255));
    assert_eq!(Rgb { r: 0, g: 255, b: 0 }, Rgb::from_spectrum_rgb(0xFF00));
    assert_eq!(Rgb { r: 255, g: 0, b: 0 }, Rgb::from_spectrum_rgb(0xFF0000));
}

#[test]
fn spectrum_round_trips_for_every_channel_value() {
    for v in 0..=255u8 {
        for c in [
            Rgb { r: v, g: 0, b: 0 },
            Rgb { r: 0, g: v, b: 0 },
            Rgb { r: 0, g: 0, b: v },
            Rgb { r: v, g: 255 - v, b: v / 2 },
        ] {
            assert_eq!(c, Rgb::from_spectrum_rgb(c.into_spectrum_rgb()));
        }
    }
}

#[test]
fn spectrum_of_more_than_six_digits_reads_the_first_six() {
    assert_eq!(Rgb { r: 16, g: 0, b: 0 }, Rgb::from_spectrum_rgb(0x1000000));
    assert_eq!(Rgb { r: 18, g: 52, b: 86 }, Rgb::from_spectrum_rgb(0x1234567));
    assert_eq!(Rgb { r: 18, g: 52, b: 86 }, Rgb::from_spectrum_rgb(0x12345678));
    assert_eq!(Rgb { r: 127, g: 255, b: 255 }, Rgb::from_spectrum_rgb(i32::MAX));
}

#[test]
fn negative_spectrum_is_read_in_twos_complement() {
    assert_eq!(Rgb { r: 255, g: 255, b: 255 }, Rgb::from_spectrum_rgb(-1));
    assert_eq!(Rgb { r: 255, g: 0, b: 255 }, Rgb::from_spectrum_rgb(-16711936));
    assert_eq!(Rgb { r: 128, g: 0, b: 0 }, Rgb::from_spectrum_rgb(i32::MIN));
}

#[test]
fn is_off_only_for_black() {
    assert!(Rgb::off().is_off());
    assert!(Rgb { r: 0, g: 0, b: 0 }.is_off());
    assert!(!Rgb::on().is_off());
    assert!(!Rgb { r: 1, g: 0, b: 0 }.is_off());
    assert!(!Rgb { r: 0, g: 1, b: 0 }.is_off());
    assert!(!Rgb { r: 0, g: 0, b: 1 }.is_off());
}

#[test]
fn brightness_is_the_largest_channel_as_a_percentage() {
    assert_eq!(100, Rgb { r: 255, g: 0, b: 255 }.get_brightness());
    assert_eq!(0, Rgb::off().get_brightness());
    assert_eq!(100, Rgb::on().get_brightness());
    assert_eq!(50, Rgb { r: 128, g: 64, b: 32 }.get_brightness());
    assert_eq!(1, Rgb { r: 1, g: 2, b: 3 }.get_brightness());
    assert_eq!(78, Rgb { r: 10, g: 200, b: 30 }.get_brightness());
    assert_eq!(99, Rgb { r: 0, g: 0, b: 254 }.get_brightness());
}

fn dimmed(c: Rgb, brightness: u8) -> Rgb {
    let mut c = c;
    c.set_brightness(brightness);
    c
}

#[test]
fn set_brightness_scales_every_channel() {
    assert_eq!(Rgb { r: 127, g: 0, b: 127 }, dimmed(Rgb { r: 255, g: 0, b: 255 }, 50));
    assert_eq!(Rgb { r: 255, g: 127, b: 63 }, dimmed(Rgb { r: 128, g: 64, b: 32 }, 100));
    assert_eq!(Rgb { r: 63, g: 31, b: 15 }, dimmed(Rgb { r: 128, g: 64, b: 32 }, 25));
    assert_eq!(Rgb { r: 204, g: 102, b: 0 }, dimmed(Rgb { r: 255, g: 128, b: 0 }, 80));
}

#[test]
fn set_brightness_of_black_gives_grey() {
    assert_eq!(Rgb { r: 127, g: 127, b: 127 }, dimmed(Rgb::off(), 50));
    assert_eq!(Rgb::on(), dimmed(Rgb::off(), 100));
}

#[test]
fn set_brightness_zero_gives_black() {
    for c in [
        Rgb::off(),
        Rgb::on(),
        Rgb { r: 10, g: 200, b: 30 },
        Rgb { r: 255, g: 0, b: 255 },
        Rgb { r: 1, g: 0, b: 0 },
    ] {
        assert_eq!(Rgb::off(), dimmed(c, 0));
    }
}

#[test]
fn set_brightness_over_hundred_saturates() {
    assert_eq!(Rgb::on(), dimmed(Rgb::on(), 200));
    assert_eq!(Rgb { r: 255, g: 255, b: 0 }, dimmed(Rgb { r: 200, g: 100, b: 0 }, 255));
    assert_eq!(Rgb::on(), dimmed(Rgb::off(), 255));
}

#[test]
fn own_brightness_keeps_a_color_within_three_steps() {
    for r in (0..=255u8).step_by(5) {
        for g in (0..=255u8).step_by(17) {
            for b in (0..=255u8).step_by(51) {
                let c = Rgb { r, g, b };
                let d = dimmed(c, c.get_brightness());
                assert!(d.r <= c.r && c.r - d.r <= 3, "{:?} became {:?}", c, d);
                assert!(d.g <= c.g && c.g - d.g <= 3, "{:?} became {:?}", c, d);
                assert!(d.b <= c.b && c.b - d.b <= 3, "{:?} became {:?}", c, d);
            }
        }
    }
}

fn brightness_in_floating_point(c: Rgb) -> u8 {
    let rgb = color_space::Rgb::new(c.r as f64, c.g as f64, c.b as f64);
    let hsv = color_space::Hsv::from(rgb);
    (hsv.v * 100f64).floor() as u8
}

fn dimmed_in_floating_point(c: Rgb, brightness: u8) -> Rgb {
    let rgb = color_space::Rgb::new(c.r as f64, c.g as f64, c.b as f64);
    let mut hsv = color_space::Hsv::from(rgb);
    hsv.v = brightness as f64 / 100f64;
    let rgb = hsv.to_rgb();
    Rgb { r: rgb.r.floor() as u8, g: rgb.g.floor() as u8, b: rgb.b.floor() as u8 }
}

#[test]
fn brightness_agrees_with_the_value_of_hsv() {
    for v in 0..=255u8 {
        for c in [
            Rgb { r: v, g: 0, b: 0 },
            Rgb { r: v / 2, g: v, b: v / 3 },
            Rgb { r: 0, g: v / 4, b: v },
            Rgb { r: v, g: v, b: v },
        ] {
            assert_eq!(brightness_in_floating_point(c), c.get_brightness(), "{:?}", c);
        }
    }
}

#[test]
fn set_brightness_stays_within_one_step_of_hsv_in_floating_point() {
    for r in (0..=255u8).step_by(15) {
        for g in (0..=255u8).step_by(17) {
            for b in (0..=255u8).step_by(51) {
                for brightness in (0..=120u8).step_by(4) {
                    let c = Rgb { r, g, b };
                    let exact = dimmed(c, brightness);
                    let float = dimmed_in_floating_point(c, brightness);
                    for (e, f) in [(exact.r, float.r), (exact.g, float.g), (exact.b, float.b)] {
                        assert!(
                            e == f || e == f + 1,
                            "{:?} at {}: {:?} and {:?}",
                            c,
                            brightness,
                            exact,
                            float
                        );
                    }
                }
            }
        }
    }
}
