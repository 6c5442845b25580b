use raycore::image::{ImageSize, SizeError, DEFAULT_HEIGHT, DEFAULT_WIDTH};
use raycore::plane::{plane_x, plane_y, Ratio};
use raycore::sampler::Sampler;

#[test]
fn image_size_default_is_320_by_240() {
    let size = ImageSize::default();
    assert_eq!(size.width, 320);
    assert_eq!(size.height, 240);
    assert_eq!(DEFAULT_WIDTH, 320);
    assert_eq!(DEFAULT_HEIGHT, 240);
    assert_eq!(size.pixel_count(), 76800);
}

#[test]
fn pixel_count_of_the_largest_image_does_not_wrap() {
    let size = ImageSize::new(u32::MAX, u32::MAX);
    assert_eq!(size.pixel_count(), 18446744065119617025);
}

#[test]
fn validate_rejects_dimensions_below_two() {
    assert_eq!(ImageSize::new(2, 2).validate(), Ok(()));
    assert_eq!(ImageSize::new(640, 480).validate(), Ok(()));
    assert_eq!(ImageSize::new(1, 480).validate(), Err(SizeError::WidthTooSmall));
    assert_eq!(ImageSize::new(0, 480).validate(), Err(SizeError::WidthTooSmall));
    assert_eq!(ImageSize::new(640, 1).validate(), Err(SizeError::HeightTooSmall));
    assert_eq!(ImageSize::new(640, 0).validate(), Err(SizeError::HeightTooSmall));
    assert_eq!(ImageSize::new(1, 1).validate(), Err(SizeError::WidthTooSmall));
}

#[test]
fn sampler_visits_a_3_by_2_image_in_row_major_order() {
    let mut s = Sampler::new(&ImageSize::new(3, 2));
    assert_eq!(s.next(), Some((0, 0)));
    assert_eq!(s.next(), Some((1, 0)));
    assert_eq!(s.next(), Some((2, 0)));
    assert_eq!(s.next(), Some((0, 1)));
    assert_eq!(s.next(), Some((1, 1)));
    assert_eq!(s.next(), Some((2, 1)));
    assert_eq!(s.next(), None);
    assert_eq!(s.next(), None);
}

#[test]
fn sampler_yields_width_times_height_distinct_pixels() {
    let size = ImageSize::new(7, 5);
    let pixels = Sampler::new(&size).collect();
    assert_eq!(pixels.len(), 35);
    for (n, p) in pixels.iter().enumerate() {
        assert_eq!(*p, ((n % 7) as u32, (n / 7) as u32));
    }
    for col in 0..7u32 {
        for row in 0..5u32 {
            assert_eq!(pixels.iter().filter(|p| **p == (col, row)).count(), 1);
        }
    }
}

#[test]
fn sampler_is_restartable() {
    let size = ImageSize::new(4, 3);
    let first = Sampler::new(&size).collect();
    let second = Sampler::new(&size).collect();
    assert_eq!(first, second);
    assert_eq!(first.len(), 12);
}

#[test]
fn sampler_collect_returns_what_is_left() {
    let mut s = Sampler::new(&ImageSize::new(2, 2));
    assert_eq!(s.next(), Some((0, 0)));
    assert_eq!(s.collect(), vec![(1, 0), (0, 1), (1, 1)]);
}

#[test]
fn sampler_of_an_empty_or_single_pixel_image() {
    assert_eq!(Sampler::new(&ImageSize::new(0, 5)).collect(), vec![]);
    assert_eq!(Sampler::new(&ImageSize::new(5, 0)).collect(), vec![]);
    assert_eq!(Sampler::new(&ImageSize::new(1, 1)).collect(), vec![(0, 0)]);
    assert_eq!(Sampler::new(&ImageSize::new(1, 3)).collect(), vec![(0, 0), (0, 1), (0, 2)]);
}

#[test]
fn plane_x_runs_from_plus_half_to_minus_half() {
    let size = ImageSize::new(5, 3);
    assert_eq!(plane_x(&size, 0), Ratio { num: 4, den: 8 });
    assert_eq!(plane_x(&size, 1), Ratio { num: 2, den: 8 });
    assert_eq!(plane_x(&size, 2), Ratio { num: 0, den: 8 });
    assert_eq!(plane_x(&size, 3), Ratio { num: -2, den: 8 });
    assert_eq!(plane_x(&size, 4), Ratio { num: -4, den: 8 });
}

#[test]
fn plane_y_runs_from_plus_half_aspect_to_minus_half_aspect() {
    let size = ImageSize::new(4, 3);
    assert_eq!(plane_y(&size, 0), Ratio { num: 6, den: 16 });
    assert_eq!(plane_y(&size, 1), Ratio { num: 0, den: 16 });
    assert_eq!(plane_y(&size, 2), Ratio { num: -6, den: 16 });
}

#[test]
fn plane_coordinates_as_floats_match_the_formula() {
    let size = ImageSize::new(640, 480);
    let h: f64 = 480.0 / 640.0;
    for (col, row) in [(0u32, 0u32), (17, 250), (639, 479), (320, 240)] {
        let x = plane_x(&size, col);
        let y = plane_y(&size, row);
        let xf = x.num as f64 / x.den as f64;
        let yf = y.num as f64 / y.den as f64;
        assert!((xf - (-(col as f64) / 639.0 + 0.5)).abs() < 1e-12);
        assert!((yf - (-h * (row as f64) / 479.0 + h / 2.0)).abs() < 1e-12);
    }
}

#[test]
fn plane_coordinates_of_the_largest_image_do_not_wrap() {
    let size = ImageSize::new(u32::MAX, u32::MAX);
    let m: i128 = u32::MAX as i128;
    assert_eq!(plane_x(&size, u32::MAX - 1), Ratio { num: -(m - 1), den: 2 * (m - 1) });
    assert_eq!(plane_y(&size, 0), Ratio { num: m * (m - 1), den: 2 * m * (m - 1) });
    assert_eq!(plane_y(&size, u32::MAX - 1), Ratio { num: -m * (m - 1), den: 2 * m * (m - 1) });
}
