use raytracer::scalar::Scalar;
use raytracer::util::{channel_byte, channel_bytes, opaque_pixels};

fn s(x: f64) -> Scalar {
    Scalar::from_bits(x.to_bits())
}

fn byte(root: f64) -> u8 {
    (root.clamp(0.0, 0.999) * 256.0) as u8
}

#[test]
fn channel_byte_is_the_whole_part_of_the_256_fold() {
    assert_eq!(channel_byte(s(0.0)), 0);
    assert_eq!(channel_byte(s(0.5)), 128);
    assert_eq!(channel_byte(s(0.25)), 64);
    assert_eq!(channel_byte(s(1.0 / 256.0)), 1);
    assert_eq!(channel_byte(s(0.003906249999999999)), 0);
    assert_eq!(channel_byte(s(0.7071067811865476)), 181);
    assert_eq!(channel_byte(s(0.99)), 253);
}

#[test]
fn channel_byte_is_kept_within_the_byte() {
    assert_eq!(channel_byte(s(0.999)), 255);
    assert_eq!(channel_byte(s(1.0)), 255);
    assert_eq!(channel_byte(s(1e300)), 255);
    assert_eq!(channel_byte(s(f64::INFINITY)), 255);
    assert_eq!(channel_byte(s(-0.0)), 0);
    assert_eq!(channel_byte(s(-0.5)), 0);
    assert_eq!(channel_byte(s(f64::NEG_INFINITY)), 0);
    assert_eq!(channel_byte(s(f64::NAN)), 0);
    assert_eq!(channel_byte(s(5e-324)), 0);
}

#[test]
fn channel_byte_agrees_with_the_doubles_on_a_sweep() {
    let mut root = -0.01;
    while root < 1.01 {
        assert_eq!(channel_byte(s(root)), byte(root), "{root:?}");
        root += 0.000123;
    }
    for k in 0..=256 {
        let edge = k as f64 / 256.0;
        for root in [edge, f64::from_bits(edge.to_bits() + 1), f64::from_bits(edge.to_bits().saturating_sub(1))] {
            assert_eq!(channel_byte(s(root)), byte(root), "{root:?}");
        }
    }
}

#[test]
fn alpha_of_a_full_sum_is_opaque() {
    // Every sample adds 1.0 to the alpha channel: the mean is 1 and its root too.
    let samples = 10.0_f64;
    assert_eq!(channel_byte(s((samples * 1.0 / samples).sqrt())), 255);
}

#[test]
fn empty_sum_is_stored_as_zero() {
    // No sample was added: 0 / 0 is NaN.
    let nothing = 0.0_f64 / 0.0_f64;
    assert_eq!(channel_byte(s(nothing.sqrt())), 0);
}

#[test]
fn picture_is_stored_channel_by_channel() {
    let roots: Vec<Scalar> = [0.0, 0.5, 1.0, 1.0, 0.25, f64::NAN, 0.7071067811865476, 1.0]
        .iter()
        .map(|&root| s(root))
        .collect();
    assert_eq!(channel_bytes(&roots), vec![0, 128, 255, 255, 64, 0, 181, 255]);
    assert_eq!(channel_bytes(&[]), Vec::<u8>::new());
}

#[test]
fn opaque_pixels_take_three_channels_of_four() {
    let roots: Vec<Scalar> = [0.0, 0.5, 1.0, 0.25, 0.25, f64::NAN, 0.7071067811865476, 0.0]
        .iter()
        .map(|&root| s(root))
        .collect();
    assert_eq!(opaque_pixels(&roots), vec![[0, 128, 255, 255], [64, 0, 181, 255]]);
}

#[test]
fn opaque_pixels_leave_out_what_does_not_fill_a_pixel() {
    let roots: Vec<Scalar> = [0.5; 7].iter().map(|&root| s(root)).collect();
    assert_eq!(opaque_pixels(&roots), vec![[128, 128, 128, 255]]);
    assert_eq!(opaque_pixels(&roots[..3]), Vec::<[u8; 4]>::new());
}
