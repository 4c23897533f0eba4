use raytracer_rs::rgb::Rgb;

#[test]
fn rgb_new_stores_channels() {
    let pixel = Rgb::new(12, 34, 56);

    assert_eq!((12, 34, 56), pixel.to_tuple());
}

#[test]
fn rgb_default_is_black() {
    let pixel = Rgb::default();

    assert_eq!((0, 0, 0), pixel.to_tuple());
    assert_eq!(Rgb::new(0, 0, 0), pixel);
}

#[test]
fn rgb_saturated_channels() {
    let pixel = Rgb::new(255, 0, 255);

    assert_eq!((255, 0, 255), pixel.to_tuple());
}
