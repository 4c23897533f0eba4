use raytracer_rs::canvas::Canvas;
use raytracer_rs::ppm::PPM;
use raytracer_rs::rgb::Rgb;

#[test]
fn new_ppm_header() {
    let canvas = Canvas::new(5, 3, Rgb::default());
    let header = PPM::create_header(&canvas);

    let desired_result = "P6 5 3 255\n".to_string().into_bytes();
    assert_eq!(desired_result, header);
}

#[test]
fn new_ppm_body() {
    let mut canvas = Canvas::new(5, 3, Rgb::default());
    let color_a = Rgb::new((1.5f64 * 255.0) as u8, (0.0f64 * 255.0) as u8, (0.0f64 * 255.0) as u8);
    let color_b = Rgb::new((0.0f64 * 255.0) as u8, (0.5f64 * 255.0) as u8, (0.0f64 * 255.0) as u8);
    let color_c = Rgb::new((-0.5f64 * 255.0) as u8, (0.0f64 * 255.0) as u8, (1.0f64 * 255.0) as u8);

    canvas.set_pixel(0, 0, color_a);
    canvas.set_pixel(2, 1, color_b);
    canvas.set_pixel(4, 2, color_c);

    let body = PPM::create_body(&canvas);

    for (count, _value) in body.iter().enumerate() {
        let desired_result = match count {
            0 | 44 => 255,
            22 => 127,
            _ => 0,
        };

        assert_eq!(desired_result, body[count]);
    }
}

#[test]
fn new_ppm() {
    let mut canvas = Canvas::new(5, 3, Rgb::default());
    let color_a = Rgb::new((1.5f64 * 255.0) as u8, (0.0f64 * 255.0) as u8, (0.0f64 * 255.0) as u8);
    let color_b = Rgb::new((0.0f64 * 255.0) as u8, (0.5f64 * 255.0) as u8, (0.0f64 * 255.0) as u8);
    let color_c = Rgb::new((-0.5f64 * 255.0) as u8, (0.0f64 * 255.0) as u8, (1.0f64 * 255.0) as u8);

    canvas.set_pixel(0, 0, color_a);
    canvas.set_pixel(2, 1, color_b);
    canvas.set_pixel(4, 2, color_c);

    let ppm = PPM::new(&canvas);

    let mut desired_result: Vec<u8> = Vec::new();
    desired_result.append(&mut PPM::create_header(&canvas));
    desired_result.append(&mut PPM::create_body(&canvas));

    assert_eq!(desired_result, ppm.get());
}

#[test]
fn ppm_encoding_idempotent() {
    let mut canvas = Canvas::new(4, 4, Rgb::default());
    canvas.set_pixel(1, 2, Rgb::new(200, 100, 50));
    canvas.set_pixel(3, 0, Rgb::new(1, 2, 3));

    let first = PPM::new(&canvas);
    let second = PPM::new(&canvas);

    assert_eq!(first.get(), second.get());
}

#[test]
fn ppm_header_multi_digit() {
    let canvas = Canvas::new(900, 550, Rgb::default());
    let header = PPM::create_header(&canvas);

    assert_eq!("P6 900 550 255\n".to_string().into_bytes(), header);
}

#[test]
fn ppm_empty_canvas() {
    let canvas = Canvas::new(0, 0, Rgb::default());
    let ppm = PPM::new(&canvas);

    assert_eq!("P6 0 0 255\n".to_string().into_bytes(), ppm.get());
    assert_eq!(0, PPM::create_body(&canvas).len());
}

#[test]
fn ppm_body_length() {
    let canvas = Canvas::new(7, 2, Rgb::new(9, 9, 9));
    let body = PPM::create_body(&canvas);

    assert_eq!(3 * 7 * 2, body.len());
    assert!(body.iter().all(|byte| *byte == 9));
}

#[test]
fn ppm_body_channel_order() {
    let mut canvas = Canvas::new(2, 1, Rgb::default());
    canvas.set_pixel(1, 0, Rgb::new(11, 22, 33));

    let body = PPM::create_body(&canvas);
    assert_eq!(vec![0, 0, 0, 11, 22, 33], body);
}
