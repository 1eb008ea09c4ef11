use image::RgbImage;
use std::io::Cursor;
use tinify::client::Client;
use tinify::http::Payload;
use tinify::http::Response;
use tinify::source::Output;
use tinify::source::Step;

/// A picture of a Julia set over a colour gradient, as a PNG file in
/// memory.
fn create_image() -> Vec<u8> {
    let img_x = 400;
    let img_y = 400;
    let scale_x = 3.0 / img_x as f32;
    let scale_y = 3.0 / img_y as f32;
    let mut img_buf: RgbImage = image::ImageBuffer::new(img_x, img_y);

    for (x, y, pixel) in img_buf.enumerate_pixels_mut() {
        let r = (1.3 * x as f32) as u8;
        let b = (1.3 * y as f32) as u8;
        *pixel = image::Rgb([r, 0, b]);
    }

    for x in 0..img_x {
        for y in 0..img_y {
            let cx = y as f32 * scale_x - 1.5;
            let cy = x as f32 * scale_y - 1.5;
            let c = num_complex::Complex::new(-0.4, 0.6);
            let mut z = num_complex::Complex::new(cx, cy);
            let mut i = 0;

            while i < 255 && z.norm() <= 2.0 {
                z = z * z + c;
                i += 1;
            }

            let pixel = img_buf.get_pixel_mut(x, y);
            let image::Rgb(data) = *pixel;
            *pixel = image::Rgb([data[0], i as u8, data[2]]);
        }
    }

    let mut file = Vec::new();
    img_buf.write_to(&mut Cursor::new(&mut file), image::ImageFormat::Png).unwrap();
    file
}

#[test]
fn generated_image_is_uploaded_as_it_is() {
    let image = create_image();
    assert_eq!(&image[..8], b"\x89PNG\r\n\x1a\n");

    let (pending, request) = Client::new("key").from_buffer(&image).unwrap();
    assert_eq!(request.payload, Payload::Bytes(image.clone()));

    let smaller = image[..image.len() / 2].to_vec();
    let response = Response { status: 201, location: None, body: smaller.clone() };
    let source = match pending.receive(Ok(response)) {
        Step::Ready(source) => source,
        other => panic!("the job is not ready: {:?}", other),
    };
    let buffer = match source.to_buffer() {
        Output::Bytes(buffer) => buffer,
        other => panic!("no bytes were handed out: {:?}", other),
    };

    assert!(!buffer.is_empty());
    assert!(buffer.len() <= image.len());
    assert_eq!(buffer, smaller);
}
