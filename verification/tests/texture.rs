use image::{DynamicImage, GrayImage, RgbImage, RgbaImage};
use polygon::math::Scalar;
use polygon::texture::{DataFormat, ElementType, GpuTexture, Texture2d, TextureData};

#[test]
fn from_bitmap_converts_rgb_to_rgba() {
    let pixels = vec![10u8, 20, 30, 40, 50, 60];
    let image = DynamicImage::ImageRgb8(RgbImage::from_raw(2, 1, pixels).unwrap());
    let texture = Texture2d::from_bitmap(image);
    assert_eq!(texture.width(), 2);
    assert_eq!(texture.height(), 1);
    assert_eq!(texture.format(), DataFormat::Rgba);
    assert_eq!(
        texture.data(),
        &TextureData::U8(vec![10, 20, 30, 255, 40, 50, 60, 255])
    );
}

#[test]
fn from_bitmap_keeps_rgba_as_it_is() {
    let pixels = vec![1u8, 2, 3, 4, 5, 6, 7, 8, 9, 10, 11, 12];
    let image = DynamicImage::ImageRgba8(RgbaImage::from_raw(1, 3, pixels.clone()).unwrap());
    let texture = Texture2d::from_bitmap(image);
    assert_eq!(texture.width(), 1);
    assert_eq!(texture.height(), 3);
    assert_eq!(texture.format(), DataFormat::Rgba);
    assert_eq!(texture.data(), &TextureData::U8(pixels));
}

#[test]
fn from_bitmap_spreads_grey_over_the_channels() {
    let image = DynamicImage::ImageLuma8(GrayImage::from_raw(1, 2, vec![7u8, 200]).unwrap());
    let texture = Texture2d::from_bitmap(image);
    assert_eq!(texture.width(), 1);
    assert_eq!(texture.height(), 2);
    assert_eq!(
        texture.data(),
        &TextureData::U8(vec![7, 7, 7, 255, 200, 200, 200, 255])
    );
    assert_eq!(texture.data().len(), 8);
}

#[test]
fn from_bitmap_of_an_empty_image() {
    let image = DynamicImage::ImageRgb8(RgbImage::from_raw(0, 0, vec![]).unwrap());
    let texture = Texture2d::from_bitmap(image);
    assert_eq!(texture.width(), 0);
    assert_eq!(texture.height(), 0);
    assert_eq!(texture.data(), &TextureData::U8(vec![]));
}

#[test]
fn try_from_bitmap_takes_what_fits() {
    let image = DynamicImage::ImageRgb8(RgbImage::from_raw(1, 1, vec![9u8, 8, 7]).unwrap());
    let texture = Texture2d::try_from_bitmap(image).unwrap();
    assert_eq!(texture.width(), 1);
    assert_eq!(texture.height(), 1);
    assert_eq!(texture.format(), DataFormat::Rgba);
    assert_eq!(texture.data(), &TextureData::U8(vec![9, 8, 7, 255]));
}

#[test]
fn channels_of_each_format() {
    assert_eq!(DataFormat::Rgb.channels(), 3);
    assert_eq!(DataFormat::Bgr.channels(), 3);
    assert_eq!(DataFormat::Rgba.channels(), 4);
    assert_eq!(DataFormat::Bgra.channels(), 4);
}

#[test]
fn new_takes_a_buffer_of_the_right_length() {
    let data = TextureData::U8(vec![0u8; 2 * 3 * 3]);
    let texture = Texture2d::new(2, 3, DataFormat::Rgb, data.clone()).unwrap();
    assert_eq!(texture.width(), 2);
    assert_eq!(texture.height(), 3);
    assert_eq!(texture.format(), DataFormat::Rgb);
    assert_eq!(texture.data(), &data);
    let info = texture.info();
    assert_eq!(info.width, 2);
    assert_eq!(info.height, 3);
    assert_eq!(info.format, DataFormat::Rgb);
    assert_eq!(info.elements, ElementType::U8);
}

#[test]
fn new_takes_real_elements() {
    let one = Scalar::from_bits(1.0f32.to_bits());
    let data = TextureData::F32(vec![one; 4]);
    let texture = Texture2d::new(1, 1, DataFormat::Bgra, data.clone()).unwrap();
    assert_eq!(texture.data(), &data);
    assert_eq!(texture.info().elements, ElementType::F32);
    match texture.data() {
        TextureData::F32(elements) => assert_eq!(f32::from_bits(elements[3].to_bits()), 1.0),
        TextureData::U8(_) => panic!("the elements are real"),
    }
}

#[test]
fn new_refuses_a_buffer_of_another_length() {
    assert!(Texture2d::new(2, 3, DataFormat::Rgb, TextureData::U8(vec![0u8; 17])).is_none());
    assert!(Texture2d::new(2, 3, DataFormat::Rgb, TextureData::U8(vec![0u8; 19])).is_none());
    assert!(Texture2d::new(2, 3, DataFormat::Rgba, TextureData::U8(vec![0u8; 18])).is_none());
    assert!(Texture2d::new(2, 3, DataFormat::Bgra, TextureData::U8(vec![0u8; 24])).is_some());
    assert!(Texture2d::new(0, 5, DataFormat::Bgr, TextureData::U8(vec![])).is_some());
    assert!(Texture2d::new(0, 5, DataFormat::Bgr, TextureData::U8(vec![1])).is_none());
}

#[test]
fn new_refuses_a_size_beyond_memory() {
    let data = TextureData::U8(vec![0u8; 4]);
    assert!(Texture2d::new(usize::MAX, usize::MAX, DataFormat::Rgba, data.clone()).is_none());
    assert!(Texture2d::new(usize::MAX / 2, 2, DataFormat::Rgb, data).is_none());
}

#[test]
fn the_default_texture_identifier_is_the_first() {
    assert_eq!(GpuTexture::default(), GpuTexture(0));
}

#[test]
fn try_from_bitmap_of_an_image_without_rows() {
    let image = DynamicImage::ImageLuma8(GrayImage::from_raw(5, 0, vec![]).unwrap());
    let texture = Texture2d::try_from_bitmap(image).unwrap();
    assert_eq!(texture.width(), 5);
    assert_eq!(texture.height(), 0);
    assert_eq!(texture.format(), DataFormat::Rgba);
    assert_eq!(texture.data(), &TextureData::U8(vec![]));
}

#[test]
fn from_bitmap_holds_four_bytes_a_pixel() {
    let image = DynamicImage::ImageRgb8(RgbImage::from_raw(3, 2, vec![0u8; 18]).unwrap());
    let texture = Texture2d::try_from_bitmap(image).unwrap();
    assert_eq!(texture.data().len(), 4 * texture.width() * texture.height());
    assert_eq!(texture.data().len(), 24);
}
