use poritzcraft::texture::{decode_texture, DecodedTexture, RawFrame, TextureError};

fn encode(width: u32, height: u32, color: png::ColorType, depth: png::BitDepth, data: &[u8]) -> Vec<u8> {
    let mut bytes = Vec::new();
    {
        let mut encoder = png::Encoder::new(&mut bytes, width, height);
        encoder.set_color(color);
        encoder.set_depth(depth);
        let mut writer = encoder.write_header().unwrap();
        writer.write_image_data(data).unwrap();
        writer.finish().unwrap();
    }
    bytes
}

#[test]
fn rgba_png_decodes_to_its_pixels() {
    let pixels: Vec<u8> = vec![
        255, 0, 0, 255, 0, 255, 0, 255, 0, 0, 255, 255, 10, 20, 30, 40, 50, 60, 70, 80, 90, 100,
        110, 120,
    ];
    let bytes = encode(3, 2, png::ColorType::Rgba, png::BitDepth::Eight, &pixels);
    assert_ne!(bytes, pixels);
    let texture = decode_texture(&bytes).unwrap();
    assert_eq!(texture.width(), 3);
    assert_eq!(texture.height(), 2);
    assert_eq!(texture.data(), &pixels);
}

#[test]
fn rgb_png_is_not_a_texture() {
    let bytes = encode(2, 1, png::ColorType::Rgb, png::BitDepth::Eight, &[1, 2, 3, 4, 5, 6]);
    assert_eq!(decode_texture(&bytes).err(), Some(TextureError::NotRgba8));
}

#[test]
fn sixteen_bit_png_is_not_a_texture() {
    let data = [0u8; 16];
    let bytes = encode(2, 1, png::ColorType::Rgba, png::BitDepth::Sixteen, &data);
    assert_eq!(decode_texture(&bytes).err(), Some(TextureError::NotRgba8));
}

#[test]
fn bytes_that_are_no_png_are_undecodable() {
    assert_eq!(decode_texture(&Vec::new()).err(), Some(TextureError::Undecodable));
    assert_eq!(decode_texture(&vec![1, 2, 3, 4]).err(), Some(TextureError::Undecodable));
}

#[test]
fn truncated_png_is_undecodable() {
    let pixels = [9u8; 64];
    let mut bytes = encode(4, 4, png::ColorType::Rgba, png::BitDepth::Eight, &pixels);
    bytes.truncate(40);
    assert_eq!(decode_texture(&bytes).err(), Some(TextureError::Undecodable));
}

#[test]
fn texture_needs_four_bytes_per_pixel() {
    assert_eq!(
        DecodedTexture::new(2, 2, vec![0; 15]).err(),
        Some(TextureError::SizeMismatch)
    );
    assert_eq!(
        DecodedTexture::new(2, 2, vec![0; 17]).err(),
        Some(TextureError::SizeMismatch)
    );
    let texture = DecodedTexture::new(2, 2, vec![7; 16]).unwrap();
    assert_eq!(texture.width(), 2);
    assert_eq!(texture.height(), 2);
    assert_eq!(texture.data(), &vec![7u8; 16]);
}

#[test]
fn texture_without_pixels_is_refused() {
    assert_eq!(DecodedTexture::new(0, 2, Vec::new()).err(), Some(TextureError::Empty));
    assert_eq!(DecodedTexture::new(2, 0, Vec::new()).err(), Some(TextureError::Empty));
    assert_eq!(DecodedTexture::new(0, 0, vec![1, 2, 3, 4]).err(), Some(TextureError::Empty));
}

#[test]
fn huge_dimensions_do_not_match_a_small_buffer() {
    assert_eq!(
        DecodedTexture::new(u32::MAX, u32::MAX, vec![0; 4]).err(),
        Some(TextureError::SizeMismatch)
    );
}

#[test]
fn frame_is_accepted_only_as_rgba_bytes() {
    let frame = |color_type: u8, bit_depth: u8, len: usize| RawFrame {
        width: 2,
        height: 1,
        color_type,
        bit_depth,
        data: vec![5; len],
    };
    let texture = DecodedTexture::from_frame(frame(6, 8, 8)).unwrap();
    assert_eq!(texture.data(), &vec![5u8; 8]);
    assert_eq!(DecodedTexture::from_frame(frame(2, 8, 6)).err(), Some(TextureError::NotRgba8));
    assert_eq!(DecodedTexture::from_frame(frame(6, 16, 16)).err(), Some(TextureError::NotRgba8));
    assert_eq!(DecodedTexture::from_frame(frame(4, 16, 8)).err(), Some(TextureError::NotRgba8));
    assert_eq!(DecodedTexture::from_frame(frame(6, 8, 7)).err(), Some(TextureError::SizeMismatch));
    let empty = RawFrame { width: 0, height: 0, color_type: 6, bit_depth: 8, data: Vec::new() };
    assert_eq!(DecodedTexture::from_frame(empty).err(), Some(TextureError::Empty));
}
