use image::{ImageBuffer, ImageFormat, Rgba};
use std::io::Cursor;
use vulkust::texture::{
    decode_texture, embedded_image_bytes, texture_from_decoded, texture_pixels_from_gltf,
    loadable_texture_type, ImageViewInfo, TextureError, TextureType,
};

fn png_2x1() -> Vec<u8> {
    let img: ImageBuffer<Rgba<u8>, Vec<u8>> =
        ImageBuffer::from_raw(2, 1, vec![255, 0, 0, 255, 0, 0, 255, 128]).unwrap();
    let mut out = Cursor::new(Vec::new());
    img.write_to(&mut out, ImageFormat::Png).unwrap();
    out.into_inner()
}

fn view(offset: usize, length: usize) -> ImageViewInfo {
    ImageViewInfo {
        from_buffer_view: true,
        offset,
        length,
        stride: None,
        buffer_is_binary_chunk: true,
    }
}

#[test]
fn texture_type_values() {
    assert_eq!(TextureType::T2D.value(), 1);
    assert_eq!(TextureType::T3D.value(), 2);
    assert_eq!(TextureType::Cube.value(), 3);
    assert_eq!(TextureType::from_value(1), Some(TextureType::T2D));
    assert_eq!(TextureType::from_value(3), Some(TextureType::Cube));
    assert_eq!(TextureType::from_value(0), None);
    assert_eq!(TextureType::from_value(4), None);
}

#[test]
fn decodes_png_pixels() {
    let t = decode_texture(&png_2x1()).ok().unwrap();
    assert_eq!((t.width, t.height), (2, 1));
    assert_eq!(t.pixels, vec![255, 0, 0, 255, 0, 0, 255, 128]);
}

#[test]
fn rejects_garbage() {
    assert_eq!(decode_texture(&[1, 2, 3, 4]).err(), Some(TextureError::Undecodable));
    assert_eq!(decode_texture(&[]).err(), Some(TextureError::Undecodable));
}

#[test]
fn cuts_embedded_image() {
    let data = vec![9, 8, 7, 6, 5];
    assert_eq!(embedded_image_bytes(&data, &view(1, 3)), Ok(vec![8, 7, 6]));
    assert_eq!(embedded_image_bytes(&data, &view(5, 0)), Ok(vec![]));
    assert_eq!(embedded_image_bytes(&data, &view(3, 3)), Err(TextureError::OutOfRange));
    assert_eq!(embedded_image_bytes(&data, &view(usize::MAX, 2)), Err(TextureError::OutOfRange));
    let strided = ImageViewInfo { stride: Some(4), ..view(0, 1) };
    assert_eq!(embedded_image_bytes(&data, &strided), Err(TextureError::Strided));
    let external = ImageViewInfo { buffer_is_binary_chunk: false, ..view(0, 1) };
    assert_eq!(embedded_image_bytes(&data, &external), Err(TextureError::NotEmbedded));
    let uri = ImageViewInfo { from_buffer_view: false, ..view(0, 1) };
    assert_eq!(embedded_image_bytes(&data, &uri), Err(TextureError::NotEmbedded));
}

#[test]
fn gltf_texture_pixels() {
    let png = png_2x1();
    let mut data = vec![0u8, 0, 0];
    data.extend(&png);
    data.push(0);
    let t = texture_pixels_from_gltf(&data, &view(3, png.len())).ok().unwrap();
    assert_eq!((t.width, t.height), (2, 1));
    assert_eq!(t.pixels.len(), 8);
    assert_eq!(
        texture_pixels_from_gltf(&data, &view(0, png.len())).err(),
        Some(TextureError::Undecodable)
    );
    assert_eq!(
        texture_pixels_from_gltf(&data, &view(5, png.len())).err(),
        Some(TextureError::OutOfRange)
    );
}

#[test]
fn texture_from_decoded_results() {
    let t = texture_from_decoded(Some((3, 2, vec![9; 24]))).ok().unwrap();
    assert_eq!((t.width, t.height, t.pixels), (3, 2, vec![9; 24]));
    assert!(matches!(texture_from_decoded(None), Err(TextureError::Undecodable)));
}

#[test]
fn loader_takes_2d_and_cube_textures_only() {
    assert_eq!(loadable_texture_type(1), Some(TextureType::T2D));
    assert_eq!(loadable_texture_type(3), Some(TextureType::Cube));
    assert_eq!(loadable_texture_type(2), None);
    assert_eq!(loadable_texture_type(0), None);
    assert_eq!(loadable_texture_type(4), None);
}
