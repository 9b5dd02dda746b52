use mesh_tools::texture::{
    ColorKind, PixelImage, TextureFormat, generate_checkerboard, create_uv_test_pattern, create_colored_checkerboard, image_to_png_bytes,
    image_to_jpeg_bytes, image_to_bytes,
};
use mesh_tools::builder::GltfBuilder;

#[test]
fn mime_types() {
    assert_eq!(TextureFormat::PNG.mime_type(), "image/png");
    assert_eq!(TextureFormat::JPEG.mime_type(), "image/jpeg");
}

#[test]
fn checkerboard_alternates_cells() {
    let a = [10, 20, 30, 255];
    let b = [1, 2, 3, 4];
    let img = generate_checkerboard(4, 2, 2, a, b);
    assert_eq!((img.width, img.height), (4, 2));
    assert_eq!(img.color, ColorKind::Rgba8);
    assert_eq!(img.pixels.len(), 4 * 2 * 4);
    assert_eq!(&img.pixels[0..4], &a);
    assert_eq!(&img.pixels[4..8], &a);
    assert_eq!(&img.pixels[8..12], &b);
    assert_eq!(&img.pixels[16..20], &a);
}

#[test]
fn uv_test_pattern_is_black_and_white() {
    let img = create_uv_test_pattern(16, 2);
    assert_eq!(&img.pixels[0..4], &[255, 255, 255, 255]);
    assert_eq!(&img.pixels[8..12], &[0, 0, 0, 255]);
    let c = create_colored_checkerboard(2, 1, 1, [9, 8, 7], [1, 1, 1]);
    assert_eq!(c.pixels, vec![9, 8, 7, 255, 1, 1, 1, 255]);
}

#[test]
fn png_and_jpeg_encodings_have_their_signatures() {
    let img = generate_checkerboard(8, 8, 2, [255, 0, 0, 255], [0, 0, 255, 255]);
    let png = image_to_png_bytes(&img).unwrap();
    assert_eq!(&png[0..8], &[137, 80, 78, 71, 13, 10, 26, 10]);
    let jpeg = image_to_jpeg_bytes(&img, 80).unwrap();
    assert_eq!(&jpeg[0..2], &[0xFF, 0xD8]);
    let via_format = image_to_bytes(&img, TextureFormat::PNG).unwrap();
    assert_eq!(via_format, png);
}

#[test]
fn checkerboard_texture_is_stored_in_buffer() {
    let mut b = GltfBuilder::new();
    let tex = b.create_checkerboard_texture(8, 8, 4, [255, 255, 255], [0, 0, 0]).unwrap();
    assert_eq!(tex, 0);
    let images = b.gltf.images.as_ref().unwrap();
    assert_eq!(images[0].mime_type.as_deref(), Some("image/png"));
    let view = images[0].buffer_view.unwrap();
    let v = &b.gltf.buffer_views.as_ref().unwrap()[view];
    assert_eq!(&b.buffer_data[v.byte_offset..v.byte_offset + 8], &[137, 80, 78, 71, 13, 10, 26, 10]);
    let textures = b.gltf.textures.as_ref().unwrap();
    assert_eq!(textures[0].source, 0);
    assert_eq!(textures[0].sampler, Some(0));
}

#[test]
fn images_are_encoded_in_their_own_layout() {
    // A 2 x 1 RGB image: the PNG header records colour type 2 (RGB), not 6 (RGBA).
    let rgb = PixelImage { width: 2, height: 1, color: ColorKind::Rgb8, pixels: vec![255, 0, 0, 0, 255, 0] };
    let png = image_to_png_bytes(&rgb).unwrap();
    assert_eq!(&png[12..16], b"IHDR");
    assert_eq!(png[24], 8);
    assert_eq!(png[25], 2);
    // A 16-bit grey image keeps its 16-bit depth.
    let grey = PixelImage { width: 1, height: 1, color: ColorKind::L16, pixels: vec![0x34, 0x12] };
    let png16 = image_to_png_bytes(&grey).unwrap();
    assert_eq!((png16[24], png16[25]), (16, 0));
    // Floating-point pixels have no PNG or JPEG encoding.
    let float = PixelImage { width: 1, height: 1, color: ColorKind::Rgba32F, pixels: vec![0; 16] };
    assert!(image_to_png_bytes(&float).is_err());
    assert!(image_to_jpeg_bytes(&float, 90).is_err());
    assert!(image_to_bytes(&rgb, TextureFormat::JPEG).is_ok());
}
