//! Adding images, samplers and textures to the document; encoded images are stored in the
//! binary buffer.

use vstd::prelude::*;
use crate::builder::{GltfBuilder, buffer_after_adding, buffers_after_growing};
use crate::bytes::pad4;
use crate::constants::{sampler_filter, sampler_wrap};
use crate::error::{GltfError, Result};
use crate::models::{items, push_item, appended_one, opt_view, Gltf, BufferView, Image, Sampler, Texture};
use crate::texture::{
    self, PixelImage, TextureFormat, TextureError, mime_type_of, encoding, is_checkerboard,
    png_encoding, opaque, white, black,
};

verus! {

/// The sampler [`GltfBuilder::create_default_sampler`] adds: linear magnification, trilinear
/// minification, repeat wrapping in both directions.
pub open spec fn default_sampler() -> Sampler {
    Sampler {
        mag_filter: Some(9729usize),
        min_filter: Some(9987usize),
        wrap_s: Some(10497usize),
        wrap_t: Some(10497usize),
    }
}

/// `img` is the image entry for data in buffer view `view`.
pub open spec fn image_entry(img: Image, name: Option<Seq<char>>, mime: Seq<char>, view: int) -> bool {
    &&& opt_view(img.name) == name
    &&& img.uri is None
    &&& img.mime_type matches Some(m) && m@ == mime
    &&& img.buffer_view == Some(view as usize)
}

/// The effect of storing an encoded image: `data` is added to the binary buffer, a buffer view
/// covers it, and an image entry of type `mime` refers to that view at index `index`.
pub open spec fn image_added(before: GltfBuilder, after: GltfBuilder, name: Option<Seq<char>>, mime: Seq<char>, data: Seq<u8>, index: int) -> bool {
    let offset = before.buffer_data@.len() + pad4(before.buffer_data@.len() as int);
    let views = items(before.gltf.buffer_views);
    &&& after.buffer_data@ == buffer_after_adding(before.buffer_data@, data)
    &&& after.gltf.buffer_views is Some
    &&& items(after.gltf.buffer_views) == views.push(
        BufferView {
            buffer: 0,
            byte_offset: offset as usize,
            byte_length: data.len() as usize,
            byte_stride: None,
            target: None,
        },
    )
    &&& appended_one(before.gltf.images, after.gltf.images)
    &&& index == items(before.gltf.images).len()
    &&& image_entry(items(after.gltf.images)[index], name, mime, views.len() as int)
    &&& buffers_after_growing(before.gltf.buffers, after.gltf.buffers, after.buffer_data@.len() as int)
}

/// The effect of creating a texture from an encoded image: the image is stored as in
/// [`image_added`], a default sampler is appended, and a texture named `name` reading that
/// image with that sampler gets index `index`.
pub open spec fn texture_created(before: GltfBuilder, after: GltfBuilder, name: Option<Seq<char>>, mime: Seq<char>, data: Seq<u8>, index: int) -> bool {
    let image_index = items(before.gltf.images).len();
    let sampler_index = items(before.gltf.samplers).len();
    &&& image_added(before, after, name, mime, data, image_index as int)
    &&& after.gltf.samplers is Some
    &&& items(after.gltf.samplers) == items(before.gltf.samplers).push(default_sampler())
    &&& appended_one(before.gltf.textures, after.gltf.textures)
    &&& index == items(before.gltf.textures).len()
    &&& opt_view(items(after.gltf.textures)[index].name) == name
    &&& items(after.gltf.textures)[index].source == image_index
    &&& items(after.gltf.textures)[index].sampler == Some(sampler_index as usize)
    &&& after.gltf == (Gltf {
        buffer_views: after.gltf.buffer_views,
        buffers: after.gltf.buffers,
        images: after.gltf.images,
        samplers: after.gltf.samplers,
        textures: after.gltf.textures,
        ..before.gltf
    })
}

impl GltfBuilder {
    /// Appends a sampler and returns its index.
    pub fn add_sampler(
        &mut self,
        mag_filter: Option<usize>,
        min_filter: Option<usize>,
        wrap_s: Option<usize>,
        wrap_t: Option<usize>,
    ) -> (index: usize)
        ensures
            index == items(old(self).gltf.samplers).len(),
            final(self).gltf.samplers is Some,
            items(final(self).gltf.samplers) == items(old(self).gltf.samplers).push(
                Sampler { mag_filter, min_filter, wrap_s, wrap_t },
            ),
            final(self).gltf == (Gltf { samplers: final(self).gltf.samplers, ..old(self).gltf }),
            final(self).buffer_data == old(self).buffer_data,
    {
        let sampler = Sampler { mag_filter, min_filter, wrap_s, wrap_t };
        push_item(&mut self.gltf.samplers, sampler)
    }

    /// Appends the default sampler (see [`default_sampler`]) and returns its index.
    pub fn create_default_sampler(&mut self) -> (index: usize)
        ensures
            index == items(old(self).gltf.samplers).len(),
            final(self).gltf.samplers is Some,
            items(final(self).gltf.samplers) == items(old(self).gltf.samplers).push(default_sampler()),
            final(self).gltf == (Gltf { samplers: final(self).gltf.samplers, ..old(self).gltf }),
            final(self).buffer_data == old(self).buffer_data,
    {
        self.add_sampler(
            Some(sampler_filter::LINEAR),
            Some(sampler_filter::LINEAR_MIPMAP_LINEAR),
            Some(sampler_wrap::REPEAT),
            Some(sampler_wrap::REPEAT),
        )
    }

    /// Appends a texture and returns its index.
    pub fn add_texture(&mut self, name: Option<String>, source: usize, sampler: Option<usize>) -> (index: usize)
        ensures
            index == items(old(self).gltf.textures).len(),
            final(self).gltf.textures is Some,
            items(final(self).gltf.textures) == items(old(self).gltf.textures).push(
                Texture { name, source, sampler },
            ),
            final(self).gltf == (Gltf { textures: final(self).gltf.textures, ..old(self).gltf }),
            final(self).buffer_data == old(self).buffer_data,
    {
        let texture = Texture { name, source, sampler };
        push_item(&mut self.gltf.textures, texture)
    }

    /// Stores encoded image `data` of type `mime_type` in the binary buffer, adds a buffer view
    /// for it and an image entry referring to that view, and returns the image's index.
    pub fn add_image_from_buffer(&mut self, name: Option<String>, mime_type: String, data: &[u8]) -> (index: usize)
        ensures
            image_added(*old(self), *final(self), opt_view(name), mime_type@, data@, index as int),
            final(self).gltf == (Gltf {
                buffer_views: final(self).gltf.buffer_views,
                buffers: final(self).gltf.buffers,
                images: final(self).gltf.images,
                ..old(self).gltf
            }),
    {
        let (offset, length) = self.add_buffer_data(data);
        let buffer_view = self.add_buffer_view(offset, length, None);
        let image = Image { name, uri: None, mime_type: Some(mime_type), buffer_view: Some(buffer_view) };
        let index = push_item(&mut self.gltf.images, image);
        assert(items(self.gltf.images).subrange(0, index as int) =~= items(old(self).gltf.images));
        index
    }

    /// Encodes `image` in `format` and stores it as with
    /// [`GltfBuilder::add_image_from_buffer`], returning the image's index; fails with the
    /// encoder's error, leaving the builder unchanged, when encoding fails.
    pub fn add_image_from_dynamic_image(&mut self, name: Option<String>, image: &PixelImage, format: TextureFormat) -> (r: Result<usize>)
        requires
            image.wf(),
        ensures
            match r {
                Ok(index) => encoding(*image, format) matches Some(data) && image_added(
                    *old(self),
                    *final(self),
                    opt_view(name),
                    mime_type_of(format),
                    data,
                    index as int,
                ) && final(self).gltf == (Gltf {
                    buffer_views: final(self).gltf.buffer_views,
                    buffers: final(self).gltf.buffers,
                    images: final(self).gltf.images,
                    ..old(self).gltf
                }),
                Err(GltfError::Texture(TextureError::ImageError(_))) => encoding(*image, format) is None
                    && *final(self) == *old(self),
                Err(_) => false,
            },
    {
        let bytes = match texture::image_to_bytes(image, format) {
            Ok(bytes) => bytes,
            Err(e) => {
                return Err(GltfError::Texture(e));
            },
        };
        Ok(self.add_image_from_buffer(name, format.mime_type().to_string(), bytes.as_slice()))
    }

    /// Encodes `image` in `format`, stores it, adds a default sampler and a texture reading the
    /// image with that sampler, and returns the texture's index (see [`texture_created`]);
    /// fails with the encoder's error, leaving the builder unchanged, when encoding fails.
    pub fn create_texture_from_image(&mut self, name: Option<String>, image: &PixelImage, format: TextureFormat) -> (r: Result<usize>)
        requires
            image.wf(),
        ensures
            match r {
                Ok(index) => encoding(*image, format) matches Some(data) && texture_created(
                    *old(self),
                    *final(self),
                    opt_view(name),
                    mime_type_of(format),
                    data,
                    index as int,
                ),
                Err(GltfError::Texture(TextureError::ImageError(_))) => encoding(*image, format) is None
                    && *final(self) == *old(self),
                Err(_) => false,
            },
    {
        let image_index = match self.add_image_from_dynamic_image(name.clone(), image, format) {
            Ok(i) => i,
            Err(e) => {
                return Err(e);
            },
        };
        let ghost mid = *self;
        let sampler_index = self.create_default_sampler();
        let index = self.add_texture(name, image_index, Some(sampler_index));
        assert(items(self.gltf.textures).subrange(0, index as int) =~= items(old(self).gltf.textures));
        Ok(index)
    }

    /// Creates a PNG texture named "checkerboard" from a `width` x `height` checkerboard of
    /// `cell_size`-pixel cells in two opaque colors (see
    /// [`texture::create_colored_checkerboard`] and
    /// [`GltfBuilder::create_texture_from_image`]).
    pub fn create_checkerboard_texture(&mut self, width: u32, height: u32, cell_size: u32, color1: [u8; 3], color2: [u8; 3]) -> (r: Result<usize>)
        requires
            cell_size > 0 || width == 0 || height == 0,
            width as int * height as int * 4 <= usize::MAX,
        ensures
            exists|img: PixelImage|
                #[trigger] is_checkerboard(
                    img,
                    width,
                    height,
                    cell_size,
                    opaque(color1),
                    opaque(color2),
                ) && match r {
                    Ok(index) => png_encoding(img.width, img.height, img.color, img.pixels@) matches Some(data)
                        && texture_created(
                        *old(self),
                        *final(self),
                        Some("checkerboard"@),
                        "image/png"@,
                        data,
                        index as int,
                    ),
                    Err(GltfError::Texture(TextureError::ImageError(_))) => png_encoding(
                        img.width,
                        img.height,
                        img.color,
                        img.pixels@,
                    ) is None && *final(self) == *old(self),
                    Err(_) => false,
                },
    {
        let image = texture::create_colored_checkerboard(width, height, cell_size, color1, color2);
        let r = self.create_texture_from_image(Some("checkerboard".to_string()), &image, TextureFormat::PNG);
        assert(is_checkerboard(image, width, height, cell_size, opaque(color1), opaque(color2)));
        r
    }

    /// Creates a PNG texture named "uv_test" from the black and white test pattern (see
    /// [`texture::create_uv_test_pattern`] and [`GltfBuilder::create_texture_from_image`]).
    pub fn create_uv_test_texture(&mut self, width: u32, height: u32) -> (r: Result<usize>)
        requires
            width >= 8 || width == 0 || height == 0,
            width as int * height as int * 4 <= usize::MAX,
        ensures
            exists|img: PixelImage|
                #[trigger] is_checkerboard(
                    img,
                    width,
                    height,
                    width / 8,
                    white(),
                    black(),
                ) && match r {
                    Ok(index) => png_encoding(img.width, img.height, img.color, img.pixels@) matches Some(data)
                        && texture_created(
                        *old(self),
                        *final(self),
                        Some("uv_test"@),
                        "image/png"@,
                        data,
                        index as int,
                    ),
                    Err(GltfError::Texture(TextureError::ImageError(_))) => png_encoding(
                        img.width,
                        img.height,
                        img.color,
                        img.pixels@,
                    ) is None && *final(self) == *old(self),
                    Err(_) => false,
                },
    {
        let image = texture::create_uv_test_pattern(width, height);
        let r = self.create_texture_from_image(Some("uv_test".to_string()), &image, TextureFormat::PNG);
        assert(is_checkerboard(image, width, height, width / 8, white(), black()));
        r
    }
}

} // verus!
