use vstd::prelude::*;

verus! {

/// The kinds of texture a gx3d asset file holds.
#[derive(PartialEq, Eq, Structural, Clone, Copy, Debug)]
pub enum TextureType {
    T2D,
    T3D,
    Cube,
}

impl TextureType {
    /// The value that stands for the variant in a gx3d file.
    pub open spec fn spec_value(self) -> u8 {
        match self {
            TextureType::T2D => 1,
            TextureType::T3D => 2,
            TextureType::Cube => 3,
        }
    }

    /// The value that stands for the variant in a gx3d file.
    pub fn value(&self) -> (v: u8)
        ensures
            v == self.spec_value(),
    {
        match self {
            TextureType::T2D => 1,
            TextureType::T3D => 2,
            TextureType::Cube => 3,
        }
    }

    /// The kind of texture whose type byte in a gx3d file is `v`.
    pub fn from_value(v: u8) -> (t: Option<TextureType>)
        ensures
            t is Some <==> 1 <= v <= 3,
            t matches Some(k) ==> k.spec_value() == v,
    {
        if v == 1 {
            Some(TextureType::T2D)
        } else if v == 2 {
            Some(TextureType::T3D)
        } else if v == 3 {
            Some(TextureType::Cube)
        } else {
            None
        }
    }
}

/// The kind of texture that the texture manager loads from a gx3d file
/// whose type byte is `v`: 2D textures and cube maps; `None` for any other
/// byte, 3D textures among them, which it does not load.
pub fn loadable_texture_type(v: u8) -> (t: Option<TextureType>)
    ensures
        t == (if v == 1 {
            Some(TextureType::T2D)
        } else if v == 3 {
            Some(TextureType::Cube)
        } else {
            None
        }),
{
    if v == 1 {
        Some(TextureType::T2D)
    } else if v == 3 {
        Some(TextureType::Cube)
    } else {
        None
    }
}

/// The image that the `image` crate decodes from the bytes `data`, as
/// width, height and RGBA pixels with 8 bits a channel; `None` when the
/// bytes are no image it can read.
pub uninterp spec fn decoded_rgba(data: Seq<u8>) -> Option<(u32, u32, Seq<u8>)>;

/// `image::load_from_memory`, then `DynamicImage::to_rgba8`, `dimensions`
/// and `into_raw`: decodes an image file held in memory, guessing its format
/// from its contents, into RGBA pixels. The contract claims only that the
/// result is a function of the bytes. That the decoders return an error
/// rather than panic on malformed bytes is assumed: the crate's
/// documentation does not promise it.
#[verifier::external_body]
fn decode_rgba(data: &[u8]) -> (r: Option<(u32, u32, Vec<u8>)>)
    ensures
        r is None ==> decoded_rgba(data@) is None,
        r matches Some((w, h, p)) ==> decoded_rgba(data@) == Some((w, h, p@)),
{
    match image::load_from_memory(data) {
        Ok(img) => {
            let img = img.to_rgba8();
            let (w, h) = img.dimensions();
            Some((w, h, img.into_raw()))
        },
        Err(_) => None,
    }
}

/// Pixels of a texture: its width and height, and its RGBA bytes row by row.
pub struct TexturePixels {
    pub width: u32,
    pub height: u32,
    pub pixels: Vec<u8>,
}

/// Why a texture could not be read.
#[derive(PartialEq, Eq, Structural, Clone, Copy, Debug)]
pub enum TextureError {
    /// The image is not held in a buffer view of the binary chunk.
    NotEmbedded,
    /// The buffer view that holds the image has a stride.
    Strided,
    /// The buffer view reaches past the end of the binary chunk.
    OutOfRange,
    /// The bytes are no image that can be decoded.
    Undecodable,
}

/// What reading a texture's image reads of its glTF description: whether
/// the image comes from a buffer view, and the offset, length and stride of
/// that view and whether its buffer is the file's binary chunk.
pub struct ImageViewInfo {
    pub from_buffer_view: bool,
    pub offset: usize,
    pub length: usize,
    pub stride: Option<usize>,
    pub buffer_is_binary_chunk: bool,
}

/// Why the image that `view` describes cannot be cut out of a binary chunk
/// of `data_len` bytes, if it cannot.
pub open spec fn spec_embedded_image_error(view: ImageViewInfo, data_len: nat) -> Option<TextureError> {
    if !view.from_buffer_view {
        Some(TextureError::NotEmbedded)
    } else if view.stride is Some {
        Some(TextureError::Strided)
    } else if !view.buffer_is_binary_chunk {
        Some(TextureError::NotEmbedded)
    } else if view.offset + view.length > data_len {
        Some(TextureError::OutOfRange)
    } else {
        None
    }
}

/// The bytes of the image that `view` describes, cut out of the glTF
/// file's binary chunk `data`.
pub fn embedded_image_bytes(data: &[u8], view: &ImageViewInfo) -> (r: Result<Vec<u8>, TextureError>)
    ensures
        match spec_embedded_image_error(*view, data@.len()) {
            Some(e) => r == Err::<Vec<u8>, TextureError>(e),
            None => r matches Ok(bytes) && bytes@ == data@.subrange(
                view.offset as int,
                view.offset + view.length,
            ),
        },
{
    if !view.from_buffer_view {
        return Err(TextureError::NotEmbedded);
    }
    if view.stride.is_some() {
        return Err(TextureError::Strided);
    }
    if !view.buffer_is_binary_chunk {
        return Err(TextureError::NotEmbedded);
    }
    if view.offset > data.len() || view.length > data.len() - view.offset {
        return Err(TextureError::OutOfRange);
    }
    let end = view.offset + view.length;
    let mut bytes: Vec<u8> = Vec::new();
    let mut i: usize = view.offset;
    while i < end
        invariant
            view.offset <= i <= end,
            end <= data@.len(),
            bytes@ == data@.subrange(view.offset as int, i as int),
        decreases end - i,
    {
        bytes.push(data[i]);
        proof {
            assert(data@.subrange(view.offset as int, i + 1) =~= data@.subrange(view.offset as int, i as int).push(data@[i as int]));
        }
        i = i + 1;
    }
    Ok(bytes)
}

/// The texture made of what decoding its image gave: its width, height and
/// RGBA pixels, or nothing when the image could not be decoded.
pub fn texture_from_decoded(decoded: Option<(u32, u32, Vec<u8>)>) -> (r: Result<TexturePixels, TextureError>)
    ensures
        decoded is None ==> r == Err::<TexturePixels, TextureError>(TextureError::Undecodable),
        decoded matches Some((w, h, p)) ==> r matches Ok(t) && t.width == w && t.height == h
            && t.pixels@ == p@,
{
    match decoded {
        Some((width, height, pixels)) => Ok(TexturePixels { width, height, pixels }),
        None => Err(TextureError::Undecodable),
    }
}

/// Decodes the pixels of a texture from its image file held in `data`.
pub fn decode_texture(data: &[u8]) -> (r: Result<TexturePixels, TextureError>)
    ensures
        decoded_rgba(data@) is None ==> r == Err::<TexturePixels, TextureError>(TextureError::Undecodable),
        decoded_rgba(data@) matches Some((w, h, p)) ==> r matches Ok(t) && t.width == w && t.height == h
            && t.pixels@ == p,
{
    texture_from_decoded(decode_rgba(data))
}

/// The pixels of a texture that a glTF file embeds: the image that `view`
/// describes is cut out of the binary chunk `data` and decoded.
pub fn texture_pixels_from_gltf(data: &[u8], view: &ImageViewInfo) -> (r: Result<TexturePixels, TextureError>)
    ensures
        match spec_embedded_image_error(*view, data@.len()) {
            Some(e) => r == Err::<TexturePixels, TextureError>(e),
            None => {
                let bytes = data@.subrange(view.offset as int, view.offset + view.length);
                &&& decoded_rgba(bytes) is None ==> r == Err::<TexturePixels, TextureError>(TextureError::Undecodable)
                &&& decoded_rgba(bytes) matches Some((w, h, p)) ==> r matches Ok(t) && t.width == w
                    && t.height == h && t.pixels@ == p
            },
        },
{
    let bytes = embedded_image_bytes(data, view)?;
    decode_texture(bytes.as_slice())
}


/// An image in an unstrided buffer view of the binary chunk is cut out of a
/// chunk of `data_len` bytes exactly when the view ends within the chunk
/// (its end may be the chunk's end), and is out of range exactly when the
/// view ends past it.
pub proof fn law_embedded_image_in_range(view: ImageViewInfo, data_len: nat)
    requires
        view.from_buffer_view,
        view.stride is None,
        view.buffer_is_binary_chunk,
    ensures
        spec_embedded_image_error(view, data_len) is None <==> view.offset + view.length <= data_len,
        spec_embedded_image_error(view, data_len) == Some(TextureError::OutOfRange) <==> view.offset
            + view.length > data_len,
{
}

} // verus!
