//! Textures and the images behind them.

use vstd::prelude::*;
use base64::engine::general_purpose;
use base64::Engine;
use uuid::Uuid;
use crate::error::Error;
use crate::ident::fresh_uuid;
use crate::utils::{extension, file_extension};

verus! {

/// What a texture shows: a line of text, or an image laid out in repeats.
///
/// On the wire the two are told apart by their fields alone.
#[derive(Clone, Debug, PartialEq)]
pub enum TextureType {
    Text { text_type: String, text: String, font_size: u32, font_face: String },
    Image { image: Option<Uuid>, repeat: [u32; 2], wrap: [u32; 2] },
}

impl TextureType {
    /// A text texture. Its `text_type` is always `_text`.
    pub fn new_text(text: &str, font_size: u32, font_face: &str) -> (t: TextureType)
        ensures
            t matches TextureType::Text { text_type, text: shown, font_size: size, font_face: face }
                && text_type@ == "_text"@ && shown@ == text@ && size == font_size && face@
                == font_face@,
    {
        TextureType::Text {
            text_type: "_text".to_owned(),
            text: text.to_owned(),
            font_size,
            font_face: font_face.to_owned(),
        }
    }

    /// An image texture that refers to no image yet, shown once in each
    /// direction and clamped at its edges.
    pub fn new_image() -> (t: TextureType)
        ensures
            t matches TextureType::Image { image, repeat, wrap } && image is None && repeat@
                == seq![1u32, 1u32] && wrap@ == seq![1001u32, 1001u32],
    {
        let repeat: [u32; 2] = [1, 1];
        let wrap: [u32; 2] = [1001, 1001];
        assert(repeat@ =~= seq![1u32, 1u32]);
        assert(wrap@ =~= seq![1001u32, 1001u32]);
        TextureType::Image { image: None, repeat, wrap }
    }

    /// The same texture showing the image `image`. A text texture shows no
    /// image and stays as it is.
    pub open spec fn linked(self, image: Uuid) -> TextureType {
        match self {
            TextureType::Image { image: _, repeat, wrap } => TextureType::Image {
                image: Some(image),
                repeat,
                wrap,
            },
            TextureType::Text { .. } => self,
        }
    }

    /// Whether the texture, where it is an image texture, shows `image`.
    pub open spec fn agrees_with(self, image: Uuid) -> bool {
        match self {
            TextureType::Image { image: shown, .. } => shown == Some(image),
            TextureType::Text { .. } => true,
        }
    }

    /// Points an image texture at `image`.
    pub fn link(self, image: Uuid) -> (t: TextureType)
        ensures
            t == self.linked(image),
    {
        match self {
            TextureType::Image { image: _, repeat, wrap } => TextureType::Image {
                image: Some(image),
                repeat,
                wrap,
            },
            TextureType::Text { text_type, text, font_size, font_face } => TextureType::Text {
                text_type,
                text,
                font_size,
                font_face,
            },
        }
    }
}

/// A texture with its identifier.
#[derive(Clone, Debug)]
pub struct Texture {
    pub uuid: Uuid,
    pub texture_type: TextureType,
}

impl Texture {
    /// A texture under a new identifier.
    pub fn new(texture_type: TextureType) -> (t: Texture)
        ensures
            t.texture_type == texture_type,
    {
        Texture { uuid: fresh_uuid(), texture_type }
    }

    /// The same texture, under the same identifier, showing `image`.
    pub open spec fn linked(self, image: Uuid) -> Texture {
        Texture { uuid: self.uuid, texture_type: self.texture_type.linked(image) }
    }

    /// Points the texture at `image`.
    pub fn link(self, image: Uuid) -> (t: Texture)
        ensures
            t == self.linked(image),
    {
        Texture { uuid: self.uuid, texture_type: self.texture_type.link(image) }
    }
}

/// The standard base64 text, with padding, of a run of bytes.
pub uninterp spec fn base64_standard(bytes: Seq<u8>) -> Seq<char>;

/// Encodes with `encode_string` of base64's `STANDARD` engine, which
/// appends the padded base64 text of its input to a string. The text is a
/// function of the bytes alone; it is named, not spelled out.
#[verifier::external_body]
fn encode_base64(bytes: &[u8]) -> (text: String)
    ensures
        text@ == base64_standard(bytes@),
{
    let mut text = String::new();
    general_purpose::STANDARD.encode_string(bytes, &mut text);
    text
}

/// An image, embedded as a data URI.
#[derive(Clone, Debug)]
pub struct Image {
    pub uuid: Uuid,
    pub url: String,
}

/// Whether `ext` is the extension of the one image codec that is supported.
fn is_png(ext: &str) -> (b: bool)
    ensures
        b == (ext@ == "png"@),
{
    proof {
        reveal_strlit("png");
    }
    if ext.unicode_len() != 3 {
        return false;
    }
    let b = ext.get_char(0) == 'p' && ext.get_char(1) == 'n' && ext.get_char(2) == 'g';
    assert(b ==> ext@ =~= "png"@);
    b
}

impl Image {
    /// The data URI of a PNG file whose bytes encode to `encoded`.
    pub open spec fn png_url(encoded: Seq<char>) -> Seq<char> {
        "data:image/png;base64,"@ + encoded
    }

    /// An image, under a new identifier, from the base64 text of a PNG file.
    pub fn from_png_base64(encoded: &str) -> (image: Image)
        ensures
            image.url@ == Image::png_url(encoded@),
    {
        let mut url: String = "data:image/png;base64,".to_owned();
        url.append(encoded);
        Image { uuid: fresh_uuid(), url }
    }

    /// Whether a file of this name can become an image: its extension is
    /// `png`, in lower case.
    pub open spec fn spec_supports(path: &str) -> bool {
        extension(path@) == "png"@
    }

    /// Whether a file of this name can become an image.
    #[verifier::when_used_as_spec(spec_supports)]
    pub fn supports(path: &str) -> (b: bool)
        ensures
            b == Image::spec_supports(path),
    {
        match file_extension(path) {
            Ok(ext) => is_png(ext),
            Err(_) => false,
        }
    }

    /// An image, under a new identifier, from the name of a file and its
    /// bytes. A file whose name `supports` does not accept is refused.
    pub fn new(path: &str, bytes: &[u8]) -> (r: Result<Image, Error>)
        ensures
            extension(path@) != "png"@ ==> r == Err::<Image, Error>(Error::UnsupportedMedia),
            extension(path@) == "png"@ ==> (r matches Ok(image) && image.url@ == Image::png_url(
                base64_standard(bytes@),
            )),
    {
        if !Image::supports(path) {
            return Err(Error::UnsupportedMedia);
        }
        let encoded = encode_base64(bytes);
        Ok(Image::from_png_base64(encoded.as_str()))
    }
}

} // verus!
