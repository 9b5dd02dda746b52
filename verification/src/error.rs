//! Error types of the library.

use vstd::prelude::*;
use crate::texture::TextureError;

verus! {

/// An I/O failure reported while writing a file.
#[verifier::external_type_specification]
#[verifier::external_body]
pub struct ExIoError(std::io::Error);

/// A failure of JSON serialization.
#[verifier::external_type_specification]
#[verifier::external_body]
pub struct ExJsonError(serde_json::Error);

/// Errors of building and exporting a glTF document.
#[derive(Debug)]
pub enum GltfError {
    /// Writing the output failed.
    Io(std::io::Error),
    /// Serializing the document to JSON failed.
    Json(serde_json::Error),
    /// The document does not hold what the operation needs.
    InvalidData(String),
    /// An index does not name an existing object.
    InvalidIndex,
    /// Encoding a texture image failed.
    Texture(TextureError),
}

impl From<std::io::Error> for GltfError {
    /// Wraps an I/O error.
    fn from(err: std::io::Error) -> (r: GltfError) {
        GltfError::Io(err)
    }
}

impl vstd::std_specs::convert::FromSpecImpl<std::io::Error> for GltfError {
    open spec fn obeys_from_spec() -> bool {
        true
    }

    open spec fn from_spec(v: std::io::Error) -> GltfError {
        GltfError::Io(v)
    }
}

impl From<serde_json::Error> for GltfError {
    /// Wraps a JSON error.
    fn from(err: serde_json::Error) -> (r: GltfError) {
        GltfError::Json(err)
    }
}

impl vstd::std_specs::convert::FromSpecImpl<serde_json::Error> for GltfError {
    open spec fn obeys_from_spec() -> bool {
        true
    }

    open spec fn from_spec(v: serde_json::Error) -> GltfError {
        GltfError::Json(v)
    }
}

impl From<TextureError> for GltfError {
    /// Wraps a texture error.
    fn from(err: TextureError) -> (r: GltfError) {
        GltfError::Texture(err)
    }
}

impl vstd::std_specs::convert::FromSpecImpl<TextureError> for GltfError {
    open spec fn obeys_from_spec() -> bool {
        true
    }

    open spec fn from_spec(v: TextureError) -> GltfError {
        GltfError::Texture(v)
    }
}

/// Result of operations that can fail with a [`GltfError`].
pub type Result<T> = std::result::Result<T, GltfError>;

} // verus!
