//! Why a renderer could not be set up.

use vstd::prelude::*;
use vstd::std_specs::convert::FromSpecImpl;
use crate::shader::ShaderError;

verus! {

/// An error of the `image` crate.  Nothing is known of its contents.
#[verifier::external_type_specification]
#[verifier::external_body]
pub struct ExImageError(image::ImageError);

/// Why a renderer could not be set up.
#[derive(Debug)]
pub enum RendererInitError {
    /// An image could not be loaded.
    ImageError(image::ImageError),
    /// The shader program could not be built.
    ShaderError(ShaderError),
}

impl From<image::ImageError> for RendererInitError {
    fn from(error: image::ImageError) -> (result: RendererInitError) {
        RendererInitError::ImageError(error)
    }
}

impl FromSpecImpl<image::ImageError> for RendererInitError {
    open spec fn obeys_from_spec() -> bool {
        true
    }

    open spec fn from_spec(error: image::ImageError) -> RendererInitError {
        RendererInitError::ImageError(error)
    }
}

impl From<ShaderError> for RendererInitError {
    fn from(error: ShaderError) -> (result: RendererInitError) {
        RendererInitError::ShaderError(error)
    }
}

impl FromSpecImpl<ShaderError> for RendererInitError {
    open spec fn obeys_from_spec() -> bool {
        true
    }

    open spec fn from_spec(error: ShaderError) -> RendererInitError {
        RendererInitError::ShaderError(error)
    }
}

} // verus!
