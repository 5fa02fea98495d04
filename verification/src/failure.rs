//! The ways in which a conversion can fail.

use vstd::prelude::*;
use crate::web_url::UrlRejection;

verus! {

/// A field of the article record that the document cannot be built without.
#[derive(Clone, Copy, Debug, PartialEq, Eq, Structural)]
pub enum RequiredField {
    /// The article's title.
    Title,
    /// The article's author line.
    Byline,
    /// The article's body markup.
    Content,
}

/// What is wrong with one image reference.
#[derive(Clone, Copy, Debug, PartialEq, Eq, Structural)]
pub enum ReferenceFault {
    /// The image element has no `src` attribute.
    MissingSource,
    /// The `src` attribute spells no address, neither alone nor against the page.
    Rejected(UrlRejection),
}

/// Why a conversion was given up.
#[derive(Clone, Copy, Debug, PartialEq, Eq, Structural)]
pub enum Failure {
    /// A resource could not be fetched.
    Transport,
    /// A file or directory could not be written, read or removed.
    Filesystem,
    /// The extractor could not be run, or its record could not be read.
    Extraction,
    /// The article's markup holds more tags than the markup parser is given.
    ContentTooLarge,
    /// The article record lacks a field that the document needs.
    MissingRequiredField(RequiredField),
    /// The image at `index`, counted in document order, has a reference that cannot be resolved.
    ImageReferenceMalformed { index: usize, fault: ReferenceFault },
    /// The stored image at `index` is not an image that can be decoded.
    ImageDecode { index: usize },
    /// The document container could not be built.
    ContainerBuild,
    /// The caller reported something that the conversion was not waiting for.
    UnexpectedEvent,
}

} // verus!
