use vstd::prelude::*;

verus! {

/// An image.
#[derive(Debug, Clone)]
pub struct Image {
    /// The image's unique ID.
    pub id: i64,
    /// If the image was fetched from an external source, the URL of that source.
    pub source_url: Option<String>,
}

} // verus!
