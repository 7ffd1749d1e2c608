//! The outcome of a successful upload.

use vstd::prelude::*;
use crate::web_url::Url;

verus! {

/// The integral type of thumbnail dimensions.
pub type ThumbnailDimension = u32;

/// The integral type of full-size image dimensions.
pub type FullSizeDimension = u64;

/// A rectangular area.
#[derive(Clone, Copy, Debug, PartialEq, Eq)]
pub struct Rectangle<T> {
    /// The height of the rectangle.
    pub height: T,
    /// The width of the rectangle.
    pub width: T,
}

/// One rendition of an uploaded image: where it is and how large it is.
#[derive(Clone, Debug, PartialEq, Eq)]
pub struct ImageReference<Dimension> {
    /// The dimensions of the referred image.
    pub dimensions: Rectangle<Dimension>,
    /// The URL through which the referred image can be requested.
    pub url: Url,
}

/// A completed image upload.
#[derive(Clone, Debug, PartialEq, Eq)]
pub struct UploadedImage {
    /// The name that the service gave the image, usually an identifier
    /// followed by the extension of the uploaded file (`vwk7b.jpg`), not the
    /// file's own name.
    pub name: String,
    /// The full-size image.
    pub full_size: ImageReference<FullSizeDimension>,
    /// A page that shows the uploaded image.
    pub view_url: Url,
    /// A thumbnail of the uploaded image.
    pub thumbnail: ImageReference<ThumbnailDimension>,
    /// Whether the service resized the image on upload.
    pub was_resized: bool,
}

/// What an `ImageReference` holds.
pub struct ImageReferenceView<Dimension> {
    pub dimensions: Rectangle<Dimension>,
    pub url: Seq<char>,
}

/// What an `UploadedImage` holds.
pub struct UploadedImageView {
    pub name: Seq<char>,
    pub full_size: ImageReferenceView<FullSizeDimension>,
    pub view_url: Seq<char>,
    pub thumbnail: ImageReferenceView<ThumbnailDimension>,
    pub was_resized: bool,
}

impl<Dimension> View for ImageReference<Dimension> {
    type V = ImageReferenceView<Dimension>;

    open spec fn view(&self) -> ImageReferenceView<Dimension> {
        ImageReferenceView { dimensions: self.dimensions, url: self.url@ }
    }
}

impl View for UploadedImage {
    type V = UploadedImageView;

    open spec fn view(&self) -> UploadedImageView {
        UploadedImageView {
            name: self.name@,
            full_size: self.full_size@,
            view_url: self.view_url@,
            thumbnail: self.thumbnail@,
            was_resized: self.was_resized,
        }
    }
}

} // verus!
