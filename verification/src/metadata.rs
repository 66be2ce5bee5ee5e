use crate::geometry::CropRect;
use vstd::prelude::*;

verus! {

/// What the metadata field of an upload says: the crop rectangle and the
/// user the image belongs to.
#[derive(Clone, Debug)]
pub struct RequestMetadata {
    pub x: u32,
    pub y: u32,
    pub width: u32,
    pub height: u32,
    pub user_id: String,
    pub post_id: Option<String>,
}

/// What the metadata field of an update says: the crop rectangle, the user,
/// and the base name and extension of the image that is replaced.
#[derive(Clone, Debug)]
pub struct RequestMetadataUpdate {
    pub x: u32,
    pub y: u32,
    pub width: u32,
    pub height: u32,
    pub user_id: String,
    pub img_ext: String,
    pub img_name: String,
}

impl RequestMetadata {
    /// The crop rectangle.
    pub fn crop(&self) -> (rect: CropRect)
        ensures
            rect == (CropRect { x: self.x, y: self.y, width: self.width, height: self.height }),
    {
        CropRect { x: self.x, y: self.y, width: self.width, height: self.height }
    }
}

impl RequestMetadataUpdate {
    /// The crop rectangle.
    pub fn crop(&self) -> (rect: CropRect)
        ensures
            rect == (CropRect { x: self.x, y: self.y, width: self.width, height: self.height }),
    {
        CropRect { x: self.x, y: self.y, width: self.width, height: self.height }
    }
}

} // verus!
