//! Assets: files (images, PDFs, videos, ...) embedded in a block.

use crate::value_objects::{Align, AssetType, Uuid};
use vstd::prelude::*;

verus! {

/// An asset embedded in a block: an uploaded file, or an external URL.
#[derive(Debug, Clone, PartialEq)]
pub struct Asset {
    block_id: Uuid,
    file_id: Uuid,
    asset_type: AssetType,
    width: Option<i32>,
    height: Option<i32>,
    align: Align,
    external_url: Option<String>,
}

impl Asset {
    /// The block the asset is embedded in.
    pub closed spec fn spec_block_id(&self) -> Uuid {
        self.block_id
    }

    /// The file of the asset.
    pub closed spec fn spec_file_id(&self) -> Uuid {
        self.file_id
    }

    /// The kind of asset.
    pub closed spec fn spec_asset_type(&self) -> AssetType {
        self.asset_type
    }

    /// Display width, if set.
    pub closed spec fn spec_width(&self) -> Option<i32> {
        self.width
    }

    /// Display height, if set.
    pub closed spec fn spec_height(&self) -> Option<i32> {
        self.height
    }

    /// Display alignment.
    pub closed spec fn spec_align(&self) -> Align {
        self.align
    }

    /// The external URL, for an asset that was linked rather than uploaded.
    pub closed spec fn spec_external_url(&self) -> Option<Seq<char>> {
        match self.external_url {
            Some(u) => Some(u@),
            None => None,
        }
    }

    /// An uploaded asset of `file_id` in block `block_id`: no dimensions,
    /// centred.
    pub fn new(block_id: Uuid, file_id: Uuid, asset_type: AssetType) -> (res: Asset)
        ensures
            res.spec_block_id() == block_id,
            res.spec_file_id() == file_id,
            res.spec_asset_type() == asset_type,
            res.spec_width() is None,
            res.spec_height() is None,
            res.spec_align() == Align::Center,
            res.spec_external_url() is None,
    {
        Asset {
            block_id,
            file_id,
            asset_type,
            width: None,
            height: None,
            align: Align::Center,
            external_url: None,
        }
    }

    /// An image linked by URL, not uploaded, with a fresh random file id.
    pub fn external(block_id: Uuid, url: String) -> (res: Asset)
        ensures
            res.spec_block_id() == block_id,
            res.spec_file_id().value != 0,
            res.spec_asset_type() == AssetType::Image,
            res.spec_width() is None,
            res.spec_height() is None,
            res.spec_align() == Align::Center,
            res.spec_external_url() == Some(url@),
    {
        Asset {
            block_id,
            file_id: Uuid::new_v4(),
            asset_type: AssetType::Image,
            width: None,
            height: None,
            align: Align::Center,
            external_url: Some(url),
        }
    }

    /// The block the asset is embedded in.
    pub fn block_id(&self) -> (res: Uuid)
        ensures
            res == self.spec_block_id(),
    {
        self.block_id
    }

    /// The file of the asset.
    pub fn file_id(&self) -> (res: Uuid)
        ensures
            res == self.spec_file_id(),
    {
        self.file_id
    }

    /// The kind of asset.
    pub fn asset_type(&self) -> (res: AssetType)
        ensures
            res == self.spec_asset_type(),
    {
        self.asset_type
    }

    /// Whether the asset is linked by URL.
    pub fn is_external(&self) -> (res: bool)
        ensures
            res == self.spec_external_url() is Some,
    {
        self.external_url.is_some()
    }

    /// The asset with the given display dimensions; nothing else changes.
    pub fn with_dimensions(self, width: i32, height: i32) -> (res: Asset)
        ensures
            res.spec_width() == Some(width),
            res.spec_height() == Some(height),
            res.spec_block_id() == self.spec_block_id(),
            res.spec_file_id() == self.spec_file_id(),
            res.spec_asset_type() == self.spec_asset_type(),
            res.spec_align() == self.spec_align(),
            res.spec_external_url() == self.spec_external_url(),
    {
        Asset { width: Some(width), height: Some(height), ..self }
    }

    /// The asset with the given alignment; nothing else changes.
    pub fn with_align(self, align: Align) -> (res: Asset)
        ensures
            res.spec_align() == align,
            res.spec_width() == self.spec_width(),
            res.spec_height() == self.spec_height(),
            res.spec_block_id() == self.spec_block_id(),
            res.spec_file_id() == self.spec_file_id(),
            res.spec_asset_type() == self.spec_asset_type(),
            res.spec_external_url() == self.spec_external_url(),
    {
        Asset { align, ..self }
    }

    /// The two terms of the aspect ratio (width over height): present when
    /// both dimensions are set and the height is positive.
    pub fn aspect_ratio_terms(&self) -> (res: Option<(i32, i32)>)
        ensures
            res == (match (self.spec_width(), self.spec_height()) {
                (Some(w), Some(h)) => if h > 0 {
                    Some((w, h))
                } else {
                    None
                },
                _ => None,
            }),
    {
        match (self.width, self.height) {
            (Some(w), Some(h)) => if h > 0 {
                Some((w, h))
            } else {
                None
            },
            _ => None,
        }
    }
}

} // verus!
