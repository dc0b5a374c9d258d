//! The glyph atlas: one single-channel texture that holds the rasterized
//! coverage of every visible glyph.
//!
//! The graphics API cannot resize a texture, so growing the atlas is always
//! "delete the old texture, create a new one". Everything uploaded before is
//! lost and has to be rasterized again.

use vstd::prelude::*;
use crate::codes::{
    CLAMP_TO_EDGE, LINEAR, RED, TEXTURE_2D, TEXTURE_MAG_FILTER, TEXTURE_MIN_FILTER, TEXTURE_WRAP_S,
    TEXTURE_WRAP_T, UNPACK_ALIGNMENT, UNSIGNED_BYTE,
};

verus! {

/// The byte that `clear` fills the atlas with. It only makes unused atlas space
/// visible while debugging.
pub const CLEAR_SENTINEL: u8 = 12;

/// The largest extent that the driver's signed size parameters can carry.
pub const MAX_EXTENT: u32 = 0x7FFF_FFFF;

/// A rectangle of texels, given by its corners as (x, y) pairs.
#[derive(Clone, Copy, Debug, PartialEq, Eq)]
pub struct Region {
    pub min: (u32, u32),
    pub max: (u32, u32),
}

impl Region {
    pub open spec fn ordered(self) -> bool {
        self.min.0 <= self.max.0 && self.min.1 <= self.max.1
    }

    pub open spec fn spec_width(self) -> int {
        self.max.0 - self.min.0
    }

    pub open spec fn spec_height(self) -> int {
        self.max.1 - self.min.1
    }

    pub open spec fn area(self) -> int {
        self.spec_width() * self.spec_height()
    }
}

/// Everything the driver has to be told to allocate the atlas texture.
#[derive(Clone, Copy, Debug, PartialEq, Eq)]
pub struct TextureSpec {
    pub name: u32,
    /// The pixel store parameter to set before anything is uploaded, and its
    /// value.
    pub pixel_store: (u32, i32),
    pub target: u32,
    /// The texture parameters and their values, in the order in which they
    /// are set.
    pub parameters: [(u32, i32); 4],
    pub level: i32,
    pub internal_format: i32,
    pub width: i32,
    pub height: i32,
    pub border: i32,
    pub format: u32,
    pub pixel_type: u32,
}

/// Fills the whole of one texture level with one byte.
#[derive(Clone, Copy, Debug, PartialEq, Eq)]
pub struct ClearCommand {
    pub name: u32,
    pub target: u32,
    pub level: i32,
    pub format: u32,
    pub pixel_type: u32,
    pub value: u8,
}

/// Writes a patch of coverage bytes into the atlas.
#[derive(Clone, Copy, Debug, PartialEq, Eq)]
pub struct SubImage {
    pub name: u32,
    pub target: u32,
    pub level: i32,
    pub x: i32,
    pub y: i32,
    pub width: i32,
    pub height: i32,
    pub format: u32,
    pub pixel_type: u32,
}

/// The atlas texture: the driver's name for it and the size it was allocated
/// with.
#[derive(Debug)]
pub struct GlGlyphTexture {
    pub name: u32,
    pub width: u32,
    pub height: u32,
}

impl GlGlyphTexture {
    /// Both extents fit the driver's signed size parameters.
    pub open spec fn wf(&self) -> bool {
        self.width <= MAX_EXTENT && self.height <= MAX_EXTENT
    }

    /// `region` lies inside the texture and `data_len` bytes cover it exactly,
    /// one byte a texel.
    pub open spec fn accepts(&self, region: Region, data_len: usize) -> bool {
        &&& region.ordered()
        &&& region.max.0 <= self.width
        &&& region.max.1 <= self.height
        &&& data_len == region.area()
    }

    /// Records the texture that the driver generated under `name` as an atlas
    /// of `width` by `height` texels.
    pub fn new(size: (u32, u32), name: u32) -> (texture: Self)
        requires
            size.0 <= MAX_EXTENT,
            size.1 <= MAX_EXTENT,
        ensures
            texture.name == name,
            texture.width == size.0,
            texture.height == size.1,
            texture.wf(),
    {
        GlGlyphTexture { name, width: size.0, height: size.1 }
    }

    /// Whether the texture is well formed.
    pub fn is_well_formed(&self) -> (ok: bool)
        ensures
            ok == self.wf(),
    {
        self.width <= MAX_EXTENT && self.height <= MAX_EXTENT
    }

    /// The size that the texture was allocated with.
    pub fn dimensions(&self) -> (dims: (u32, u32))
        ensures
            dims == (self.width, self.height),
    {
        (self.width, self.height)
    }

    /// The request that allocates this texture's storage: rows packed
    /// without padding, edge clamping and linear filtering on both axes, one
    /// red channel of bytes, no initial data.
    pub fn storage(&self) -> (spec: TextureSpec)
        requires
            self.wf(),
        ensures
            spec.name == self.name,
            spec.pixel_store == (UNPACK_ALIGNMENT, 1i32),
            spec.target == TEXTURE_2D,
            spec.parameters[0] == (TEXTURE_WRAP_S, CLAMP_TO_EDGE as i32),
            spec.parameters[1] == (TEXTURE_WRAP_T, CLAMP_TO_EDGE as i32),
            spec.parameters[2] == (TEXTURE_MIN_FILTER, LINEAR as i32),
            spec.parameters[3] == (TEXTURE_MAG_FILTER, LINEAR as i32),
            spec.level == 0,
            spec.internal_format == RED,
            spec.width == self.width,
            spec.height == self.height,
            spec.border == 0,
            spec.format == RED,
            spec.pixel_type == UNSIGNED_BYTE,
    {
        TextureSpec {
            name: self.name,
            pixel_store: (UNPACK_ALIGNMENT, 1),
            target: TEXTURE_2D,
            parameters: [
                (TEXTURE_WRAP_S, CLAMP_TO_EDGE as i32),
                (TEXTURE_WRAP_T, CLAMP_TO_EDGE as i32),
                (TEXTURE_MIN_FILTER, LINEAR as i32),
                (TEXTURE_MAG_FILTER, LINEAR as i32),
            ],
            level: 0,
            internal_format: RED as i32,
            width: self.width as i32,
            height: self.height as i32,
            border: 0,
            format: RED,
            pixel_type: UNSIGNED_BYTE,
        }
    }

    /// Fills the entire texture with `CLEAR_SENTINEL`.
    pub fn clear(&self) -> (command: ClearCommand)
        ensures
            command == (ClearCommand {
                name: self.name,
                target: TEXTURE_2D,
                level: 0,
                format: RED,
                pixel_type: UNSIGNED_BYTE,
                value: CLEAR_SENTINEL,
            }),
    {
        ClearCommand {
            name: self.name,
            target: TEXTURE_2D,
            level: 0,
            format: RED,
            pixel_type: UNSIGNED_BYTE,
            value: CLEAR_SENTINEL,
        }
    }

    /// Whether a patch of `data_len` bytes for `region` may be uploaded.
    pub fn fits(&self, region: Region, data_len: usize) -> (ok: bool)
        ensures
            ok == self.accepts(region, data_len),
    {
        if region.min.0 > region.max.0 || region.min.1 > region.max.1 {
            return false;
        }
        if region.max.0 > self.width || region.max.1 > self.height {
            return false;
        }
        let w: u64 = (region.max.0 - region.min.0) as u64;
        let h: u64 = (region.max.1 - region.min.1) as u64;
        assert(w * h <= 0xFFFF_FFFF * 0xFFFF_FFFF) by (nonlinear_arith)
            requires
                w <= 0xFFFF_FFFF,
                h <= 0xFFFF_FFFF,
        ;
        let area: u64 = w * h;
        data_len as u64 == area
    }

    /// The sub-image upload of the patch `region`, at the region's own offset
    /// and size.
    pub fn upload_region(&self, region: Region, data_len: usize) -> (upload: SubImage)
        requires
            self.wf(),
            self.accepts(region, data_len),
        ensures
            upload == (SubImage {
                name: self.name,
                target: TEXTURE_2D,
                level: 0,
                x: region.min.0 as i32,
                y: region.min.1 as i32,
                width: region.spec_width() as i32,
                height: region.spec_height() as i32,
                format: RED,
                pixel_type: UNSIGNED_BYTE,
            }),
            upload.x == region.min.0,
            upload.y == region.min.1,
            upload.x + upload.width == region.max.0,
            upload.y + upload.height == region.max.1,
            upload.x + upload.width <= self.width,
            upload.y + upload.height <= self.height,
    {
        SubImage {
            name: self.name,
            target: TEXTURE_2D,
            level: 0,
            x: region.min.0 as i32,
            y: region.min.1 as i32,
            width: (region.max.0 - region.min.0) as i32,
            height: (region.max.1 - region.min.1) as i32,
            format: RED,
            pixel_type: UNSIGNED_BYTE,
        }
    }

    /// The name to delete when the texture is given up.
    pub fn destroy(&self) -> (name: u32)
        ensures
            name == self.name,
    {
        self.name
    }
}

/// Whether an atlas suggestion overshoots a device that the current atlas has
/// not exhausted yet: some suggested extent is above the device's largest
/// texture size while some current extent is still below it.
pub open spec fn grows_to_device_max(suggested: (u32, u32), current: (u32, u32), device_max: u32) -> bool {
    (suggested.0 > device_max || suggested.1 > device_max)
        && (current.0 < device_max || current.1 < device_max)
}

/// The size at which the atlas is recreated after the layout engine found it
/// too small: the device's largest square where the suggestion overshoots a
/// device that is not exhausted yet, the suggestion itself otherwise.
pub open spec fn resolved_size(suggested: (u32, u32), current: (u32, u32), device_max: u32) -> (u32, u32) {
    if grows_to_device_max(suggested, current, device_max) {
        (device_max, device_max)
    } else {
        suggested
    }
}

/// Resolves the layout engine's suggestion against the device's largest
/// texture size.
pub fn resolve_atlas_size(suggested: (u32, u32), current: (u32, u32), device_max: u32) -> (size: (u32, u32))
    ensures
        size == resolved_size(suggested, current, device_max),
{
    if (suggested.0 > device_max || suggested.1 > device_max) && (current.0 < device_max
        || current.1 < device_max) {
        (device_max, device_max)
    } else {
        suggested
    }
}

/// A suggestion that exceeds the device's largest texture size, made for an
/// atlas that is still under that size on some axis, resolves to the device's
/// largest square and never to the suggestion.
pub proof fn lemma_oversized_suggestion_resolves_to_device_max(
    suggested: (u32, u32),
    current: (u32, u32),
    device_max: u32,
)
    requires
        suggested.0 > device_max || suggested.1 > device_max,
        current.0 < device_max || current.1 < device_max,
    ensures
        resolved_size(suggested, current, device_max) == (device_max, device_max),
        resolved_size(suggested, current, device_max) != suggested,
{
}

/// Whatever is resolved either is the suggestion or stays within the device's
/// largest texture size.
pub proof fn lemma_resolved_size_is_suggestion_or_device_max(
    suggested: (u32, u32),
    current: (u32, u32),
    device_max: u32,
)
    ensures
        ({
            let size = resolved_size(suggested, current, device_max);
            size == suggested || size == (device_max, device_max)
        }),
        (suggested.0 <= device_max && suggested.1 <= device_max) ==> resolved_size(
            suggested,
            current,
            device_max,
        ) == suggested,
{
}

} // verus!
