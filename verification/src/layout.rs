use vstd::prelude::*;

use crate::error::ExtractError;
use crate::format::PixelFormat;

verus! {

/// Number of faces of a cube map.
pub const CUBE_FACES: i32 = 6;

/// Declared size of a cached texture.
#[derive(Clone, Copy, Debug, PartialEq, Eq, Structural)]
pub struct TextureSize {
    pub width: i32,
    pub height: i32,
    /// Number of slices: cube faces of a cube texture, layers of a grid.
    pub depth: i32,
}

/// Shape of a texture container.
#[derive(Clone, Copy, Debug, PartialEq, Eq, Structural)]
pub struct ContainerShape {
    pub width: i32,
    pub height: i32,
    /// Number of slices of the texture that the container is made for.
    pub depth: i32,
    /// Number of mip levels, the base level included.
    pub mip_count: usize,
    /// Number of array elements: cubes of a cube map array, layers of a grid.
    pub array_size: i32,
    pub is_cubemap: bool,
    pub format: PixelFormat,
}

impl ContainerShape {
    /// A cube map array has six slices for each of its elements, and only a
    /// cube map array has a mip chain.
    pub open spec fn wf(self) -> bool {
        &&& self.is_cubemap ==> self.depth == CUBE_FACES * self.array_size
        &&& !self.is_cubemap ==> self.mip_count == 1
    }
}

/// Whether a texture with this many slices can be a cube map array.
pub open spec fn is_cube_depth(depth: i32) -> bool {
    depth as int % 6 == 0
}

/// The container that a texture is packed in.
///
/// A cube texture becomes a cube map array with one element for every six
/// slices and one mip level more than it has mip records; its slice count
/// has to be a multiple of six. Any other texture becomes a flat array with
/// one element for each slice and a single mip level.
pub open spec fn planned(
    size: TextureSize,
    mip_records: usize,
    is_cube: bool,
    format: PixelFormat,
) -> Result<ContainerShape, ExtractError> {
    if !is_cube {
        Ok(
            ContainerShape {
                width: size.width,
                height: size.height,
                depth: size.depth,
                mip_count: 1,
                array_size: size.depth,
                is_cubemap: false,
                format,
            },
        )
    } else if is_cube_depth(size.depth) {
        Ok(
            ContainerShape {
                width: size.width,
                height: size.height,
                depth: size.depth,
                mip_count: (mip_records + 1) as usize,
                array_size: (size.depth as int / 6) as i32,
                is_cubemap: true,
                format,
            },
        )
    } else {
        Err(ExtractError::InvalidCubeGeometry { depth: size.depth })
    }
}

/// Plans the container of a texture with the given size and number of mip
/// records, as a cube map array if `is_cube` is set and as a flat grid
/// otherwise.
pub fn plan(size: TextureSize, mip_records: usize, is_cube: bool, format: PixelFormat) -> (outcome:
    Result<ContainerShape, ExtractError>)
    requires
        is_cube ==> mip_records < usize::MAX,
    ensures
        outcome == planned(size, mip_records, is_cube, format),
        outcome matches Ok(shape) ==> shape.wf() && shape.width == size.width && shape.height
            == size.height && shape.format == format,
        is_cube && !is_cube_depth(size.depth) ==> outcome == Err::<ContainerShape, ExtractError>(
            ExtractError::InvalidCubeGeometry { depth: size.depth },
        ),
        is_cube && is_cube_depth(size.depth) ==> outcome is Ok && outcome->Ok_0.is_cubemap
            && outcome->Ok_0.array_size == size.depth as int / 6 && outcome->Ok_0.mip_count
            == mip_records + 1,
        !is_cube ==> outcome is Ok && !outcome->Ok_0.is_cubemap && outcome->Ok_0.mip_count == 1
            && outcome->Ok_0.array_size == size.depth,
{
    if !is_cube {
        Ok(
            ContainerShape {
                width: size.width,
                height: size.height,
                depth: size.depth,
                mip_count: 1,
                array_size: size.depth,
                is_cubemap: false,
                format,
            },
        )
    } else if size.depth % CUBE_FACES == 0 {
        Ok(
            ContainerShape {
                width: size.width,
                height: size.height,
                depth: size.depth,
                mip_count: mip_records + 1,
                array_size: size.depth / CUBE_FACES,
                is_cubemap: true,
                format,
            },
        )
    } else {
        Err(ExtractError::InvalidCubeGeometry { depth: size.depth })
    }
}

} // verus!
