use vstd::prelude::*;

use crate::error::ExtractError;

verus! {

/// Data type tag of a texture whose samples are unsigned bytes.
pub const LIGHTCACHETEX_BYTE: i8 = 1;

/// Data type tag of a texture whose samples are 32-bit floats.
pub const LIGHTCACHETEX_FLOAT: i8 = 2;

/// Data type tag of a texture whose samples are packed 32-bit words.
pub const LIGHTCACHETEX_UINT: i8 = 4;

/// How the samples of a cached texture are stored.
#[derive(Clone, Copy, Debug, PartialEq, Eq, Structural)]
pub enum DataKind {
    Byte,
    Float,
    PackedUint,
}

/// Pixel format of a texture container.
#[derive(Clone, Copy, Debug, PartialEq, Eq, Structural)]
pub enum PixelFormat {
    /// One 8-bit unsigned normalized channel.
    R8Unorm,
    /// Two 8-bit unsigned normalized channels.
    Rg8Unorm,
    /// Four 8-bit unsigned normalized channels.
    Rgba8Unorm,
    /// One 32-bit float channel.
    R32Float,
    /// Two 32-bit float channels.
    Rg32Float,
    /// Three 32-bit float channels.
    Rgb32Float,
    /// Four 32-bit float channels.
    Rgba32Float,
    /// Three float channels of 11, 11 and 10 bits packed in 32 bits.
    R11G11B10Float,
}

/// The data kind that a data type tag stands for, if any.
pub open spec fn kind_of_tag(data_type: i8) -> Option<DataKind> {
    if data_type == LIGHTCACHETEX_BYTE {
        Some(DataKind::Byte)
    } else if data_type == LIGHTCACHETEX_FLOAT {
        Some(DataKind::Float)
    } else if data_type == LIGHTCACHETEX_UINT {
        Some(DataKind::PackedUint)
    } else {
        None
    }
}

/// The table of supported layouts: the pixel format of a texture of the
/// given kind with the given number of components, if there is one.
pub open spec fn format_of(kind: DataKind, components: int) -> Option<PixelFormat> {
    match kind {
        DataKind::Byte => if components == 1 {
            Some(PixelFormat::R8Unorm)
        } else if components == 2 {
            Some(PixelFormat::Rg8Unorm)
        } else if components == 4 {
            Some(PixelFormat::Rgba8Unorm)
        } else {
            None
        },
        DataKind::Float => if components == 1 {
            Some(PixelFormat::R32Float)
        } else if components == 2 {
            Some(PixelFormat::Rg32Float)
        } else if components == 3 {
            Some(PixelFormat::Rgb32Float)
        } else if components == 4 {
            Some(PixelFormat::Rgba32Float)
        } else {
            None
        },
        DataKind::PackedUint => if components == 1 {
            Some(PixelFormat::R11G11B10Float)
        } else {
            None
        },
    }
}

/// What resolving a (data type, components) pair yields: the format listed
/// in the table, or the error that says which part of the pair is not in it.
pub open spec fn resolved(data_type: i8, components: i8) -> Result<PixelFormat, ExtractError> {
    match kind_of_tag(data_type) {
        None => Err(ExtractError::UnknownDataKind { data_type }),
        Some(kind) => match format_of(kind, components as int) {
            Some(format) => Ok(format),
            None => Err(ExtractError::UnsupportedComponents { kind, components }),
        },
    }
}

impl DataKind {
    /// Reads a data type tag.
    pub fn from_tag(data_type: i8) -> (kind: Option<DataKind>)
        ensures
            kind == kind_of_tag(data_type),
    {
        if data_type == LIGHTCACHETEX_BYTE {
            Some(DataKind::Byte)
        } else if data_type == LIGHTCACHETEX_FLOAT {
            Some(DataKind::Float)
        } else if data_type == LIGHTCACHETEX_UINT {
            Some(DataKind::PackedUint)
        } else {
            None
        }
    }
}

impl PixelFormat {
    /// Size of one pixel in bytes.
    pub open spec fn spec_bytes_per_pixel(self) -> usize {
        match self {
            PixelFormat::R8Unorm => 1,
            PixelFormat::Rg8Unorm => 2,
            PixelFormat::Rgba8Unorm => 4,
            PixelFormat::R32Float => 4,
            PixelFormat::Rg32Float => 8,
            PixelFormat::Rgb32Float => 12,
            PixelFormat::Rgba32Float => 16,
            PixelFormat::R11G11B10Float => 4,
        }
    }

    /// Size of one pixel in bytes.
    #[verifier::when_used_as_spec(spec_bytes_per_pixel)]
    pub fn bytes_per_pixel(self) -> (bytes: usize)
        ensures
            bytes == self.spec_bytes_per_pixel(),
    {
        match self {
            PixelFormat::R8Unorm => 1,
            PixelFormat::Rg8Unorm => 2,
            PixelFormat::Rgba8Unorm => 4,
            PixelFormat::R32Float => 4,
            PixelFormat::Rg32Float => 8,
            PixelFormat::Rgb32Float => 12,
            PixelFormat::Rgba32Float => 16,
            PixelFormat::R11G11B10Float => 4,
        }
    }

    /// The number that identifies this format in a DXGI texture header.
    pub open spec fn spec_dxgi_format(self) -> u32 {
        match self {
            PixelFormat::Rgba32Float => 2,
            PixelFormat::Rgb32Float => 6,
            PixelFormat::Rg32Float => 16,
            PixelFormat::R11G11B10Float => 26,
            PixelFormat::Rgba8Unorm => 28,
            PixelFormat::R32Float => 41,
            PixelFormat::Rg8Unorm => 49,
            PixelFormat::R8Unorm => 61,
        }
    }

    /// The number that identifies this format in a DXGI texture header.
    #[verifier::when_used_as_spec(spec_dxgi_format)]
    pub fn dxgi_format(self) -> (code: u32)
        ensures
            code == self.spec_dxgi_format(),
    {
        match self {
            PixelFormat::Rgba32Float => 2,
            PixelFormat::Rgb32Float => 6,
            PixelFormat::Rg32Float => 16,
            PixelFormat::R11G11B10Float => 26,
            PixelFormat::Rgba8Unorm => 28,
            PixelFormat::R32Float => 41,
            PixelFormat::Rg8Unorm => 49,
            PixelFormat::R8Unorm => 61,
        }
    }
}

/// Resolves the pixel format of a cached texture from its data type tag and
/// its number of components.
///
/// Only the pairs of the table are accepted. Any other pair is an error,
/// never a guess: it means that the cache was written in a layout that this
/// library does not know.
pub fn resolve(data_type: i8, components: i8) -> (outcome: Result<PixelFormat, ExtractError>)
    ensures
        outcome == resolved(data_type, components),
{
    match DataKind::from_tag(data_type) {
        None => Err(ExtractError::UnknownDataKind { data_type }),
        Some(kind) => {
            let format = match kind {
                DataKind::Byte => match components {
                    1 => Some(PixelFormat::R8Unorm),
                    2 => Some(PixelFormat::Rg8Unorm),
                    4 => Some(PixelFormat::Rgba8Unorm),
                    _ => None,
                },
                DataKind::Float => match components {
                    1 => Some(PixelFormat::R32Float),
                    2 => Some(PixelFormat::Rg32Float),
                    3 => Some(PixelFormat::Rgb32Float),
                    4 => Some(PixelFormat::Rgba32Float),
                    _ => None,
                },
                DataKind::PackedUint => match components {
                    1 => Some(PixelFormat::R11G11B10Float),
                    _ => None,
                },
            };
            match format {
                Some(format) => Ok(format),
                None => Err(ExtractError::UnsupportedComponents { kind, components }),
            }
        },
    }
}

/// The DXGI format number of a cached texture with a supported layout.
pub fn lightcache_type_to_dxgi(data_type: i8, components: i8) -> (code: u32)
    requires
        resolved(data_type, components) is Ok,
    ensures
        code == resolved(data_type, components)->Ok_0.dxgi_format(),
{
    match resolve(data_type, components) {
        Ok(format) => format.dxgi_format(),
        Err(_) => unreached(),
    }
}

/// Every format of the table has a fixed pixel size, given by the layout
/// that it is listed for: one byte for each component of a byte texture,
/// four bytes for each component of a float texture, and four bytes for a
/// packed pixel.
pub proof fn lemma_pixel_size(kind: DataKind, components: int)
    requires
        format_of(kind, components) is Some,
    ensures
        format_of(kind, components)->0.bytes_per_pixel() == (match kind {
            DataKind::Byte => components,
            DataKind::Float => 4 * components,
            DataKind::PackedUint => 4,
        }),
{
}

} // verus!
