use vstd::prelude::*;

use crate::error::ExtractError;
use crate::format::{resolve, resolved, PixelFormat};
use crate::layout::{is_cube_depth, plan, planned, ContainerShape, TextureSize};
use crate::payload::{cast_bytes, payloads, unsigned};

verus! {

/// Status bit of a light cache that has been baked.
pub const LIGHTCACHE_BAKED: i32 = 1;

/// Status bit of a light cache whose cube texture is complete.
pub const LIGHTCACHE_CUBE_READY: i32 = 4;

/// Status bit of a light cache whose grid texture is complete.
pub const LIGHTCACHE_GRID_READY: i32 = 8;

/// Status of a light cache.
#[derive(Clone, Copy, Debug, PartialEq, Eq, Structural)]
pub struct StatusFlags {
    pub baked: bool,
    pub cube_ready: bool,
    pub grid_ready: bool,
}

impl StatusFlags {
    /// The status that a flag word stands for.
    pub open spec fn decoded(bits: i32) -> StatusFlags {
        StatusFlags {
            baked: bits & LIGHTCACHE_BAKED == LIGHTCACHE_BAKED,
            cube_ready: bits & LIGHTCACHE_CUBE_READY == LIGHTCACHE_CUBE_READY,
            grid_ready: bits & LIGHTCACHE_GRID_READY == LIGHTCACHE_GRID_READY,
        }
    }

    /// Reads the status bits of a flag word; all other bits are ignored.
    pub fn from_bits(bits: i32) -> (flags: StatusFlags)
        ensures
            flags == Self::decoded(bits),
    {
        StatusFlags {
            baked: bits & LIGHTCACHE_BAKED == LIGHTCACHE_BAKED,
            cube_ready: bits & LIGHTCACHE_CUBE_READY == LIGHTCACHE_CUBE_READY,
            grid_ready: bits & LIGHTCACHE_GRID_READY == LIGHTCACHE_GRID_READY,
        }
    }

    /// Whether the cube texture has to be extracted.
    pub open spec fn spec_wants_cube(self) -> bool {
        self.baked && self.cube_ready
    }

    /// Whether the cube texture has to be extracted: only from a baked
    /// cache whose cube texture is complete.
    #[verifier::when_used_as_spec(spec_wants_cube)]
    pub fn wants_cube(self) -> (wanted: bool)
        ensures
            wanted == self.spec_wants_cube(),
    {
        self.baked && self.cube_ready
    }

    /// Whether the grid texture has to be extracted.
    pub open spec fn spec_wants_grid(self) -> bool {
        self.baked && self.grid_ready
    }

    /// Whether the grid texture has to be extracted: only from a baked
    /// cache whose grid texture is complete.
    #[verifier::when_used_as_spec(spec_wants_grid)]
    pub fn wants_grid(self) -> (wanted: bool)
        ensures
            wanted == self.spec_wants_grid(),
    {
        self.baked && self.grid_ready
    }
}

/// Which texture of a light cache a container is made from.
#[derive(Clone, Copy, Debug, PartialEq, Eq, Structural)]
pub enum TextureRole {
    Cube,
    Grid,
}

impl TextureRole {
    /// Name of the container file, without its extension.
    pub open spec fn spec_file_stem(self) -> Seq<char> {
        match self {
            TextureRole::Cube => "cube_tx"@,
            TextureRole::Grid => "grid_tx"@,
        }
    }

    /// Name of the container file, without its extension.
    pub fn file_stem(self) -> (stem: &'static str)
        ensures
            stem@ == self.spec_file_stem(),
    {
        match self {
            TextureRole::Cube => "cube_tx",
            TextureRole::Grid => "grid_tx",
        }
    }
}

/// The cube texture of a light cache: the faces of its cube maps as
/// slices, with a chain of mip levels.
#[derive(Debug, PartialEq, Eq)]
pub struct CubeTexture {
    pub size: TextureSize,
    pub data_type: i8,
    pub components: i8,
    /// Payload of the base level.
    pub data: Vec<i8>,
    /// Payloads of the mip levels, from the most detailed to the least.
    pub mips: Vec<Vec<i8>>,
}

/// The grid texture of a light cache: a stack of layers without mip levels.
#[derive(Debug, PartialEq, Eq)]
pub struct GridTexture {
    pub size: TextureSize,
    pub data_type: i8,
    pub components: i8,
    pub data: Vec<i8>,
}

/// One texture container to produce: its shape, and the byte runs that
/// fill its buffer, in the order in which they are laid out.
#[derive(Debug, PartialEq, Eq)]
pub struct ContainerJob<'a> {
    pub role: TextureRole,
    pub shape: ContainerShape,
    pub sources: Vec<&'a [u8]>,
}

/// What a container job stands for.
pub struct JobView {
    pub role: TextureRole,
    pub shape: ContainerShape,
    pub payloads: Seq<Seq<u8>>,
}

impl<'a> View for ContainerJob<'a> {
    type V = JobView;

    open spec fn view(&self) -> JobView {
        JobView { role: self.role, shape: self.shape, payloads: payloads(self.sources@) }
    }
}

impl CubeTexture {
    /// The payloads of the texture in container order: the base level, then
    /// the mip levels from the most detailed to the least.
    pub open spec fn payloads(&self) -> Seq<Seq<u8>> {
        seq![unsigned(self.data@)] + self.mips@.map_values(|mip: Vec<i8>| unsigned(mip@))
    }

    /// The container that the texture is extracted to: a cube map array in
    /// the resolved format, or the first reason why there is none.
    pub open spec fn spec_job(&self) -> Result<JobView, ExtractError> {
        match resolved(self.data_type, self.components) {
            Err(error) => Err(error),
            Ok(format) => match planned(self.size, self.mips@.len() as usize, true, format) {
                Err(error) => Err(error),
                Ok(shape) => Ok(
                    JobView { role: TextureRole::Cube, shape, payloads: self.payloads() },
                ),
            },
        }
    }

    /// Resolves the format of the texture, plans its cube map array and
    /// lists its payloads in container order.
    pub fn job(&self) -> (outcome: Result<ContainerJob<'_>, ExtractError>)
        ensures
            (match outcome {
                Ok(job) => self.spec_job() == Ok::<JobView, ExtractError>(job@),
                Err(error) => self.spec_job() == Err::<JobView, ExtractError>(error),
            }),
            outcome is Ok <==> resolved(self.data_type, self.components) is Ok && is_cube_depth(
                self.size.depth,
            ),
            resolved(self.data_type, self.components) is Err ==> outcome is Err && outcome->Err_0
                == resolved(self.data_type, self.components)->Err_0,
            resolved(self.data_type, self.components) is Ok && !is_cube_depth(self.size.depth)
                ==> outcome is Err && outcome->Err_0 == (ExtractError::InvalidCubeGeometry {
                depth: self.size.depth,
            }),
            outcome matches Ok(job) ==> job.role == TextureRole::Cube && job.shape.wf()
                && job.shape.is_cubemap && job.shape.width == self.size.width && job.shape.height
                == self.size.height && job.shape.depth == self.size.depth && job.shape.array_size
                == self.size.depth as int / 6 && job.shape.mip_count == self.mips@.len() + 1
                && resolved(self.data_type, self.components) == Ok::<PixelFormat, ExtractError>(
                job.shape.format,
            ) && payloads(job.sources@) == self.payloads() && job.sources@.len()
                == self.mips@.len() + 1,
    {
        // The sources come first: that they fit in a vector bounds the
        // number of mip levels.
        let mut sources: Vec<&[u8]> = Vec::new();
        sources.push(cast_bytes(self.data.as_slice()));
        let mut level: usize = 0;
        while level < self.mips.len()
            invariant
                level <= self.mips.len(),
                sources@.len() == level + 1,
                sources@[0]@ == unsigned(self.data@),
                forall|i: int|
                    1 <= i <= level ==> (#[trigger] sources@[i])@ == unsigned(self.mips@[i - 1]@),
            decreases self.mips.len() - level,
        {
            sources.push(cast_bytes(self.mips[level].as_slice()));
            level += 1;
        }
        assert(payloads(sources@) =~= self.payloads());
        assert(sources.len() == self.mips.len() + 1);
        let format = match resolve(self.data_type, self.components) {
            Ok(format) => format,
            Err(error) => { return Err(error); },
        };
        match plan(self.size, self.mips.len(), true, format) {
            Ok(shape) => Ok(ContainerJob { role: TextureRole::Cube, shape, sources }),
            Err(error) => Err(error),
        }
    }
}

impl GridTexture {
    /// The single payload of the texture.
    pub open spec fn payloads(&self) -> Seq<Seq<u8>> {
        seq![unsigned(self.data@)]
    }

    /// The container that the texture is extracted to: a flat array with
    /// one mip level in the resolved format, or the reason why there is none.
    pub open spec fn spec_job(&self) -> Result<JobView, ExtractError> {
        match resolved(self.data_type, self.components) {
            Err(error) => Err(error),
            Ok(format) => match planned(self.size, 0, false, format) {
                Err(error) => Err(error),
                Ok(shape) => Ok(
                    JobView { role: TextureRole::Grid, shape, payloads: self.payloads() },
                ),
            },
        }
    }

    /// Resolves the format of the texture, plans its flat container and
    /// hands out its payload.
    pub fn job(&self) -> (outcome: Result<ContainerJob<'_>, ExtractError>)
        ensures
            (match outcome {
                Ok(job) => self.spec_job() == Ok::<JobView, ExtractError>(job@),
                Err(error) => self.spec_job() == Err::<JobView, ExtractError>(error),
            }),
            outcome is Ok <==> resolved(self.data_type, self.components) is Ok,
            resolved(self.data_type, self.components) is Err ==> outcome is Err && outcome->Err_0
                == resolved(self.data_type, self.components)->Err_0,
            outcome matches Ok(job) ==> job.role == TextureRole::Grid && job.shape.wf()
                && !job.shape.is_cubemap && job.shape.width == self.size.width && job.shape.height
                == self.size.height && job.shape.depth == self.size.depth && job.shape.array_size
                == self.size.depth && job.shape.mip_count == 1 && resolved(
                self.data_type,
                self.components,
            ) == Ok::<PixelFormat, ExtractError>(job.shape.format) && payloads(job.sources@)
                == self.payloads() && job.sources@.len() == 1,
    {
        let format = match resolve(self.data_type, self.components) {
            Ok(format) => format,
            Err(error) => { return Err(error); },
        };
        match plan(self.size, 0, false, format) {
            Ok(shape) => {
                let mut sources: Vec<&[u8]> = Vec::new();
                sources.push(cast_bytes(self.data.as_slice()));
                assert(payloads(sources@) =~= self.payloads());
                Ok(ContainerJob { role: TextureRole::Grid, shape, sources })
            },
            Err(error) => Err(error),
        }
    }
}

/// The baked light cache of one scene.
///
/// The cube texture and the grid texture are extracted apart from each
/// other: what becomes of one does not depend on the other.
#[derive(Debug, PartialEq, Eq)]
pub struct LightCacheRecord {
    pub flags: StatusFlags,
    pub cube_tx: Option<CubeTexture>,
    pub grid_tx: Option<GridTexture>,
}

impl LightCacheRecord {
    /// Decides whether the cube texture is extracted, and if so, plans its
    /// container and lists the payloads that fill it.
    ///
    /// Only a baked cache whose cube texture is ready has one extracted;
    /// that texture has to be there. The grid texture has no part in this:
    /// it may be missing, and a grid that cannot be extracted does not keep
    /// the cube container back.
    pub fn cube_job(&self) -> (outcome: Result<Option<ContainerJob<'_>>, ExtractError>)
        requires
            self.flags.wants_cube() ==> self.cube_tx is Some,
        ensures
            (match outcome {
                Ok(None) => !self.flags.wants_cube(),
                Ok(Some(job)) => self.flags.wants_cube() && self.cube_tx->0.spec_job() == Ok::<
                    JobView,
                    ExtractError,
                >(job@),
                Err(error) => self.flags.wants_cube() && self.cube_tx->0.spec_job() == Err::<
                    JobView,
                    ExtractError,
                >(error),
            }),
            self.flags.wants_cube() ==> (outcome is Ok <==> resolved(
                self.cube_tx->0.data_type,
                self.cube_tx->0.components,
            ) is Ok && is_cube_depth(self.cube_tx->0.size.depth)),
            self.flags.wants_cube() && resolved(
                self.cube_tx->0.data_type,
                self.cube_tx->0.components,
            ) is Ok && !is_cube_depth(self.cube_tx->0.size.depth) ==> outcome is Err
                && outcome->Err_0 == (ExtractError::InvalidCubeGeometry {
                depth: self.cube_tx->0.size.depth,
            }),
            outcome matches Ok(Some(job)) ==> job.role == TextureRole::Cube && job.shape.wf()
                && job.shape.is_cubemap && job.shape.width == self.cube_tx->0.size.width
                && job.shape.height == self.cube_tx->0.size.height && job.shape.depth
                == self.cube_tx->0.size.depth && job.shape.array_size
                == self.cube_tx->0.size.depth as int / 6 && job.shape.mip_count
                == self.cube_tx->0.mips@.len() + 1 && resolved(
                self.cube_tx->0.data_type,
                self.cube_tx->0.components,
            ) == Ok::<PixelFormat, ExtractError>(job.shape.format) && payloads(job.sources@)
                == self.cube_tx->0.payloads(),
    {
        if !self.flags.wants_cube() {
            return Ok(None);
        }
        match &self.cube_tx {
            Some(cube) => match cube.job() {
                Ok(job) => Ok(Some(job)),
                Err(error) => Err(error),
            },
            None => unreached(),
        }
    }

    /// Decides whether the grid texture is extracted, and if so, plans its
    /// container and hands out the payload that fills it.
    ///
    /// Only a baked cache whose grid texture is ready has one extracted;
    /// that texture has to be there. The cube texture has no part in this.
    pub fn grid_job(&self) -> (outcome: Result<Option<ContainerJob<'_>>, ExtractError>)
        requires
            self.flags.wants_grid() ==> self.grid_tx is Some,
        ensures
            (match outcome {
                Ok(None) => !self.flags.wants_grid(),
                Ok(Some(job)) => self.flags.wants_grid() && self.grid_tx->0.spec_job() == Ok::<
                    JobView,
                    ExtractError,
                >(job@),
                Err(error) => self.flags.wants_grid() && self.grid_tx->0.spec_job() == Err::<
                    JobView,
                    ExtractError,
                >(error),
            }),
            self.flags.wants_grid() ==> (outcome is Ok <==> resolved(
                self.grid_tx->0.data_type,
                self.grid_tx->0.components,
            ) is Ok),
            outcome matches Ok(Some(job)) ==> job.role == TextureRole::Grid && job.shape.wf()
                && !job.shape.is_cubemap && job.shape.width == self.grid_tx->0.size.width
                && job.shape.height == self.grid_tx->0.size.height && job.shape.depth
                == self.grid_tx->0.size.depth && job.shape.array_size
                == self.grid_tx->0.size.depth && job.shape.mip_count == 1 && resolved(
                self.grid_tx->0.data_type,
                self.grid_tx->0.components,
            ) == Ok::<PixelFormat, ExtractError>(job.shape.format) && payloads(job.sources@)
                == self.grid_tx->0.payloads(),
    {
        if !self.flags.wants_grid() {
            return Ok(None);
        }
        match &self.grid_tx {
            Some(grid) => match grid.job() {
                Ok(job) => Ok(Some(job)),
                Err(error) => Err(error),
            },
            None => unreached(),
        }
    }
}

} // verus!
