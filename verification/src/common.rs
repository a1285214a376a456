//! Plain value types shared by every module: extents, offsets, rectangles and
//! the closed set of errors the native layer can report.

use vstd::prelude::*;

verus! {

/// The native result code of a call that completed.
pub const SUCCESS: i32 = 0;

/// The native result code of an enumeration that reported fewer items than
/// are available.
pub const INCOMPLETE: i32 = 5;

#[derive(Debug, Default, Clone, Copy, PartialEq, Eq, Structural)]
pub struct Extent2D {
    pub width: u32,
    pub height: u32,
}

#[derive(Debug, Default, Clone, Copy, PartialEq, Eq, Structural)]
pub struct Extent3D {
    pub width: u32,
    pub height: u32,
    pub depth: u32,
}

#[derive(Debug, Default, Clone, Copy, PartialEq, Eq, Structural)]
pub struct Offset2D {
    pub x: i32,
    pub y: i32,
}

#[derive(Debug, Default, Clone, Copy, PartialEq, Eq, Structural)]
pub struct Offset3D {
    pub x: i32,
    pub y: i32,
    pub z: i32,
}

#[derive(Debug, Default, Clone, Copy, PartialEq, Eq, Structural)]
pub struct Rect2D {
    pub offset: Offset2D,
    pub extent: Extent2D,
}

/// One variant for each error code of the native layer.
#[derive(Debug, Clone, Copy, PartialEq, Eq, Structural)]
pub enum Error {
    OutOfHostMemory,
    OutOfDeviceMemory,
    InitializationFailed,
    DeviceLost,
    MemoryMapFailed,
    LayerNotPresent,
    ExtensionNotPresent,
    FeatureNotPresent,
    IncompatibleDriver,
    TooManyObjects,
    FormatNotSupported,
    FragmentedPool,
    Unknown,
    OutOfPoolMemory,
    InvalidExternalHandle,
    Fragmentation,
    InvalidOpaqueCaptureAddress,
    SurfaceLostKhr,
    NativeWindowInUseKhr,
    OutOfDateKhr,
    IncompatibleDisplayKhr,
    ValidationFailedExt,
    InvalidShaderNv,
    InvalidDrmFormatModifierPlaneLayoutExt,
    NotPermittedExt,
    FullScreenExclusiveModeLostExt,
}

impl Extent2D {
    pub fn new(width: u32, height: u32) -> (r: Self)
        ensures
            r == (Extent2D { width, height }),
    {
        Self { width, height }
    }

    pub fn width(&self) -> (r: u32)
        ensures
            r == self.width,
    {
        self.width
    }

    pub fn height(&self) -> (r: u32)
        ensures
            r == self.height,
    {
        self.height
    }

    /// The extent of a `(width, height)` pair.
    pub fn from_pair(pair: (u32, u32)) -> (r: Self)
        ensures
            r == (Extent2D { width: pair.0, height: pair.1 }),
    {
        Self { width: pair.0, height: pair.1 }
    }
}

impl Extent3D {
    pub fn new(width: u32, height: u32, depth: u32) -> (r: Self)
        ensures
            r == (Extent3D { width, height, depth }),
    {
        Self { width, height, depth }
    }
}

impl Offset2D {
    pub fn new(x: i32, y: i32) -> (r: Self)
        ensures
            r == (Offset2D { x, y }),
    {
        Self { x, y }
    }

    /// The offset of an `(x, y)` pair.
    pub fn from_pair(pair: (i32, i32)) -> (r: Self)
        ensures
            r == (Offset2D { x: pair.0, y: pair.1 }),
    {
        Self { x: pair.0, y: pair.1 }
    }
}

impl Offset3D {
    pub fn new(x: i32, y: i32, z: i32) -> (r: Self)
        ensures
            r == (Offset3D { x, y, z }),
    {
        Self { x, y, z }
    }
}

impl Rect2D {
    pub fn new(offset: Offset2D, extent: Extent2D) -> (r: Self)
        ensures
            r == (Rect2D { offset, extent }),
    {
        Self { offset, extent }
    }
}

impl Error {
    /// The native result code that stands for this error.
    pub open spec fn spec_code(self) -> int {
        match self {
            Error::OutOfHostMemory => -1,
            Error::OutOfDeviceMemory => -2,
            Error::InitializationFailed => -3,
            Error::DeviceLost => -4,
            Error::MemoryMapFailed => -5,
            Error::LayerNotPresent => -6,
            Error::ExtensionNotPresent => -7,
            Error::FeatureNotPresent => -8,
            Error::IncompatibleDriver => -9,
            Error::TooManyObjects => -10,
            Error::FormatNotSupported => -11,
            Error::FragmentedPool => -12,
            Error::Unknown => -13,
            Error::OutOfPoolMemory => -1000069000,
            Error::InvalidExternalHandle => -1000072003,
            Error::Fragmentation => -1000161000,
            Error::InvalidOpaqueCaptureAddress => -1000257000,
            Error::SurfaceLostKhr => -1000000000,
            Error::NativeWindowInUseKhr => -1000000001,
            Error::OutOfDateKhr => -1000001004,
            Error::IncompatibleDisplayKhr => -1000003001,
            Error::ValidationFailedExt => -1000011001,
            Error::InvalidShaderNv => -1000012000,
            Error::InvalidDrmFormatModifierPlaneLayoutExt => -1000158000,
            Error::NotPermittedExt => -1000174001,
            Error::FullScreenExclusiveModeLostExt => -1000255000,
        }
    }

    /// The error a native result code stands for, if it is an error code.
    pub open spec fn spec_from_code(code: int) -> Option<Error> {
        if exists|e: Error| e.spec_code() == code {
            Some(choose|e: Error| e.spec_code() == code)
        } else {
            None
        }
    }

    pub fn code(&self) -> (r: i32)
        ensures
            r == self.spec_code(),
    {
        match self {
            Error::OutOfHostMemory => -1,
            Error::OutOfDeviceMemory => -2,
            Error::InitializationFailed => -3,
            Error::DeviceLost => -4,
            Error::MemoryMapFailed => -5,
            Error::LayerNotPresent => -6,
            Error::ExtensionNotPresent => -7,
            Error::FeatureNotPresent => -8,
            Error::IncompatibleDriver => -9,
            Error::TooManyObjects => -10,
            Error::FormatNotSupported => -11,
            Error::FragmentedPool => -12,
            Error::Unknown => -13,
            Error::OutOfPoolMemory => -1000069000,
            Error::InvalidExternalHandle => -1000072003,
            Error::Fragmentation => -1000161000,
            Error::InvalidOpaqueCaptureAddress => -1000257000,
            Error::SurfaceLostKhr => -1000000000,
            Error::NativeWindowInUseKhr => -1000000001,
            Error::OutOfDateKhr => -1000001004,
            Error::IncompatibleDisplayKhr => -1000003001,
            Error::ValidationFailedExt => -1000011001,
            Error::InvalidShaderNv => -1000012000,
            Error::InvalidDrmFormatModifierPlaneLayoutExt => -1000158000,
            Error::NotPermittedExt => -1000174001,
            Error::FullScreenExclusiveModeLostExt => -1000255000,
        }
    }

    /// Maps a native result code onto its error, one to one. `None` is
    /// returned for every code that is not an error code.
    pub fn from_code(code: i32) -> (r: Option<Error>)
        ensures
            r == Error::spec_from_code(code as int),
            r matches Some(e) ==> e.spec_code() == code,
            r is None ==> forall|e: Error| e.spec_code() != code,
    {
        let r = match code {
            -1 => Some(Error::OutOfHostMemory),
            -2 => Some(Error::OutOfDeviceMemory),
            -3 => Some(Error::InitializationFailed),
            -4 => Some(Error::DeviceLost),
            -5 => Some(Error::MemoryMapFailed),
            -6 => Some(Error::LayerNotPresent),
            -7 => Some(Error::ExtensionNotPresent),
            -8 => Some(Error::FeatureNotPresent),
            -9 => Some(Error::IncompatibleDriver),
            -10 => Some(Error::TooManyObjects),
            -11 => Some(Error::FormatNotSupported),
            -12 => Some(Error::FragmentedPool),
            -13 => Some(Error::Unknown),
            -1000069000 => Some(Error::OutOfPoolMemory),
            -1000072003 => Some(Error::InvalidExternalHandle),
            -1000161000 => Some(Error::Fragmentation),
            -1000257000 => Some(Error::InvalidOpaqueCaptureAddress),
            -1000000000 => Some(Error::SurfaceLostKhr),
            -1000000001 => Some(Error::NativeWindowInUseKhr),
            -1000001004 => Some(Error::OutOfDateKhr),
            -1000003001 => Some(Error::IncompatibleDisplayKhr),
            -1000011001 => Some(Error::ValidationFailedExt),
            -1000012000 => Some(Error::InvalidShaderNv),
            -1000158000 => Some(Error::InvalidDrmFormatModifierPlaneLayoutExt),
            -1000174001 => Some(Error::NotPermittedExt),
            -1000255000 => Some(Error::FullScreenExclusiveModeLostExt),
            _ => None,
        };
        proof {
            if let Some(e) = r {
                assert(e.spec_code() == code);
                Error::lemma_code_injective(e, choose|x: Error| x.spec_code() == code as int);
            }
        }
        r
    }

    /// The text shown for any error of the native layer.
    pub fn to_string(&self) -> (r: String)
        ensures
            r@ == "vulkan run-time error"@,
    {
        "vulkan run-time error".to_owned()
    }

    /// No two errors share a result code.
    pub proof fn lemma_code_injective(a: Error, b: Error)
        requires
            a.spec_code() == b.spec_code(),
        ensures
            a == b,
    {
    }

    /// Decoding the code of an error gives that error back.
    pub proof fn lemma_code_round_trip(e: Error)
        ensures
            Error::spec_from_code(e.spec_code()) == Some(e),
            e.spec_code() < 0,
            e.spec_code() != SUCCESS,
            e.spec_code() != INCOMPLETE,
    {
        Error::lemma_code_injective(e, choose|x: Error| x.spec_code() == e.spec_code());
    }
}

/// Whether `code` is what a command that creates or queries one object may
/// answer: success or one of the error codes.
pub open spec fn is_result_code(code: int) -> bool {
    code == SUCCESS || Error::spec_from_code(code) is Some
}

/// Whether `code` is what an enumerating command may answer: success, a
/// partial answer or one of the error codes.
pub open spec fn is_enumeration_code(code: int) -> bool {
    code == SUCCESS || code == INCOMPLETE || Error::spec_from_code(code) is Some
}

/// What a result code means for the caller of a command: `Ok` on success,
/// the matching error otherwise.
pub open spec fn spec_check(code: int) -> Result<(), Error> {
    match Error::spec_from_code(code) {
        Some(e) => Err(e),
        None => Ok(()),
    }
}

/// Tests whether `code` is success or an error code.
pub fn result_code_expected(code: i32) -> (r: bool)
    ensures
        r == is_result_code(code as int),
{
    code == SUCCESS || Error::from_code(code).is_some()
}

/// Tests whether `code` is success, a partial answer or an error code.
pub fn enumeration_code_expected(code: i32) -> (r: bool)
    ensures
        r == is_enumeration_code(code as int),
{
    code == SUCCESS || code == INCOMPLETE || Error::from_code(code).is_some()
}

/// Turns a result code into `Ok` or the error it stands for.
pub fn check(code: i32) -> (r: Result<(), Error>)
    ensures
        r == spec_check(code as int),
        r is Err <==> Error::spec_from_code(code as int) is Some,
{
    match Error::from_code(code) {
        Some(e) => Err(e),
        None => Ok(()),
    }
}

} // verus!
