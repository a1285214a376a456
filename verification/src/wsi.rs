//! Window system integration: surfaces, swap-chains and the values that
//! describe how images reach a display.

use vstd::prelude::*;
use crate::bits::{bit_at, lemma_bit_values, lemma_empty, lemma_set, spec_bit_at, spec_has_bit};
use crate::command::{Command, ResolvedCommands};
use crate::common::{Error, Extent2D};
use crate::device::Device;
use crate::format::Format;
use crate::handle::Handle;
use crate::init::Instance;
use crate::native;
use crate::native::{DestroyCall, NativeCall, StructureType};
use crate::reply::{created, creation_reply_expected, spec_created, spec_item_count};
use crate::resource::{ImageUsageFlags, SharingMode};

verus! {

/// The name of the extension that presents to surfaces. It has to be enabled
/// when the top-level context is created.
pub const KHR_SURFACE_EXTENSION_NAME: &'static str = "VK_KHR_surface";

/// The name of the extension that provides swap-chains. It has to be enabled
/// when the logical device is created.
pub const KHR_SWAPCHAIN_EXTENSION_NAME: &'static str = "VK_KHR_swapchain";

pub const KHR_XCB_SURFACE_EXTENSION_NAME: &'static str = "VK_KHR_xcb_surface";

pub const KHR_XLIB_SURFACE_EXTENSION_NAME: &'static str = "VK_KHR_xlib_surface";

pub const KHR_WIN32_SURFACE_EXTENSION_NAME: &'static str = "VK_KHR_win32_surface";

/// How the values of a pixel are to be read as colors.
#[derive(Debug, Clone, Copy, PartialEq, Eq, Structural)]
pub enum ColorSpaceKhr {
    SrgbNonlinearKhr,
    DisplayP3NonlinearExt,
    ExtendedSrgbLinearExt,
    DisplayP3LinearExt,
    DciP3NonlinearExt,
    Bt709LinearExt,
    Bt709NonlinearExt,
    Bt2020LinearExt,
    Hdr10St2084Ext,
    DolbyvisionExt,
    Hdr10HlgExt,
    AdobergbLinearExt,
    AdobergbNonlinearExt,
    PassThroughExt,
    ExtendedSrgbNonlinearExt,
    DisplayNativeAmd,
}

impl ColorSpaceKhr {
    /// The integer the native layer reads for this color space.
    pub open spec fn spec_raw(self) -> i32 {
        match self {
            ColorSpaceKhr::SrgbNonlinearKhr => 0,
            ColorSpaceKhr::DisplayP3NonlinearExt => 1000104001,
            ColorSpaceKhr::ExtendedSrgbLinearExt => 1000104002,
            ColorSpaceKhr::DisplayP3LinearExt => 1000104003,
            ColorSpaceKhr::DciP3NonlinearExt => 1000104004,
            ColorSpaceKhr::Bt709LinearExt => 1000104005,
            ColorSpaceKhr::Bt709NonlinearExt => 1000104006,
            ColorSpaceKhr::Bt2020LinearExt => 1000104007,
            ColorSpaceKhr::Hdr10St2084Ext => 1000104008,
            ColorSpaceKhr::DolbyvisionExt => 1000104009,
            ColorSpaceKhr::Hdr10HlgExt => 1000104010,
            ColorSpaceKhr::AdobergbLinearExt => 1000104011,
            ColorSpaceKhr::AdobergbNonlinearExt => 1000104012,
            ColorSpaceKhr::PassThroughExt => 1000104013,
            ColorSpaceKhr::ExtendedSrgbNonlinearExt => 1000104014,
            ColorSpaceKhr::DisplayNativeAmd => 1000213000,
        }
    }

    /// The color space that the native layer writes as `raw`, if there is one.
    pub open spec fn spec_from_raw(raw: i32) -> Option<ColorSpaceKhr> {
        match raw {
            0 => Some(ColorSpaceKhr::SrgbNonlinearKhr),
            1000104001 => Some(ColorSpaceKhr::DisplayP3NonlinearExt),
            1000104002 => Some(ColorSpaceKhr::ExtendedSrgbLinearExt),
            1000104003 => Some(ColorSpaceKhr::DisplayP3LinearExt),
            1000104004 => Some(ColorSpaceKhr::DciP3NonlinearExt),
            1000104005 => Some(ColorSpaceKhr::Bt709LinearExt),
            1000104006 => Some(ColorSpaceKhr::Bt709NonlinearExt),
            1000104007 => Some(ColorSpaceKhr::Bt2020LinearExt),
            1000104008 => Some(ColorSpaceKhr::Hdr10St2084Ext),
            1000104009 => Some(ColorSpaceKhr::DolbyvisionExt),
            1000104010 => Some(ColorSpaceKhr::Hdr10HlgExt),
            1000104011 => Some(ColorSpaceKhr::AdobergbLinearExt),
            1000104012 => Some(ColorSpaceKhr::AdobergbNonlinearExt),
            1000104013 => Some(ColorSpaceKhr::PassThroughExt),
            1000104014 => Some(ColorSpaceKhr::ExtendedSrgbNonlinearExt),
            1000213000 => Some(ColorSpaceKhr::DisplayNativeAmd),
            _ => None,
        }
    }

    pub fn raw(&self) -> (r: i32)
        ensures
            r == self.spec_raw(),
    {
        match self {
            ColorSpaceKhr::SrgbNonlinearKhr => 0,
            ColorSpaceKhr::DisplayP3NonlinearExt => 1000104001,
            ColorSpaceKhr::ExtendedSrgbLinearExt => 1000104002,
            ColorSpaceKhr::DisplayP3LinearExt => 1000104003,
            ColorSpaceKhr::DciP3NonlinearExt => 1000104004,
            ColorSpaceKhr::Bt709LinearExt => 1000104005,
            ColorSpaceKhr::Bt709NonlinearExt => 1000104006,
            ColorSpaceKhr::Bt2020LinearExt => 1000104007,
            ColorSpaceKhr::Hdr10St2084Ext => 1000104008,
            ColorSpaceKhr::DolbyvisionExt => 1000104009,
            ColorSpaceKhr::Hdr10HlgExt => 1000104010,
            ColorSpaceKhr::AdobergbLinearExt => 1000104011,
            ColorSpaceKhr::AdobergbNonlinearExt => 1000104012,
            ColorSpaceKhr::PassThroughExt => 1000104013,
            ColorSpaceKhr::ExtendedSrgbNonlinearExt => 1000104014,
            ColorSpaceKhr::DisplayNativeAmd => 1000213000,
        }
    }

    /// Reads a color space the native layer wrote. `None` is returned for an integer
    /// that stands for none.
    pub fn from_raw(raw: i32) -> (r: Option<ColorSpaceKhr>)
        ensures
            r == ColorSpaceKhr::spec_from_raw(raw),
    {
        match raw {
            0 => Some(ColorSpaceKhr::SrgbNonlinearKhr),
            1000104001 => Some(ColorSpaceKhr::DisplayP3NonlinearExt),
            1000104002 => Some(ColorSpaceKhr::ExtendedSrgbLinearExt),
            1000104003 => Some(ColorSpaceKhr::DisplayP3LinearExt),
            1000104004 => Some(ColorSpaceKhr::DciP3NonlinearExt),
            1000104005 => Some(ColorSpaceKhr::Bt709LinearExt),
            1000104006 => Some(ColorSpaceKhr::Bt709NonlinearExt),
            1000104007 => Some(ColorSpaceKhr::Bt2020LinearExt),
            1000104008 => Some(ColorSpaceKhr::Hdr10St2084Ext),
            1000104009 => Some(ColorSpaceKhr::DolbyvisionExt),
            1000104010 => Some(ColorSpaceKhr::Hdr10HlgExt),
            1000104011 => Some(ColorSpaceKhr::AdobergbLinearExt),
            1000104012 => Some(ColorSpaceKhr::AdobergbNonlinearExt),
            1000104013 => Some(ColorSpaceKhr::PassThroughExt),
            1000104014 => Some(ColorSpaceKhr::ExtendedSrgbNonlinearExt),
            1000213000 => Some(ColorSpaceKhr::DisplayNativeAmd),
            _ => None,
        }
    }

    /// Reading the integer of a color space gives that color space back.
    pub proof fn lemma_raw_round_trip(v: ColorSpaceKhr)
        ensures
            ColorSpaceKhr::spec_from_raw(v.spec_raw()) == Some(v),
    {
    }

    /// A color space that is read from an integer has that integer.
    pub proof fn lemma_from_raw_sound(raw: i32)
        ensures
            ColorSpaceKhr::spec_from_raw(raw) matches Some(v) ==> v.spec_raw() == raw,
    {
    }
}

/// A transform applied to an image before it is shown.
#[derive(Debug, Clone, Copy, PartialEq, Eq, Structural)]
pub enum SurfaceTransformKhr {
    IdentityKhr,
    Rotate90Khr,
    Rotate180Khr,
    Rotate270Khr,
    HorizontalMirrorKhr,
    HorizontalMirrorRotate90Khr,
    HorizontalMirrorRotate180Khr,
    HorizontalMirrorRotate270Khr,
    InheritKhr,
}

impl SurfaceTransformKhr {
    /// The position of the bit that stands for this flag.
    pub open spec fn spec_position(self) -> u32 {
        match self {
            SurfaceTransformKhr::IdentityKhr => 0,
            SurfaceTransformKhr::Rotate90Khr => 1,
            SurfaceTransformKhr::Rotate180Khr => 2,
            SurfaceTransformKhr::Rotate270Khr => 3,
            SurfaceTransformKhr::HorizontalMirrorKhr => 4,
            SurfaceTransformKhr::HorizontalMirrorRotate90Khr => 5,
            SurfaceTransformKhr::HorizontalMirrorRotate180Khr => 6,
            SurfaceTransformKhr::HorizontalMirrorRotate270Khr => 7,
            SurfaceTransformKhr::InheritKhr => 8,
        }
    }

    /// The mask that has only this flag's bit set.
    pub open spec fn spec_bit(self) -> u32 {
        spec_bit_at(self.spec_position())
    }

    pub fn position(&self) -> (r: u32)
        ensures
            r == self.spec_position(),
            r < 32,
    {
        match self {
            SurfaceTransformKhr::IdentityKhr => 0,
            SurfaceTransformKhr::Rotate90Khr => 1,
            SurfaceTransformKhr::Rotate180Khr => 2,
            SurfaceTransformKhr::Rotate270Khr => 3,
            SurfaceTransformKhr::HorizontalMirrorKhr => 4,
            SurfaceTransformKhr::HorizontalMirrorRotate90Khr => 5,
            SurfaceTransformKhr::HorizontalMirrorRotate180Khr => 6,
            SurfaceTransformKhr::HorizontalMirrorRotate270Khr => 7,
            SurfaceTransformKhr::InheritKhr => 8,
        }
    }

    pub fn bit(&self) -> (r: u32)
        ensures
            r == self.spec_bit(),
            r != 0,
    {
        bit_at(self.position())
    }

    /// The flag whose bit alone is set in `mask`, if `mask` is such a mask.
    pub open spec fn spec_from_bit(mask: u32) -> Option<SurfaceTransformKhr> {
        if exists|f: SurfaceTransformKhr| f.spec_bit() == mask {
            Some(choose|f: SurfaceTransformKhr| f.spec_bit() == mask)
        } else {
            None
        }
    }

    /// Reads a single transform the native layer wrote. `None` is returned for a mask
    /// that is not the bit of one flag.
    pub fn from_bit(mask: u32) -> (r: Option<SurfaceTransformKhr>)
        ensures
            r == SurfaceTransformKhr::spec_from_bit(mask),
            r matches Some(f) ==> f.spec_bit() == mask,
            r is None ==> forall|f: SurfaceTransformKhr| f.spec_bit() != mask,
    {
        proof {
            lemma_bit_values();
        }
        let r = match mask {
            0x001 => Some(SurfaceTransformKhr::IdentityKhr),
            0x002 => Some(SurfaceTransformKhr::Rotate90Khr),
            0x004 => Some(SurfaceTransformKhr::Rotate180Khr),
            0x008 => Some(SurfaceTransformKhr::Rotate270Khr),
            0x010 => Some(SurfaceTransformKhr::HorizontalMirrorKhr),
            0x020 => Some(SurfaceTransformKhr::HorizontalMirrorRotate90Khr),
            0x040 => Some(SurfaceTransformKhr::HorizontalMirrorRotate180Khr),
            0x080 => Some(SurfaceTransformKhr::HorizontalMirrorRotate270Khr),
            0x100 => Some(SurfaceTransformKhr::InheritKhr),
            _ => None,
        };
        proof {
            if let Some(f) = r {
                assert(f.spec_bit() == mask);
                let g = choose|g: SurfaceTransformKhr| g.spec_bit() == mask;
                assert(f == g);
            }
        }
        r
    }
}

/// A set of surface transforms.
#[derive(Debug, Default, Clone, Copy, PartialEq, Eq, Structural)]
pub struct SurfaceTransformFlagsKhr(u32);

impl SurfaceTransformFlagsKhr {
    /// The mask the native layer reads.
    pub closed spec fn spec_bits(self) -> u32 {
        self.0
    }

    /// Whether the flag is in the set.
    pub open spec fn spec_contains(self, flag: SurfaceTransformKhr) -> bool {
        spec_has_bit(self.spec_bits(), flag.spec_position())
    }

    /// The set that the native layer writes as `bits`.
    pub fn from_bits(bits: u32) -> (r: Self)
        ensures
            r.spec_bits() == bits,
    {
        Self(bits)
    }

    pub fn bits(&self) -> (r: u32)
        ensures
            r == self.spec_bits(),
    {
        self.0
    }

    pub fn contains(&self, flag: SurfaceTransformKhr) -> (r: bool)
        ensures
            r == self.spec_contains(flag),
    {
        self.0 & flag.bit() != 0
    }
}

/// How the alpha of an image is treated when it is shown.
#[derive(Debug, Clone, Copy, PartialEq, Eq, Structural)]
pub enum CompositeAlphaKhr {
    OpaqueKhr,
    PreMultipliedKhr,
    PostMultipliedKhr,
    InheritKhr,
}

impl CompositeAlphaKhr {
    /// The position of the bit that stands for this flag.
    pub open spec fn spec_position(self) -> u32 {
        match self {
            CompositeAlphaKhr::OpaqueKhr => 0,
            CompositeAlphaKhr::PreMultipliedKhr => 1,
            CompositeAlphaKhr::PostMultipliedKhr => 2,
            CompositeAlphaKhr::InheritKhr => 3,
        }
    }

    /// The mask that has only this flag's bit set.
    pub open spec fn spec_bit(self) -> u32 {
        spec_bit_at(self.spec_position())
    }

    pub fn position(&self) -> (r: u32)
        ensures
            r == self.spec_position(),
            r < 32,
    {
        match self {
            CompositeAlphaKhr::OpaqueKhr => 0,
            CompositeAlphaKhr::PreMultipliedKhr => 1,
            CompositeAlphaKhr::PostMultipliedKhr => 2,
            CompositeAlphaKhr::InheritKhr => 3,
        }
    }

    pub fn bit(&self) -> (r: u32)
        ensures
            r == self.spec_bit(),
            r != 0,
    {
        bit_at(self.position())
    }
}

/// A set of alpha treatments.
#[derive(Debug, Default, Clone, Copy, PartialEq, Eq, Structural)]
pub struct CompositeAlphaFlagsKhr(u32);

impl CompositeAlphaFlagsKhr {
    /// The mask the native layer reads.
    pub closed spec fn spec_bits(self) -> u32 {
        self.0
    }

    /// Whether the flag is in the set.
    pub open spec fn spec_contains(self, flag: CompositeAlphaKhr) -> bool {
        spec_has_bit(self.spec_bits(), flag.spec_position())
    }

    /// The set that the native layer writes as `bits`.
    pub fn from_bits(bits: u32) -> (r: Self)
        ensures
            r.spec_bits() == bits,
    {
        Self(bits)
    }

    pub fn bits(&self) -> (r: u32)
        ensures
            r == self.spec_bits(),
    {
        self.0
    }

    pub fn contains(&self, flag: CompositeAlphaKhr) -> (r: bool)
        ensures
            r == self.spec_contains(flag),
    {
        self.0 & flag.bit() != 0
    }
}

/// How images queue up for the display.
#[derive(Debug, Clone, Copy, PartialEq, Eq, Structural)]
pub enum PresentModeKhr {
    ImmediateKhr,
    MailboxKhr,
    FifoKhr,
    FifoRelaxedKhr,
    SharedDemandRefreshKhr,
    SharedContinuousRefreshKhr,
}

impl PresentModeKhr {
    /// The integer the native layer reads for this present mode.
    pub open spec fn spec_raw(self) -> i32 {
        match self {
            PresentModeKhr::ImmediateKhr => 0,
            PresentModeKhr::MailboxKhr => 1,
            PresentModeKhr::FifoKhr => 2,
            PresentModeKhr::FifoRelaxedKhr => 3,
            PresentModeKhr::SharedDemandRefreshKhr => 1000111000,
            PresentModeKhr::SharedContinuousRefreshKhr => 1000111001,
        }
    }

    /// The present mode that the native layer writes as `raw`, if there is one.
    pub open spec fn spec_from_raw(raw: i32) -> Option<PresentModeKhr> {
        match raw {
            0 => Some(PresentModeKhr::ImmediateKhr),
            1 => Some(PresentModeKhr::MailboxKhr),
            2 => Some(PresentModeKhr::FifoKhr),
            3 => Some(PresentModeKhr::FifoRelaxedKhr),
            1000111000 => Some(PresentModeKhr::SharedDemandRefreshKhr),
            1000111001 => Some(PresentModeKhr::SharedContinuousRefreshKhr),
            _ => None,
        }
    }

    pub fn raw(&self) -> (r: i32)
        ensures
            r == self.spec_raw(),
    {
        match self {
            PresentModeKhr::ImmediateKhr => 0,
            PresentModeKhr::MailboxKhr => 1,
            PresentModeKhr::FifoKhr => 2,
            PresentModeKhr::FifoRelaxedKhr => 3,
            PresentModeKhr::SharedDemandRefreshKhr => 1000111000,
            PresentModeKhr::SharedContinuousRefreshKhr => 1000111001,
        }
    }

    /// Reads a present mode the native layer wrote. `None` is returned for an integer
    /// that stands for none.
    pub fn from_raw(raw: i32) -> (r: Option<PresentModeKhr>)
        ensures
            r == PresentModeKhr::spec_from_raw(raw),
    {
        match raw {
            0 => Some(PresentModeKhr::ImmediateKhr),
            1 => Some(PresentModeKhr::MailboxKhr),
            2 => Some(PresentModeKhr::FifoKhr),
            3 => Some(PresentModeKhr::FifoRelaxedKhr),
            1000111000 => Some(PresentModeKhr::SharedDemandRefreshKhr),
            1000111001 => Some(PresentModeKhr::SharedContinuousRefreshKhr),
            _ => None,
        }
    }

    /// Reading the integer of a present mode gives that present mode back.
    pub proof fn lemma_raw_round_trip(v: PresentModeKhr)
        ensures
            PresentModeKhr::spec_from_raw(v.spec_raw()) == Some(v),
    {
    }

    /// A present mode that is read from an integer has that integer.
    pub proof fn lemma_from_raw_sound(raw: i32)
        ensures
            PresentModeKhr::spec_from_raw(raw) matches Some(v) ==> v.spec_raw() == raw,
    {
    }
}

/// An option in creating a swap-chain.
#[derive(Debug, Clone, Copy, PartialEq, Eq, Structural)]
pub enum SwapchainCreateKhr {
    SplitInstanceBindRegionsKhr,
    ProtectedKhr,
    MutableFormatKhr,
}

impl SwapchainCreateKhr {
    /// The position of the bit that stands for this flag.
    pub open spec fn spec_position(self) -> u32 {
        match self {
            SwapchainCreateKhr::SplitInstanceBindRegionsKhr => 0,
            SwapchainCreateKhr::ProtectedKhr => 1,
            SwapchainCreateKhr::MutableFormatKhr => 2,
        }
    }

    /// The mask that has only this flag's bit set.
    pub open spec fn spec_bit(self) -> u32 {
        spec_bit_at(self.spec_position())
    }

    pub fn position(&self) -> (r: u32)
        ensures
            r == self.spec_position(),
            r < 32,
    {
        match self {
            SwapchainCreateKhr::SplitInstanceBindRegionsKhr => 0,
            SwapchainCreateKhr::ProtectedKhr => 1,
            SwapchainCreateKhr::MutableFormatKhr => 2,
        }
    }

    pub fn bit(&self) -> (r: u32)
        ensures
            r == self.spec_bit(),
            r != 0,
    {
        bit_at(self.position())
    }
}

/// A set of options in creating a swap-chain.
#[derive(Debug, Default, Clone, Copy, PartialEq, Eq, Structural)]
pub struct SwapchainCreateFlagsKhr(u32);

impl SwapchainCreateFlagsKhr {
    /// The mask the native layer reads.
    pub closed spec fn spec_bits(self) -> u32 {
        self.0
    }

    /// Whether the flag is in the set.
    pub open spec fn spec_contains(self, flag: SwapchainCreateKhr) -> bool {
        spec_has_bit(self.spec_bits(), flag.spec_position())
    }

    /// The set that the native layer writes as `bits`.
    pub fn from_bits(bits: u32) -> (r: Self)
        ensures
            r.spec_bits() == bits,
    {
        Self(bits)
    }

    pub fn bits(&self) -> (r: u32)
        ensures
            r == self.spec_bits(),
    {
        self.0
    }

    pub fn contains(&self, flag: SwapchainCreateKhr) -> (r: bool)
        ensures
            r == self.spec_contains(flag),
    {
        self.0 & flag.bit() != 0
    }
}

/// Collects options in creating a swap-chain, one call for each.
#[derive(Default)]
pub struct SwapchainCreateFlagsBuilderKhr(u32);

impl SwapchainCreateFlagsBuilderKhr {
    /// The mask built so far.
    pub closed spec fn spec_bits(self) -> u32 {
        self.0
    }

    /// Whether the flag has been put in.
    pub open spec fn spec_contains(self, flag: SwapchainCreateKhr) -> bool {
        spec_has_bit(self.spec_bits(), flag.spec_position())
    }

    /// What putting `flag` in, if `on`, makes of a builder: the flag is
    /// in afterwards, and every other flag is in or out as before.
    pub open spec fn spec_with(self, flag: SwapchainCreateKhr, on: bool, after: Self) -> bool {
        &&& after.spec_bits() == (if on {
            self.spec_bits() | flag.spec_bit()
        } else {
            self.spec_bits()
        })
        &&& forall|f: SwapchainCreateKhr|
            #[trigger] after.spec_contains(f) == ((on && f == flag) || self.spec_contains(f))
    }

    /// An empty set of flags.
    pub fn new() -> (r: Self)
        ensures
            r.spec_bits() == 0,
            forall|f: SwapchainCreateKhr| !r.spec_contains(f),
    {
        proof {
            assert forall|f: SwapchainCreateKhr| !spec_has_bit(0, f.spec_position()) by {
                lemma_empty(f.spec_position());
            }
        }
        Self(0)
    }

    fn put(&mut self, flag: SwapchainCreateKhr, on: bool)
        ensures
            old(self).spec_with(flag, on, *final(self)),
    {
        let bit: u32 = flag.bit();
        proof {
            assert forall|f: SwapchainCreateKhr|
                spec_has_bit(self.0 | flag.spec_bit(), f.spec_position()) == (f == flag
                    || spec_has_bit(self.0, f.spec_position())) by {
                lemma_set(self.0, flag.spec_position(), f.spec_position());
            }
        }
        if on {
            self.0 |= bit;
        }
    }

    pub fn split_instance_bind_regions(&mut self, val: bool) -> (r: &mut Self)
        ensures
            old(self).spec_with(SwapchainCreateKhr::SplitInstanceBindRegionsKhr, val, *r),
            *final(self) == *final(r),
    {
        self.put(SwapchainCreateKhr::SplitInstanceBindRegionsKhr, val);
        self
    }

    pub fn protected(&mut self, val: bool) -> (r: &mut Self)
        ensures
            old(self).spec_with(SwapchainCreateKhr::ProtectedKhr, val, *r),
            *final(self) == *final(r),
    {
        self.put(SwapchainCreateKhr::ProtectedKhr, val);
        self
    }

    pub fn mutable_format(&mut self, val: bool) -> (r: &mut Self)
        ensures
            old(self).spec_with(SwapchainCreateKhr::MutableFormatKhr, val, *r),
            *final(self) == *final(r),
    {
        self.put(SwapchainCreateKhr::MutableFormatKhr, val);
        self
    }

    pub fn build(&self) -> (r: SwapchainCreateFlagsKhr)
        ensures
            r.spec_bits() == self.spec_bits(),
            forall|f: SwapchainCreateKhr| r.spec_contains(f) == self.spec_contains(f),
    {
        SwapchainCreateFlagsKhr::from_bits(self.0)
    }
}

/// What a surface can do on an adapter.
#[derive(Debug, Clone, Copy, PartialEq, Eq, Structural)]
pub struct SurfaceCapabilitiesKhr {
    pub min_image_count: u32,
    pub max_image_count: u32,
    pub current_extent: Extent2D,
    pub min_image_extent: Extent2D,
    pub max_image_extent: Extent2D,
    pub max_image_array_layers: u32,
    pub supported_transforms: SurfaceTransformFlagsKhr,
    pub current_transform: SurfaceTransformKhr,
    pub supported_composite_alpha: CompositeAlphaFlagsKhr,
    pub supported_usage_flags: ImageUsageFlags,
}

/// A pixel format together with the color space its values are read in.
#[derive(Debug, Clone, Copy, PartialEq, Eq, Structural)]
pub struct SurfaceFormatKhr {
    pub format: Format,
    pub color_space: ColorSpaceKhr,
}

impl SurfaceCapabilitiesKhr {
    /// Whether `raw` and `self` say the same, field by field.
    pub open spec fn spec_reads(self, raw: native::SurfaceCapabilitiesKhr) -> bool {
        &&& self.min_image_count == raw.min_image_count
        &&& self.max_image_count == raw.max_image_count
        &&& self.current_extent == raw.current_extent
        &&& self.min_image_extent == raw.min_image_extent
        &&& self.max_image_extent == raw.max_image_extent
        &&& self.max_image_array_layers == raw.max_image_array_layers
        &&& self.supported_transforms.spec_bits() == raw.supported_transforms
        &&& self.current_transform.spec_bit() == raw.current_transform
        &&& self.supported_composite_alpha.spec_bits() == raw.supported_composite_alpha
        &&& self.supported_usage_flags.spec_bits() == raw.supported_usage_flags
    }

    /// Reads what the native layer reported. Nothing can be read where the
    /// current transform is not a single known transform.
    pub fn from_native(raw: &native::SurfaceCapabilitiesKhr) -> (r: Option<Self>)
        ensures
            r is Some <==> SurfaceTransformKhr::spec_from_bit(raw.current_transform) is Some,
            r matches Some(c) ==> c.spec_reads(*raw),
    {
        match SurfaceTransformKhr::from_bit(raw.current_transform) {
            None => None,
            Some(current_transform) => Some(
                SurfaceCapabilitiesKhr {
                    min_image_count: raw.min_image_count,
                    max_image_count: raw.max_image_count,
                    current_extent: raw.current_extent,
                    min_image_extent: raw.min_image_extent,
                    max_image_extent: raw.max_image_extent,
                    max_image_array_layers: raw.max_image_array_layers,
                    supported_transforms: SurfaceTransformFlagsKhr::from_bits(
                        raw.supported_transforms,
                    ),
                    current_transform,
                    supported_composite_alpha: CompositeAlphaFlagsKhr::from_bits(
                        raw.supported_composite_alpha,
                    ),
                    supported_usage_flags: ImageUsageFlags::from_bits(raw.supported_usage_flags),
                },
            ),
        }
    }

    /// The number of images to ask of a swap-chain. Without a preference it
    /// is one more than the least the surface takes. A preference below the
    /// least is raised to it. Where the surface names a most (a most of zero
    /// means there is none), the number is capped to it.
    pub open spec fn spec_image_count(self, preferred: Option<u32>) -> u32 {
        let wanted: u32 = match preferred {
            Some(p) => if p < self.min_image_count {
                self.min_image_count
            } else {
                p
            },
            None => if self.min_image_count == u32::MAX {
                u32::MAX
            } else {
                (self.min_image_count + 1) as u32
            },
        };
        if self.max_image_count != 0 && wanted > self.max_image_count {
            self.max_image_count
        } else {
            wanted
        }
    }

    pub fn image_count(&self, preferred: Option<u32>) -> (r: u32)
        ensures
            r == self.spec_image_count(preferred),
            self.max_image_count != 0 ==> r <= self.max_image_count,
            self.max_image_count == 0 || self.min_image_count <= self.max_image_count ==> r
                >= self.min_image_count,
    {
        let wanted: u32 = match preferred {
            Some(p) => if p < self.min_image_count {
                self.min_image_count
            } else {
                p
            },
            None => if self.min_image_count == u32::MAX {
                u32::MAX
            } else {
                self.min_image_count + 1
            },
        };
        if self.max_image_count != 0 && wanted > self.max_image_count {
            self.max_image_count
        } else {
            wanted
        }
    }
}

impl SurfaceFormatKhr {
    /// The surface format that the native layer writes as `raw`, if both of
    /// its parts are known.
    pub open spec fn spec_from_native(raw: native::SurfaceFormatKhr) -> Option<SurfaceFormatKhr> {
        match (Format::spec_from_raw(raw.format), ColorSpaceKhr::spec_from_raw(raw.color_space)) {
            (Some(format), Some(color_space)) => Some(SurfaceFormatKhr { format, color_space }),
            _ => None,
        }
    }

    pub fn from_native(raw: &native::SurfaceFormatKhr) -> (r: Option<Self>)
        ensures
            r == Self::spec_from_native(*raw),
    {
        match (Format::from_raw(raw.format), ColorSpaceKhr::from_raw(raw.color_space)) {
            (Some(format), Some(color_space)) => Some(SurfaceFormatKhr { format, color_space }),
            _ => None,
        }
    }
}

/// The present mode to ask for: the mailbox mode where the surface supports
/// it, the first-in-first-out mode, which every surface supports, otherwise.
pub open spec fn spec_select_present_mode(supported: Seq<PresentModeKhr>) -> PresentModeKhr {
    if supported.contains(PresentModeKhr::MailboxKhr) {
        PresentModeKhr::MailboxKhr
    } else {
        PresentModeKhr::FifoKhr
    }
}

pub fn select_present_mode(supported: &[PresentModeKhr]) -> (r: PresentModeKhr)
    ensures
        r == spec_select_present_mode(supported@),
        r == PresentModeKhr::MailboxKhr || r == PresentModeKhr::FifoKhr,
{
    let mut i: usize = 0;
    while i < supported.len()
        invariant
            i <= supported@.len(),
            forall|j: int| 0 <= j < i ==> supported@[j] != PresentModeKhr::MailboxKhr,
        decreases supported@.len() - i,
    {
        if supported[i] == PresentModeKhr::MailboxKhr {
            return PresentModeKhr::MailboxKhr;
        }
        i = i + 1;
    }
    PresentModeKhr::FifoKhr
}

/// The surface format to ask for: `wanted` where the surface supports it,
/// otherwise the caller's fallback, if there is one.
pub open spec fn spec_select_surface_format(
    supported: Seq<SurfaceFormatKhr>,
    wanted: SurfaceFormatKhr,
    fallback: Option<SurfaceFormatKhr>,
) -> Option<SurfaceFormatKhr> {
    if supported.contains(wanted) {
        Some(wanted)
    } else {
        fallback
    }
}

pub fn select_surface_format(
    supported: &[SurfaceFormatKhr],
    wanted: SurfaceFormatKhr,
    fallback: Option<SurfaceFormatKhr>,
) -> (r: Option<SurfaceFormatKhr>)
    ensures
        r == spec_select_surface_format(supported@, wanted, fallback),
{
    let mut i: usize = 0;
    while i < supported.len()
        invariant
            i <= supported@.len(),
            forall|j: int| 0 <= j < i ==> supported@[j] != wanted,
        decreases supported@.len() - i,
    {
        if supported[i] == wanted {
            return Some(wanted);
        }
        i = i + 1;
    }
    fallback
}

impl SurfaceFormatKhr {
    /// The known surface formats among `buffer`, in the buffer's order. An
    /// entry with a format or a color space that this library does not know
    /// is passed over.
    pub open spec fn spec_read_all(buffer: Seq<native::SurfaceFormatKhr>) -> Seq<SurfaceFormatKhr>
        decreases buffer.len(),
    {
        if buffer.len() == 0 {
            Seq::empty()
        } else {
            let before = Self::spec_read_all(buffer.drop_last());
            match Self::spec_from_native(buffer.last()) {
                Some(format) => before.push(format),
                None => before,
            }
        }
    }

    /// Reads the known surface formats among the first `count` entries of
    /// `buffer`.
    pub fn read_all(buffer: &[native::SurfaceFormatKhr], count: u32) -> (r: Vec<SurfaceFormatKhr>)
        ensures
            r@ == Self::spec_read_all(buffer@.take(spec_item_count(count, buffer@.len() as int))),
    {
        let n: usize = if (count as usize) < buffer.len() {
            count as usize
        } else {
            buffer.len()
        };
        let mut formats: Vec<SurfaceFormatKhr> = Vec::new();
        let mut i: usize = 0;
        while i < n
            invariant
                i <= n <= buffer@.len(),
                formats@ == Self::spec_read_all(buffer@.take(i as int)),
            decreases n - i,
        {
            assert(buffer@.take(i + 1).drop_last() =~= buffer@.take(i as int));
            match SurfaceFormatKhr::from_native(&buffer[i]) {
                Some(format) => {
                    formats.push(format);
                },
                None => {},
            }
            i = i + 1;
        }
        formats
    }
}

impl PresentModeKhr {
    /// The known present modes among `buffer`, in the buffer's order. An
    /// entry that this library does not know is passed over.
    pub open spec fn spec_read_all(buffer: Seq<i32>) -> Seq<PresentModeKhr>
        decreases buffer.len(),
    {
        if buffer.len() == 0 {
            Seq::empty()
        } else {
            let before = Self::spec_read_all(buffer.drop_last());
            match Self::spec_from_raw(buffer.last()) {
                Some(mode) => before.push(mode),
                None => before,
            }
        }
    }

    /// Reads the known present modes among the first `count` entries of
    /// `buffer`.
    pub fn read_all(buffer: &[i32], count: u32) -> (r: Vec<PresentModeKhr>)
        ensures
            r@ == Self::spec_read_all(buffer@.take(spec_item_count(count, buffer@.len() as int))),
    {
        let n: usize = if (count as usize) < buffer.len() {
            count as usize
        } else {
            buffer.len()
        };
        let mut modes: Vec<PresentModeKhr> = Vec::new();
        let mut i: usize = 0;
        while i < n
            invariant
                i <= n <= buffer@.len(),
                modes@ == Self::spec_read_all(buffer@.take(i as int)),
            decreases n - i,
        {
            assert(buffer@.take(i + 1).drop_last() =~= buffer@.take(i as int));
            match PresentModeKhr::from_raw(buffer[i]) {
                Some(mode) => {
                    modes.push(mode);
                },
                None => {},
            }
            i = i + 1;
        }
        modes
    }
}

/// A surface that images are presented to.
#[derive(Debug)]
pub struct SurfaceKhr<'a> {
    pub handle: Handle,
    pub instance: &'a Instance,
}

/// The queue of presentable images bound to a surface.
#[derive(Debug)]
pub struct SwapchainKhr<'a> {
    pub handle: Handle,
    pub device: &'a Device<'a>,
}

/// Collects what a swap-chain is created with.
#[derive(Debug)]
pub struct SwapchainBuilderKhr<'a, 'b> {
    pub flags: SwapchainCreateFlagsKhr,
    pub surface: &'a SurfaceKhr<'a>,
    pub min_image_count: u32,
    pub image_format: Format,
    pub image_color_space: ColorSpaceKhr,
    pub image_extent: Extent2D,
    pub image_array_layers: u32,
    pub image_usage: ImageUsageFlags,
    pub image_sharing_mode: SharingMode<'b>,
    pub pre_transform: SurfaceTransformKhr,
    pub composite_alpha: CompositeAlphaKhr,
    pub present_mode: PresentModeKhr,
    pub clipped: bool,
}

impl<'a> SurfaceKhr<'a> {
    /// The call that destroys the surface, through the table of the
    /// context that made it. There is none where the command is absent.
    pub fn destroy_call(&self) -> (r: Option<DestroyCall>)
        ensures
            r == (match self.instance.spec_dispatch_loader().vk_destroy_surface_khr {
                Some(pfn) => Some(
                    DestroyCall {
                        command: Command::DestroySurfaceKhr,
                        pfn,
                        parent: Some(self.instance.spec_handle()),
                        object: self.handle,
                    },
                ),
                None => None,
            }),
    {
        match self.instance.dispatch_loader().vk_destroy_surface_khr {
            Some(pfn) => Some(
                DestroyCall {
                    command: Command::DestroySurfaceKhr,
                    pfn,
                    parent: Some(self.instance.handle()),
                    object: self.handle,
                },
            ),
            None => None,
        }
    }
}

impl<'a> SwapchainKhr<'a> {
    /// The call that destroys the swap-chain; none where the command is
    /// absent.
    pub open spec fn spec_destroy_call(&self) -> Option<DestroyCall> {
        match self.device.dispatch_loader.vk_destroy_swapchain_khr {
            Some(pfn) => Some(
                DestroyCall {
                    command: Command::DestroySwapchainKhr,
                    pfn,
                    parent: Some(self.device.handle),
                    object: self.handle,
                },
            ),
            None => None,
        }
    }

    /// The call that destroys the swap-chain, through the table of the
    /// device that made it. There is none where the command is absent.
    pub fn destroy_call(&self) -> (r: Option<DestroyCall>)
        ensures
            r == self.spec_destroy_call(),
    {
        match self.device.dispatch_loader.vk_destroy_swapchain_khr {
            Some(pfn) => Some(
                DestroyCall {
                    command: Command::DestroySwapchainKhr,
                    pfn,
                    parent: Some(self.device.handle),
                    object: self.handle,
                },
            ),
            None => None,
        }
    }
}

impl<'a, 'b> SwapchainBuilderKhr<'a, 'b> {
    /// A builder with no creation option set and one array layer for each
    /// image.
    pub fn new(
        surface: &'a SurfaceKhr<'a>,
        min_image_count: u32,
        image_format: Format,
        image_color_space: ColorSpaceKhr,
        image_extent: Extent2D,
        image_usage: ImageUsageFlags,
        image_sharing_mode: SharingMode<'b>,
        pre_transform: SurfaceTransformKhr,
        composite_alpha: CompositeAlphaKhr,
        present_mode: PresentModeKhr,
        clipped: bool,
    ) -> (r: Self)
        ensures
            r.flags.spec_bits() == 0,
            r.surface == surface,
            r.min_image_count == min_image_count,
            r.image_format == image_format,
            r.image_color_space == image_color_space,
            r.image_extent == image_extent,
            r.image_array_layers == 1,
            r.image_usage == image_usage,
            r.image_sharing_mode == image_sharing_mode,
            r.pre_transform == pre_transform,
            r.composite_alpha == composite_alpha,
            r.present_mode == present_mode,
            r.clipped == clipped,
    {
        Self {
            flags: SwapchainCreateFlagsKhr::from_bits(0),
            surface,
            min_image_count,
            image_format,
            image_color_space,
            image_extent,
            image_array_layers: 1,
            image_usage,
            image_sharing_mode,
            pre_transform,
            composite_alpha,
            present_mode,
            clipped,
        }
    }

    pub fn with_flags(self, flags: SwapchainCreateFlagsKhr) -> (r: Self)
        ensures
            r == (SwapchainBuilderKhr { flags, ..self }),
    {
        SwapchainBuilderKhr { flags, ..self }
    }

    pub fn with_image_array_layers(self, image_array_layers: u32) -> (r: Self)
        ensures
            r == (SwapchainBuilderKhr { image_array_layers, ..self }),
    {
        SwapchainBuilderKhr { image_array_layers, ..self }
    }

    /// How many queue families share the images; none where they are not
    /// shared.
    pub open spec fn spec_queue_family_index_count(self) -> int {
        match self.image_sharing_mode {
            SharingMode::Exclusive => 0,
            SharingMode::Concurrent(indices) => indices@.len() as int,
        }
    }

    /// The record that the swap-chain is created with: every typed value as
    /// the integer the native layer reads for it, and no earlier swap-chain
    /// to take over from.
    pub open spec fn spec_create_info(self) -> native::SwapchainCreateInfoKhr<'b> {
        native::SwapchainCreateInfoKhr {
            s_type: StructureType::SwapchainCreateInfoKhr,
            flags: self.flags.spec_bits(),
            surface: self.surface.handle,
            min_image_count: self.min_image_count,
            image_format: self.image_format.spec_raw(),
            image_color_space: self.image_color_space.spec_raw(),
            image_extent: self.image_extent,
            image_array_layers: self.image_array_layers,
            image_usage: self.image_usage.spec_bits(),
            image_sharing_mode: self.image_sharing_mode.spec_raw(),
            queue_family_index_count: self.spec_queue_family_index_count() as u32,
            queue_family_indices: self.image_sharing_mode.spec_queue_family_indices(),
            pre_transform: self.pre_transform.spec_bit(),
            composite_alpha: self.composite_alpha.spec_bit(),
            present_mode: self.present_mode.spec_raw(),
            clipped: if self.clipped {
                1
            } else {
                0
            },
            old_swapchain: None,
        }
    }

    pub fn create_info(&self) -> (r: native::SwapchainCreateInfoKhr<'b>)
        requires
            self.spec_queue_family_index_count() <= u32::MAX,
        ensures
            r == self.spec_create_info(),
    {
        native::SwapchainCreateInfoKhr {
            s_type: StructureType::SwapchainCreateInfoKhr,
            flags: self.flags.bits(),
            surface: self.surface.handle,
            min_image_count: self.min_image_count,
            image_format: self.image_format.raw(),
            image_color_space: self.image_color_space.raw(),
            image_extent: self.image_extent,
            image_array_layers: self.image_array_layers,
            image_usage: self.image_usage.bits(),
            image_sharing_mode: self.image_sharing_mode.raw(),
            queue_family_index_count: match self.image_sharing_mode {
                SharingMode::Exclusive => 0,
                SharingMode::Concurrent(indices) => indices.len() as u32,
            },
            queue_family_indices: self.image_sharing_mode.queue_family_indices(),
            pre_transform: self.pre_transform.bit(),
            composite_alpha: self.composite_alpha.bit(),
            present_mode: self.present_mode.raw(),
            clipped: if self.clipped {
                1
            } else {
                0
            },
            old_swapchain: None,
        }
    }

    /// The call that creates the swap-chain on `device`; none where the
    /// device's table has no command for it.
    pub open spec fn spec_build_call(&self, device: &Device<'_>) -> Option<NativeCall<'b>> {
        match device.dispatch_loader.vk_create_swapchain_khr {
            Some(pfn) => Some(
                NativeCall::CreateSwapchain {
                    pfn,
                    device: device.handle,
                    info: self.spec_create_info(),
                },
            ),
            None => None,
        }
    }

    /// The one call that creates the swap-chain on `device`. There is none
    /// where the device's table has no command for it.
    pub fn build_call(&self, device: &Device<'_>) -> (r: Option<NativeCall<'b>>)
        requires
            self.spec_queue_family_index_count() <= u32::MAX,
        ensures
            r == self.spec_build_call(device),
    {
        match device.dispatch_loader.vk_create_swapchain_khr {
            Some(pfn) => Some(
                NativeCall::CreateSwapchain { pfn, device: device.handle, info: self.create_info() },
            ),
            None => None,
        }
    }

    /// Reads the answer of the swap-chain creation. Nothing is read where
    /// the device's table has no command for it.
    pub fn build(self, device: &'a Device<'a>, code: i32, raw: u64) -> (r: Option<
        Result<SwapchainKhr<'a>, Error>,
    >)
        requires
            creation_reply_expected(code as int, raw),
        ensures
            r is None <==> self.spec_build_call(device) is None,
            r matches Some(answer) ==> match spec_created(code as int, raw) {
                Err(e) => answer == Err::<SwapchainKhr<'a>, Error>(e),
                Ok(handle) => answer matches Ok(swapchain) && swapchain.handle == handle
                    && swapchain.device == device,
            },
    {
        if device.dispatch_loader.vk_create_swapchain_khr.is_none() {
            return None;
        }
        match created(code, raw) {
            Err(e) => Some(Err(e)),
            Ok(handle) => Some(Ok(SwapchainKhr { handle, device })),
        }
    }
}

/// Whether `symbols` holds none of the swap-chain commands, as when the
/// swap-chain extension was not enabled for the device.
pub open spec fn spec_swapchain_absent(symbols: ResolvedCommands) -> bool {
    &&& symbols.spec_get(Command::CreateSwapchainKhr) is None
    &&& symbols.spec_get(Command::DestroySwapchainKhr) is None
    &&& symbols.spec_get(Command::GetSwapchainImagesKhr) is None
}

/// Gating of the swap-chain commands: on a device whose table was made from
/// answers of the resolver that hold none of them, no swap-chain operation
/// gives a call. Creating a swap-chain, enumerating its images and
/// destroying it each report that the operation is unsupported.
pub proof fn lemma_swapchain_gated(
    symbols: ResolvedCommands,
    device: &Device<'_>,
    builder: SwapchainBuilderKhr<'_, '_>,
    swapchain: SwapchainKhr<'_>,
    capacity: Option<u32>,
)
    requires
        device.dispatch_loader.spec_made_from(symbols),
        spec_swapchain_absent(symbols),
        swapchain.device == device,
    ensures
        builder.spec_build_call(device) is None,
        device.spec_get_swapchain_images_khr_call(swapchain.handle, capacity) is None,
        swapchain.spec_destroy_call() is None,
{
    let table = device.dispatch_loader;
    assert(table.spec_entry(Command::CreateSwapchainKhr) is None);
    assert(table.spec_entry(Command::DestroySwapchainKhr) is None);
    assert(table.spec_entry(Command::GetSwapchainImagesKhr) is None);
}

} // verus!
