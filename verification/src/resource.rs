//! Images, image views and the values that describe them.

use vstd::prelude::*;
use crate::bits::{bit_at, lemma_empty, lemma_set, spec_bit_at, spec_has_bit};
use crate::command::Command;
use crate::common::Error;
use crate::device::Device;
use crate::format::Format;
use crate::handle::Handle;
use crate::native;
use crate::native::{DestroyCall, NativeCall, StructureType};
use crate::reply::{created, creation_reply_expected, spec_created};

verus! {

/// How the image behind a view is addressed.
#[derive(Debug, Clone, Copy, PartialEq, Eq, Structural)]
pub enum ImageViewType {
    OneD,
    TwoD,
    ThreeD,
    Cube,
    OneDArray,
    TwoDArray,
    CubeArray,
}

impl ImageViewType {
    /// The integer the native layer reads for this view type.
    pub open spec fn spec_raw(self) -> i32 {
        match self {
            ImageViewType::OneD => 0,
            ImageViewType::TwoD => 1,
            ImageViewType::ThreeD => 2,
            ImageViewType::Cube => 3,
            ImageViewType::OneDArray => 4,
            ImageViewType::TwoDArray => 5,
            ImageViewType::CubeArray => 6,
        }
    }

    /// The view type that the native layer writes as `raw`, if there is one.
    pub open spec fn spec_from_raw(raw: i32) -> Option<ImageViewType> {
        match raw {
            0 => Some(ImageViewType::OneD),
            1 => Some(ImageViewType::TwoD),
            2 => Some(ImageViewType::ThreeD),
            3 => Some(ImageViewType::Cube),
            4 => Some(ImageViewType::OneDArray),
            5 => Some(ImageViewType::TwoDArray),
            6 => Some(ImageViewType::CubeArray),
            _ => None,
        }
    }

    pub fn raw(&self) -> (r: i32)
        ensures
            r == self.spec_raw(),
    {
        match self {
            ImageViewType::OneD => 0,
            ImageViewType::TwoD => 1,
            ImageViewType::ThreeD => 2,
            ImageViewType::Cube => 3,
            ImageViewType::OneDArray => 4,
            ImageViewType::TwoDArray => 5,
            ImageViewType::CubeArray => 6,
        }
    }

    /// Reads a view type the native layer wrote. `None` is returned for an integer
    /// that stands for none.
    pub fn from_raw(raw: i32) -> (r: Option<ImageViewType>)
        ensures
            r == ImageViewType::spec_from_raw(raw),
    {
        match raw {
            0 => Some(ImageViewType::OneD),
            1 => Some(ImageViewType::TwoD),
            2 => Some(ImageViewType::ThreeD),
            3 => Some(ImageViewType::Cube),
            4 => Some(ImageViewType::OneDArray),
            5 => Some(ImageViewType::TwoDArray),
            6 => Some(ImageViewType::CubeArray),
            _ => None,
        }
    }

    /// Reading the integer of a view type gives that view type back.
    pub proof fn lemma_raw_round_trip(v: ImageViewType)
        ensures
            ImageViewType::spec_from_raw(v.spec_raw()) == Some(v),
    {
    }

    /// A view type that is read from an integer has that integer.
    pub proof fn lemma_from_raw_sound(raw: i32)
        ensures
            ImageViewType::spec_from_raw(raw) matches Some(v) ==> v.spec_raw() == raw,
    {
    }
}

/// An aspect of an image that a view can select.
#[derive(Debug, Clone, Copy, PartialEq, Eq, Structural)]
pub enum ImageAspect {
    Color,
    Depth,
    Stencil,
    Metadata,
    Plane0,
    Plane1,
    Plane2,
    MemoryPlane0Ext,
    MemoryPlane1Ext,
    MemoryPlane2Ext,
    MemoryPlane3Ext,
}

impl ImageAspect {
    /// The position of the bit that stands for this flag.
    pub open spec fn spec_position(self) -> u32 {
        match self {
            ImageAspect::Color => 0,
            ImageAspect::Depth => 1,
            ImageAspect::Stencil => 2,
            ImageAspect::Metadata => 3,
            ImageAspect::Plane0 => 4,
            ImageAspect::Plane1 => 5,
            ImageAspect::Plane2 => 6,
            ImageAspect::MemoryPlane0Ext => 7,
            ImageAspect::MemoryPlane1Ext => 8,
            ImageAspect::MemoryPlane2Ext => 9,
            ImageAspect::MemoryPlane3Ext => 10,
        }
    }

    /// The mask that has only this flag's bit set.
    pub open spec fn spec_bit(self) -> u32 {
        spec_bit_at(self.spec_position())
    }

    pub fn position(&self) -> (r: u32)
        ensures
            r == self.spec_position(),
            r < 32,
    {
        match self {
            ImageAspect::Color => 0,
            ImageAspect::Depth => 1,
            ImageAspect::Stencil => 2,
            ImageAspect::Metadata => 3,
            ImageAspect::Plane0 => 4,
            ImageAspect::Plane1 => 5,
            ImageAspect::Plane2 => 6,
            ImageAspect::MemoryPlane0Ext => 7,
            ImageAspect::MemoryPlane1Ext => 8,
            ImageAspect::MemoryPlane2Ext => 9,
            ImageAspect::MemoryPlane3Ext => 10,
        }
    }

    pub fn bit(&self) -> (r: u32)
        ensures
            r == self.spec_bit(),
            r != 0,
    {
        bit_at(self.position())
    }
}

/// A set of image aspects.
#[derive(Debug, Default, Clone, Copy, PartialEq, Eq, Structural)]
pub struct ImageAspectFlags(u32);

impl ImageAspectFlags {
    /// The mask the native layer reads.
    pub closed spec fn spec_bits(self) -> u32 {
        self.0
    }

    /// Whether the flag is in the set.
    pub open spec fn spec_contains(self, flag: ImageAspect) -> bool {
        spec_has_bit(self.spec_bits(), flag.spec_position())
    }

    /// The set that the native layer writes as `bits`.
    pub fn from_bits(bits: u32) -> (r: Self)
        ensures
            r.spec_bits() == bits,
    {
        Self(bits)
    }

    pub fn bits(&self) -> (r: u32)
        ensures
            r == self.spec_bits(),
    {
        self.0
    }

    pub fn contains(&self, flag: ImageAspect) -> (r: bool)
        ensures
            r == self.spec_contains(flag),
    {
        self.0 & flag.bit() != 0
    }
}

/// Collects image aspects, one call for each.
#[derive(Default)]
pub struct ImageAspectFlagsBuilder(u32);

impl ImageAspectFlagsBuilder {
    /// The mask built so far.
    pub closed spec fn spec_bits(self) -> u32 {
        self.0
    }

    /// Whether the flag has been put in.
    pub open spec fn spec_contains(self, flag: ImageAspect) -> bool {
        spec_has_bit(self.spec_bits(), flag.spec_position())
    }

    /// What putting `flag` in, if `on`, makes of a builder: the flag is
    /// in afterwards, and every other flag is in or out as before.
    pub open spec fn spec_with(self, flag: ImageAspect, on: bool, after: Self) -> bool {
        &&& after.spec_bits() == (if on {
            self.spec_bits() | flag.spec_bit()
        } else {
            self.spec_bits()
        })
        &&& forall|f: ImageAspect|
            #[trigger] after.spec_contains(f) == ((on && f == flag) || self.spec_contains(f))
    }

    /// An empty set of flags.
    pub fn new() -> (r: Self)
        ensures
            r.spec_bits() == 0,
            forall|f: ImageAspect| !r.spec_contains(f),
    {
        proof {
            assert forall|f: ImageAspect| !spec_has_bit(0, f.spec_position()) by {
                lemma_empty(f.spec_position());
            }
        }
        Self(0)
    }

    fn put(&mut self, flag: ImageAspect, on: bool)
        ensures
            old(self).spec_with(flag, on, *final(self)),
    {
        let bit: u32 = flag.bit();
        proof {
            assert forall|f: ImageAspect|
                spec_has_bit(self.0 | flag.spec_bit(), f.spec_position()) == (f == flag
                    || spec_has_bit(self.0, f.spec_position())) by {
                lemma_set(self.0, flag.spec_position(), f.spec_position());
            }
        }
        if on {
            self.0 |= bit;
        }
    }

    pub fn color(&mut self, color: bool) -> (r: &mut Self)
        ensures
            old(self).spec_with(ImageAspect::Color, color, *r),
            *final(self) == *final(r),
    {
        self.put(ImageAspect::Color, color);
        self
    }

    pub fn depth(&mut self, depth: bool) -> (r: &mut Self)
        ensures
            old(self).spec_with(ImageAspect::Depth, depth, *r),
            *final(self) == *final(r),
    {
        self.put(ImageAspect::Depth, depth);
        self
    }

    pub fn stencil(&mut self, stencil: bool) -> (r: &mut Self)
        ensures
            old(self).spec_with(ImageAspect::Stencil, stencil, *r),
            *final(self) == *final(r),
    {
        self.put(ImageAspect::Stencil, stencil);
        self
    }

    pub fn metadata(&mut self, metadata: bool) -> (r: &mut Self)
        ensures
            old(self).spec_with(ImageAspect::Metadata, metadata, *r),
            *final(self) == *final(r),
    {
        self.put(ImageAspect::Metadata, metadata);
        self
    }

    pub fn plane0(&mut self, plane0: bool) -> (r: &mut Self)
        ensures
            old(self).spec_with(ImageAspect::Plane0, plane0, *r),
            *final(self) == *final(r),
    {
        self.put(ImageAspect::Plane0, plane0);
        self
    }

    pub fn plane1(&mut self, plane1: bool) -> (r: &mut Self)
        ensures
            old(self).spec_with(ImageAspect::Plane1, plane1, *r),
            *final(self) == *final(r),
    {
        self.put(ImageAspect::Plane1, plane1);
        self
    }

    pub fn plane2(&mut self, plane2: bool) -> (r: &mut Self)
        ensures
            old(self).spec_with(ImageAspect::Plane2, plane2, *r),
            *final(self) == *final(r),
    {
        self.put(ImageAspect::Plane2, plane2);
        self
    }

    pub fn memory_plane0(&mut self, memory_plane0: bool) -> (r: &mut Self)
        ensures
            old(self).spec_with(ImageAspect::MemoryPlane0Ext, memory_plane0, *r),
            *final(self) == *final(r),
    {
        self.put(ImageAspect::MemoryPlane0Ext, memory_plane0);
        self
    }

    pub fn memory_plane1(&mut self, memory_plane1: bool) -> (r: &mut Self)
        ensures
            old(self).spec_with(ImageAspect::MemoryPlane1Ext, memory_plane1, *r),
            *final(self) == *final(r),
    {
        self.put(ImageAspect::MemoryPlane1Ext, memory_plane1);
        self
    }

    pub fn memory_plane2(&mut self, memory_plane2: bool) -> (r: &mut Self)
        ensures
            old(self).spec_with(ImageAspect::MemoryPlane2Ext, memory_plane2, *r),
            *final(self) == *final(r),
    {
        self.put(ImageAspect::MemoryPlane2Ext, memory_plane2);
        self
    }

    pub fn memory_plane3(&mut self, memory_plane3: bool) -> (r: &mut Self)
        ensures
            old(self).spec_with(ImageAspect::MemoryPlane3Ext, memory_plane3, *r),
            *final(self) == *final(r),
    {
        self.put(ImageAspect::MemoryPlane3Ext, memory_plane3);
        self
    }

    pub fn build(&self) -> (r: ImageAspectFlags)
        ensures
            r.spec_bits() == self.spec_bits(),
            forall|f: ImageAspect| r.spec_contains(f) == self.spec_contains(f),
    {
        ImageAspectFlags::from_bits(self.0)
    }
}

/// Where a component of a view takes its value from.
#[derive(Debug, Clone, Copy, PartialEq, Eq, Structural)]
pub enum ComponentSwizzle {
    Identity,
    Zero,
    One,
    Red,
    Green,
    Blue,
    Alpha,
}

impl ComponentSwizzle {
    /// The integer the native layer reads for this swizzle.
    pub open spec fn spec_raw(self) -> i32 {
        match self {
            ComponentSwizzle::Identity => 0,
            ComponentSwizzle::Zero => 1,
            ComponentSwizzle::One => 2,
            ComponentSwizzle::Red => 3,
            ComponentSwizzle::Green => 4,
            ComponentSwizzle::Blue => 5,
            ComponentSwizzle::Alpha => 6,
        }
    }

    /// The swizzle that the native layer writes as `raw`, if there is one.
    pub open spec fn spec_from_raw(raw: i32) -> Option<ComponentSwizzle> {
        match raw {
            0 => Some(ComponentSwizzle::Identity),
            1 => Some(ComponentSwizzle::Zero),
            2 => Some(ComponentSwizzle::One),
            3 => Some(ComponentSwizzle::Red),
            4 => Some(ComponentSwizzle::Green),
            5 => Some(ComponentSwizzle::Blue),
            6 => Some(ComponentSwizzle::Alpha),
            _ => None,
        }
    }

    pub fn raw(&self) -> (r: i32)
        ensures
            r == self.spec_raw(),
    {
        match self {
            ComponentSwizzle::Identity => 0,
            ComponentSwizzle::Zero => 1,
            ComponentSwizzle::One => 2,
            ComponentSwizzle::Red => 3,
            ComponentSwizzle::Green => 4,
            ComponentSwizzle::Blue => 5,
            ComponentSwizzle::Alpha => 6,
        }
    }

    /// Reads a swizzle the native layer wrote. `None` is returned for an integer
    /// that stands for none.
    pub fn from_raw(raw: i32) -> (r: Option<ComponentSwizzle>)
        ensures
            r == ComponentSwizzle::spec_from_raw(raw),
    {
        match raw {
            0 => Some(ComponentSwizzle::Identity),
            1 => Some(ComponentSwizzle::Zero),
            2 => Some(ComponentSwizzle::One),
            3 => Some(ComponentSwizzle::Red),
            4 => Some(ComponentSwizzle::Green),
            5 => Some(ComponentSwizzle::Blue),
            6 => Some(ComponentSwizzle::Alpha),
            _ => None,
        }
    }

    /// Reading the integer of a swizzle gives that swizzle back.
    pub proof fn lemma_raw_round_trip(v: ComponentSwizzle)
        ensures
            ComponentSwizzle::spec_from_raw(v.spec_raw()) == Some(v),
    {
    }

    /// A swizzle that is read from an integer has that integer.
    pub proof fn lemma_from_raw_sound(raw: i32)
        ensures
            ComponentSwizzle::spec_from_raw(raw) matches Some(v) ==> v.spec_raw() == raw,
    {
    }
}

impl Default for ComponentSwizzle {
    fn default() -> (r: Self)
        ensures
            r == ComponentSwizzle::Identity,
    {
        ComponentSwizzle::Identity
    }
}

/// Whether an image is used by one queue family at a time or by several at
/// once, and then by which.
#[derive(Debug, Clone, Copy)]
pub enum SharingMode<'a> {
    Exclusive,
    Concurrent(&'a [u32]),
}

impl<'a> SharingMode<'a> {
    /// The integer the native layer reads for this mode.
    pub open spec fn spec_raw(self) -> i32 {
        match self {
            SharingMode::Exclusive => 0,
            SharingMode::Concurrent(_) => 1,
        }
    }

    /// The queue families that share the image; none where it is not
    /// shared.
    pub open spec fn spec_queue_family_indices(self) -> Option<&'a [u32]> {
        match self {
            SharingMode::Exclusive => None,
            SharingMode::Concurrent(indices) => Some(indices),
        }
    }

    pub fn raw(&self) -> (r: i32)
        ensures
            r == self.spec_raw(),
    {
        match self {
            SharingMode::Exclusive => 0,
            SharingMode::Concurrent(_) => 1,
        }
    }

    pub fn queue_family_indices(&self) -> (r: Option<&'a [u32]>)
        ensures
            r == self.spec_queue_family_indices(),
    {
        match self {
            SharingMode::Exclusive => None,
            SharingMode::Concurrent(indices) => Some(*indices),
        }
    }
}

/// The mip levels and array layers of an image that a view shows.
#[derive(Debug, Clone, Copy, PartialEq, Eq, Structural)]
pub struct ImageSubresourceRange {
    pub aspect_mask: ImageAspectFlags,
    pub base_mip_level: u32,
    pub level_count: u32,
    pub base_array_layer: u32,
    pub layer_count: u32,
}

impl ImageSubresourceRange {
    pub fn new(
        aspect_mask: ImageAspectFlags,
        base_mip_level: u32,
        level_count: u32,
        base_array_layer: u32,
        layer_count: u32,
    ) -> (r: Self)
        ensures
            r == (ImageSubresourceRange {
                aspect_mask,
                base_mip_level,
                level_count,
                base_array_layer,
                layer_count,
            }),
    {
        Self { aspect_mask, base_mip_level, level_count, base_array_layer, layer_count }
    }

    /// The range as the native layer reads it.
    pub open spec fn spec_to_native(self) -> native::ImageSubresourceRange {
        native::ImageSubresourceRange {
            aspect_mask: self.aspect_mask.spec_bits(),
            base_mip_level: self.base_mip_level,
            level_count: self.level_count,
            base_array_layer: self.base_array_layer,
            layer_count: self.layer_count,
        }
    }

    pub fn to_native(&self) -> (r: native::ImageSubresourceRange)
        ensures
            r == self.spec_to_native(),
    {
        native::ImageSubresourceRange {
            aspect_mask: self.aspect_mask.bits(),
            base_mip_level: self.base_mip_level,
            level_count: self.level_count,
            base_array_layer: self.base_array_layer,
            layer_count: self.layer_count,
        }
    }
}

/// A way in which an image can be used.
#[derive(Debug, Clone, Copy, PartialEq, Eq, Structural)]
pub enum ImageUsage {
    TransferSrc,
    TransferDst,
    Sampled,
    Storage,
    ColorAttachment,
    DepthStencilAttachment,
    TransientAttachment,
    InputAttachment,
    ShadingRateImageNv,
    FragmentDensityMapExt,
}

impl ImageUsage {
    /// The position of the bit that stands for this flag.
    pub open spec fn spec_position(self) -> u32 {
        match self {
            ImageUsage::TransferSrc => 0,
            ImageUsage::TransferDst => 1,
            ImageUsage::Sampled => 2,
            ImageUsage::Storage => 3,
            ImageUsage::ColorAttachment => 4,
            ImageUsage::DepthStencilAttachment => 5,
            ImageUsage::TransientAttachment => 6,
            ImageUsage::InputAttachment => 7,
            ImageUsage::ShadingRateImageNv => 8,
            ImageUsage::FragmentDensityMapExt => 9,
        }
    }

    /// The mask that has only this flag's bit set.
    pub open spec fn spec_bit(self) -> u32 {
        spec_bit_at(self.spec_position())
    }

    pub fn position(&self) -> (r: u32)
        ensures
            r == self.spec_position(),
            r < 32,
    {
        match self {
            ImageUsage::TransferSrc => 0,
            ImageUsage::TransferDst => 1,
            ImageUsage::Sampled => 2,
            ImageUsage::Storage => 3,
            ImageUsage::ColorAttachment => 4,
            ImageUsage::DepthStencilAttachment => 5,
            ImageUsage::TransientAttachment => 6,
            ImageUsage::InputAttachment => 7,
            ImageUsage::ShadingRateImageNv => 8,
            ImageUsage::FragmentDensityMapExt => 9,
        }
    }

    pub fn bit(&self) -> (r: u32)
        ensures
            r == self.spec_bit(),
            r != 0,
    {
        bit_at(self.position())
    }
}

/// A set of image usages.
#[derive(Debug, Default, Clone, Copy, PartialEq, Eq, Structural)]
pub struct ImageUsageFlags(u32);

impl ImageUsageFlags {
    /// The mask the native layer reads.
    pub closed spec fn spec_bits(self) -> u32 {
        self.0
    }

    /// Whether the flag is in the set.
    pub open spec fn spec_contains(self, flag: ImageUsage) -> bool {
        spec_has_bit(self.spec_bits(), flag.spec_position())
    }

    /// The set that the native layer writes as `bits`.
    pub fn from_bits(bits: u32) -> (r: Self)
        ensures
            r.spec_bits() == bits,
    {
        Self(bits)
    }

    pub fn bits(&self) -> (r: u32)
        ensures
            r == self.spec_bits(),
    {
        self.0
    }

    pub fn contains(&self, flag: ImageUsage) -> (r: bool)
        ensures
            r == self.spec_contains(flag),
    {
        self.0 & flag.bit() != 0
    }
}

/// Collects image usages, one call for each.
#[derive(Default)]
pub struct ImageUsageFlagsBuilder(u32);

impl ImageUsageFlagsBuilder {
    /// The mask built so far.
    pub closed spec fn spec_bits(self) -> u32 {
        self.0
    }

    /// Whether the flag has been put in.
    pub open spec fn spec_contains(self, flag: ImageUsage) -> bool {
        spec_has_bit(self.spec_bits(), flag.spec_position())
    }

    /// What putting `flag` in, if `on`, makes of a builder: the flag is
    /// in afterwards, and every other flag is in or out as before.
    pub open spec fn spec_with(self, flag: ImageUsage, on: bool, after: Self) -> bool {
        &&& after.spec_bits() == (if on {
            self.spec_bits() | flag.spec_bit()
        } else {
            self.spec_bits()
        })
        &&& forall|f: ImageUsage|
            #[trigger] after.spec_contains(f) == ((on && f == flag) || self.spec_contains(f))
    }

    /// An empty set of flags.
    pub fn new() -> (r: Self)
        ensures
            r.spec_bits() == 0,
            forall|f: ImageUsage| !r.spec_contains(f),
    {
        proof {
            assert forall|f: ImageUsage| !spec_has_bit(0, f.spec_position()) by {
                lemma_empty(f.spec_position());
            }
        }
        Self(0)
    }

    fn put(&mut self, flag: ImageUsage, on: bool)
        ensures
            old(self).spec_with(flag, on, *final(self)),
    {
        let bit: u32 = flag.bit();
        proof {
            assert forall|f: ImageUsage|
                spec_has_bit(self.0 | flag.spec_bit(), f.spec_position()) == (f == flag
                    || spec_has_bit(self.0, f.spec_position())) by {
                lemma_set(self.0, flag.spec_position(), f.spec_position());
            }
        }
        if on {
            self.0 |= bit;
        }
    }

    pub fn transfer_src(&mut self, transfer_src: bool) -> (r: &mut Self)
        ensures
            old(self).spec_with(ImageUsage::TransferSrc, transfer_src, *r),
            *final(self) == *final(r),
    {
        self.put(ImageUsage::TransferSrc, transfer_src);
        self
    }

    pub fn transfer_dst(&mut self, transfer_dst: bool) -> (r: &mut Self)
        ensures
            old(self).spec_with(ImageUsage::TransferDst, transfer_dst, *r),
            *final(self) == *final(r),
    {
        self.put(ImageUsage::TransferDst, transfer_dst);
        self
    }

    pub fn sampled(&mut self, sampled: bool) -> (r: &mut Self)
        ensures
            old(self).spec_with(ImageUsage::Sampled, sampled, *r),
            *final(self) == *final(r),
    {
        self.put(ImageUsage::Sampled, sampled);
        self
    }

    pub fn storage(&mut self, storage: bool) -> (r: &mut Self)
        ensures
            old(self).spec_with(ImageUsage::Storage, storage, *r),
            *final(self) == *final(r),
    {
        self.put(ImageUsage::Storage, storage);
        self
    }

    pub fn color_attachment(&mut self, color_attachment: bool) -> (r: &mut Self)
        ensures
            old(self).spec_with(ImageUsage::ColorAttachment, color_attachment, *r),
            *final(self) == *final(r),
    {
        self.put(ImageUsage::ColorAttachment, color_attachment);
        self
    }

    pub fn depth_stencil_attachment(&mut self, depth_stencil_attachment: bool) -> (r: &mut Self)
        ensures
            old(self).spec_with(ImageUsage::DepthStencilAttachment, depth_stencil_attachment, *r),
            *final(self) == *final(r),
    {
        self.put(ImageUsage::DepthStencilAttachment, depth_stencil_attachment);
        self
    }

    pub fn transient_attachment(&mut self, transient_attachment: bool) -> (r: &mut Self)
        ensures
            old(self).spec_with(ImageUsage::TransientAttachment, transient_attachment, *r),
            *final(self) == *final(r),
    {
        self.put(ImageUsage::TransientAttachment, transient_attachment);
        self
    }

    pub fn input_attachment(&mut self, input_attachment: bool) -> (r: &mut Self)
        ensures
            old(self).spec_with(ImageUsage::InputAttachment, input_attachment, *r),
            *final(self) == *final(r),
    {
        self.put(ImageUsage::InputAttachment, input_attachment);
        self
    }

    pub fn shading_rate_image_nv(&mut self, shading_rate_image_nv: bool) -> (r: &mut Self)
        ensures
            old(self).spec_with(ImageUsage::ShadingRateImageNv, shading_rate_image_nv, *r),
            *final(self) == *final(r),
    {
        self.put(ImageUsage::ShadingRateImageNv, shading_rate_image_nv);
        self
    }

    pub fn fragment_density_map_ext(&mut self, fragment_density_map_ext: bool) -> (r: &mut Self)
        ensures
            old(self).spec_with(ImageUsage::FragmentDensityMapExt, fragment_density_map_ext, *r),
            *final(self) == *final(r),
    {
        self.put(ImageUsage::FragmentDensityMapExt, fragment_density_map_ext);
        self
    }

    pub fn build(&self) -> (r: ImageUsageFlags)
        ensures
            r.spec_bits() == self.spec_bits(),
            forall|f: ImageUsage| r.spec_contains(f) == self.spec_contains(f),
    {
        ImageUsageFlags::from_bits(self.0)
    }
}

/// An option in creating an image view.
#[derive(Debug, Clone, Copy, PartialEq, Eq, Structural)]
pub enum ImageViewCreate {
    FragmentDensityMapDynamicExt,
    FragmentDensityMapDeferredExt,
}

impl ImageViewCreate {
    /// The position of the bit that stands for this flag.
    pub open spec fn spec_position(self) -> u32 {
        match self {
            ImageViewCreate::FragmentDensityMapDynamicExt => 0,
            ImageViewCreate::FragmentDensityMapDeferredExt => 1,
        }
    }

    /// The mask that has only this flag's bit set.
    pub open spec fn spec_bit(self) -> u32 {
        spec_bit_at(self.spec_position())
    }

    pub fn position(&self) -> (r: u32)
        ensures
            r == self.spec_position(),
            r < 32,
    {
        match self {
            ImageViewCreate::FragmentDensityMapDynamicExt => 0,
            ImageViewCreate::FragmentDensityMapDeferredExt => 1,
        }
    }

    pub fn bit(&self) -> (r: u32)
        ensures
            r == self.spec_bit(),
            r != 0,
    {
        bit_at(self.position())
    }
}

/// A set of options in creating an image view.
#[derive(Debug, Default, Clone, Copy, PartialEq, Eq, Structural)]
pub struct ImageViewCreateFlags(u32);

impl ImageViewCreateFlags {
    /// The mask the native layer reads.
    pub closed spec fn spec_bits(self) -> u32 {
        self.0
    }

    /// Whether the flag is in the set.
    pub open spec fn spec_contains(self, flag: ImageViewCreate) -> bool {
        spec_has_bit(self.spec_bits(), flag.spec_position())
    }

    /// The set that the native layer writes as `bits`.
    pub fn from_bits(bits: u32) -> (r: Self)
        ensures
            r.spec_bits() == bits,
    {
        Self(bits)
    }

    pub fn bits(&self) -> (r: u32)
        ensures
            r == self.spec_bits(),
    {
        self.0
    }

    pub fn contains(&self, flag: ImageViewCreate) -> (r: bool)
        ensures
            r == self.spec_contains(flag),
    {
        self.0 & flag.bit() != 0
    }
}

/// Collects options in creating an image view, one call for each.
#[derive(Default)]
pub struct ImageViewCreateFlagsBuilder(u32);

impl ImageViewCreateFlagsBuilder {
    /// The mask built so far.
    pub closed spec fn spec_bits(self) -> u32 {
        self.0
    }

    /// Whether the flag has been put in.
    pub open spec fn spec_contains(self, flag: ImageViewCreate) -> bool {
        spec_has_bit(self.spec_bits(), flag.spec_position())
    }

    /// What putting `flag` in, if `on`, makes of a builder: the flag is
    /// in afterwards, and every other flag is in or out as before.
    pub open spec fn spec_with(self, flag: ImageViewCreate, on: bool, after: Self) -> bool {
        &&& after.spec_bits() == (if on {
            self.spec_bits() | flag.spec_bit()
        } else {
            self.spec_bits()
        })
        &&& forall|f: ImageViewCreate|
            #[trigger] after.spec_contains(f) == ((on && f == flag) || self.spec_contains(f))
    }

    /// An empty set of flags.
    pub fn new() -> (r: Self)
        ensures
            r.spec_bits() == 0,
            forall|f: ImageViewCreate| !r.spec_contains(f),
    {
        proof {
            assert forall|f: ImageViewCreate| !spec_has_bit(0, f.spec_position()) by {
                lemma_empty(f.spec_position());
            }
        }
        Self(0)
    }

    fn put(&mut self, flag: ImageViewCreate, on: bool)
        ensures
            old(self).spec_with(flag, on, *final(self)),
    {
        let bit: u32 = flag.bit();
        proof {
            assert forall|f: ImageViewCreate|
                spec_has_bit(self.0 | flag.spec_bit(), f.spec_position()) == (f == flag
                    || spec_has_bit(self.0, f.spec_position())) by {
                lemma_set(self.0, flag.spec_position(), f.spec_position());
            }
        }
        if on {
            self.0 |= bit;
        }
    }

    pub fn fragment_density_map_dynamic_ext(&mut self, fragment_density_map_dynamic_ext: bool) -> (r: &mut Self)
        ensures
            old(self).spec_with(ImageViewCreate::FragmentDensityMapDynamicExt, fragment_density_map_dynamic_ext, *r),
            *final(self) == *final(r),
    {
        self.put(ImageViewCreate::FragmentDensityMapDynamicExt, fragment_density_map_dynamic_ext);
        self
    }

    pub fn fragment_density_map_deferred_ext(&mut self, fragment_density_map_deferred_ext: bool) -> (r: &mut Self)
        ensures
            old(self).spec_with(ImageViewCreate::FragmentDensityMapDeferredExt, fragment_density_map_deferred_ext, *r),
            *final(self) == *final(r),
    {
        self.put(ImageViewCreate::FragmentDensityMapDeferredExt, fragment_density_map_deferred_ext);
        self
    }

    pub fn build(&self) -> (r: ImageViewCreateFlags)
        ensures
            r.spec_bits() == self.spec_bits(),
            forall|f: ImageViewCreate| r.spec_contains(f) == self.spec_contains(f),
    {
        ImageViewCreateFlags::from_bits(self.0)
    }
}

/// Where each of the four components of a view takes its value from.
#[derive(Debug, Clone, Copy, PartialEq, Eq, Structural)]
pub struct ComponentMapping {
    pub red: ComponentSwizzle,
    pub green: ComponentSwizzle,
    pub blue: ComponentSwizzle,
    pub alpha: ComponentSwizzle,
}

impl ComponentMapping {
    pub fn new(
        red: ComponentSwizzle,
        green: ComponentSwizzle,
        blue: ComponentSwizzle,
        alpha: ComponentSwizzle,
    ) -> (r: Self)
        ensures
            r == (ComponentMapping { red, green, blue, alpha }),
    {
        Self { red, green, blue, alpha }
    }

    /// The mapping in which every component takes its own value.
    pub open spec fn spec_identity() -> Self {
        ComponentMapping {
            red: ComponentSwizzle::Identity,
            green: ComponentSwizzle::Identity,
            blue: ComponentSwizzle::Identity,
            alpha: ComponentSwizzle::Identity,
        }
    }

    /// The mapping as the native layer reads it.
    pub open spec fn spec_to_native(self) -> native::ComponentMapping {
        native::ComponentMapping {
            r: self.red.spec_raw(),
            g: self.green.spec_raw(),
            b: self.blue.spec_raw(),
            a: self.alpha.spec_raw(),
        }
    }

    pub fn to_native(&self) -> (r: native::ComponentMapping)
        ensures
            r == self.spec_to_native(),
    {
        native::ComponentMapping {
            r: self.red.raw(),
            g: self.green.raw(),
            b: self.blue.raw(),
            a: self.alpha.raw(),
        }
    }
}

impl Default for ComponentMapping {
    fn default() -> (r: Self)
        ensures
            r == ComponentMapping::spec_identity(),
    {
        ComponentMapping {
            red: ComponentSwizzle::Identity,
            green: ComponentSwizzle::Identity,
            blue: ComponentSwizzle::Identity,
            alpha: ComponentSwizzle::Identity,
        }
    }
}

/// An image. The images of a swap-chain belong to it and are not destroyed
/// one by one.
#[derive(Debug)]
pub struct Image<'a> {
    pub handle: Handle,
    pub device: &'a Device<'a>,
}

/// A view of an image.
#[derive(Debug)]
pub struct ImageView<'a> {
    pub handle: Handle,
    pub device: &'a Device<'a>,
}

/// Collects what an image view is created with.
#[derive(Debug)]
pub struct ImageViewBuilder<'a> {
    pub flags: ImageViewCreateFlags,
    pub image: &'a Image<'a>,
    pub view_type: ImageViewType,
    pub format: Format,
    pub components: ComponentMapping,
    pub subresource_range: ImageSubresourceRange,
}

impl<'a> ImageView<'a> {
    /// The call that destroys the view, through the table of the device
    /// that made it.
    pub fn destroy_call(&self) -> (r: DestroyCall)
        ensures
            r == (DestroyCall {
                command: Command::DestroyImageView,
                pfn: self.device.dispatch_loader.vk_destroy_image_view,
                parent: Some(self.device.handle),
                object: self.handle,
            }),
    {
        DestroyCall {
            command: Command::DestroyImageView,
            pfn: self.device.dispatch_loader.vk_destroy_image_view,
            parent: Some(self.device.handle),
            object: self.handle,
        }
    }
}

impl<'a> ImageViewBuilder<'a> {
    /// A builder with no creation option set and every component taking its
    /// own value.
    pub fn new(
        image: &'a Image<'a>,
        view_type: ImageViewType,
        format: Format,
        subresource_range: ImageSubresourceRange,
    ) -> (r: Self)
        ensures
            r.flags.spec_bits() == 0,
            r.image == image,
            r.view_type == view_type,
            r.format == format,
            r.components == ComponentMapping::spec_identity(),
            r.subresource_range == subresource_range,
    {
        Self {
            flags: ImageViewCreateFlags::from_bits(0),
            image,
            view_type,
            format,
            components: ComponentMapping::default(),
            subresource_range,
        }
    }

    pub fn with_components(&mut self, components: ComponentMapping) -> (r: &mut Self)
        ensures
            *r == (ImageViewBuilder { components, ..*old(self) }),
            *final(self) == *final(r),
    {
        self.components = components;
        self
    }

    pub fn with_flags(&mut self, flags: ImageViewCreateFlags) -> (r: &mut Self)
        ensures
            *r == (ImageViewBuilder { flags, ..*old(self) }),
            *final(self) == *final(r),
    {
        self.flags = flags;
        self
    }

    /// The record that the view is created with: every typed value as the
    /// integer the native layer reads for it.
    pub open spec fn spec_create_info(self) -> native::ImageViewCreateInfo {
        native::ImageViewCreateInfo {
            s_type: StructureType::ImageViewCreateInfo,
            flags: self.flags.spec_bits(),
            image: self.image.handle,
            view_type: self.view_type.spec_raw(),
            format: self.format.spec_raw(),
            components: self.components.spec_to_native(),
            subresource_range: self.subresource_range.spec_to_native(),
        }
    }

    /// The one call that creates the view on `device`.
    pub fn build_call(&self, device: &Device<'_>) -> (r: NativeCall<'static>)
        ensures
            r == (NativeCall::CreateImageView {
                pfn: device.dispatch_loader.vk_create_image_view,
                device: device.handle,
                info: self.spec_create_info(),
            }),
    {
        NativeCall::CreateImageView {
            pfn: device.dispatch_loader.vk_create_image_view,
            device: device.handle,
            info: native::ImageViewCreateInfo {
                s_type: StructureType::ImageViewCreateInfo,
                flags: self.flags.bits(),
                image: self.image.handle,
                view_type: self.view_type.raw(),
                format: self.format.raw(),
                components: self.components.to_native(),
                subresource_range: self.subresource_range.to_native(),
            },
        }
    }

    /// Reads the answer of the view creation.
    pub fn build(self, device: &'a Device<'a>, code: i32, raw: u64) -> (r: Result<
        ImageView<'a>,
        Error,
    >)
        requires
            creation_reply_expected(code as int, raw),
        ensures
            match spec_created(code as int, raw) {
                Err(e) => r == Err::<ImageView<'a>, Error>(e),
                Ok(handle) => r matches Ok(view) && view.handle == handle && view.device == device,
            },
    {
        match created(code, raw) {
            Err(e) => Err(e),
            Ok(handle) => Ok(ImageView { handle, device }),
        }
    }
}

} // verus!
