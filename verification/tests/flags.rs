use vulkan_rs::bits::bit_at;
use vulkan_rs::resource::{
    ComponentMapping, ComponentSwizzle, ImageAspect, ImageAspectFlags, ImageAspectFlagsBuilder,
    ImageSubresourceRange, ImageUsage, ImageUsageFlags, ImageUsageFlagsBuilder, ImageViewCreate,
    ImageViewCreateFlags, ImageViewCreateFlagsBuilder, ImageViewType, SharingMode,
};
use vulkan_rs::wsi::{
    CompositeAlphaFlagsKhr, CompositeAlphaKhr, SurfaceTransformFlagsKhr, SurfaceTransformKhr,
    SwapchainCreateFlagsBuilderKhr, SwapchainCreateFlagsKhr, SwapchainCreateKhr,
};

#[test]
fn single_bits() {
    assert_eq!(bit_at(0), 1);
    assert_eq!(bit_at(1), 2);
    assert_eq!(bit_at(10), 1024);
    assert_eq!(bit_at(31), 0x8000_0000);
}

#[test]
fn image_aspect_bits() {
    assert_eq!(ImageAspect::Color.bit(), 0x001);
    assert_eq!(ImageAspect::Depth.bit(), 0x002);
    assert_eq!(ImageAspect::Stencil.bit(), 0x004);
    assert_eq!(ImageAspect::Metadata.bit(), 0x008);
    assert_eq!(ImageAspect::Plane0.bit(), 0x010);
    assert_eq!(ImageAspect::Plane1.bit(), 0x020);
    assert_eq!(ImageAspect::Plane2.bit(), 0x040);
    assert_eq!(ImageAspect::MemoryPlane0Ext.bit(), 0x080);
    assert_eq!(ImageAspect::MemoryPlane1Ext.bit(), 0x100);
    assert_eq!(ImageAspect::MemoryPlane2Ext.bit(), 0x200);
    assert_eq!(ImageAspect::MemoryPlane3Ext.bit(), 0x400);
    assert_eq!(ImageAspect::MemoryPlane3Ext.position(), 10);
}

#[test]
fn an_empty_builder_builds_the_empty_set() {
    assert_eq!(ImageAspectFlagsBuilder::new().build().bits(), 0);
    assert_eq!(ImageUsageFlagsBuilder::new().build().bits(), 0);
    assert_eq!(ImageViewCreateFlagsBuilder::new().build().bits(), 0);
    assert_eq!(SwapchainCreateFlagsBuilderKhr::new().build().bits(), 0);
}

#[test]
fn image_aspects_are_set_one_by_one() {
    let flags = ImageAspectFlagsBuilder::new().color(true).stencil(true).build();
    assert_eq!(flags.bits(), 0b101);
    assert!(flags.contains(ImageAspect::Color));
    assert!(!flags.contains(ImageAspect::Depth));
    assert!(flags.contains(ImageAspect::Stencil));
    let all = ImageAspectFlagsBuilder::new()
        .color(true)
        .depth(true)
        .stencil(true)
        .metadata(true)
        .plane0(true)
        .plane1(true)
        .plane2(true)
        .memory_plane0(true)
        .memory_plane1(true)
        .memory_plane2(true)
        .memory_plane3(true)
        .build();
    assert_eq!(all.bits(), 0x7FF);
}

#[test]
fn a_builder_only_ever_adds_flags() {
    let flags = ImageAspectFlagsBuilder::new().color(true).depth(true).color(false).build();
    assert_eq!(flags.bits(), 0b11);
    assert!(flags.contains(ImageAspect::Color));
    assert!(flags.contains(ImageAspect::Depth));
    let same = ImageAspectFlagsBuilder::new().depth(false).build();
    assert_eq!(same.bits(), 0);
    let twice = ImageAspectFlagsBuilder::new().depth(true).depth(true).build();
    assert_eq!(twice.bits(), 0b10);
}

#[test]
fn a_builder_can_be_kept_and_used_again() {
    let mut builder = ImageUsageFlagsBuilder::new();
    builder.sampled(true);
    assert_eq!(builder.build().bits(), 0x4);
    builder.storage(true).sampled(false);
    assert_eq!(builder.build().bits(), 0xC);
}

#[test]
fn image_usage_bits() {
    assert_eq!(ImageUsage::TransferSrc.bit(), 0x001);
    assert_eq!(ImageUsage::TransferDst.bit(), 0x002);
    assert_eq!(ImageUsage::Sampled.bit(), 0x004);
    assert_eq!(ImageUsage::Storage.bit(), 0x008);
    assert_eq!(ImageUsage::ColorAttachment.bit(), 0x010);
    assert_eq!(ImageUsage::DepthStencilAttachment.bit(), 0x020);
    assert_eq!(ImageUsage::TransientAttachment.bit(), 0x040);
    assert_eq!(ImageUsage::InputAttachment.bit(), 0x080);
    assert_eq!(ImageUsage::ShadingRateImageNv.bit(), 0x100);
    assert_eq!(ImageUsage::FragmentDensityMapExt.bit(), 0x200);
    let all = ImageUsageFlagsBuilder::new()
        .transfer_src(true)
        .transfer_dst(true)
        .sampled(true)
        .storage(true)
        .color_attachment(true)
        .depth_stencil_attachment(true)
        .transient_attachment(true)
        .input_attachment(true)
        .shading_rate_image_nv(true)
        .fragment_density_map_ext(true)
        .build();
    assert_eq!(all.bits(), 0x3FF);
    assert!(all.contains(ImageUsage::InputAttachment));
}

#[test]
fn flag_sets_keep_the_bits_they_are_read_from() {
    let usage = ImageUsageFlags::from_bits(0xFFFF_0011);
    assert_eq!(usage.bits(), 0xFFFF_0011);
    assert!(usage.contains(ImageUsage::TransferSrc));
    assert!(usage.contains(ImageUsage::ColorAttachment));
    assert!(!usage.contains(ImageUsage::Sampled));
    let aspects = ImageAspectFlags::from_bits(0x400);
    assert!(aspects.contains(ImageAspect::MemoryPlane3Ext));
    assert!(!aspects.contains(ImageAspect::Color));
    let views = ImageViewCreateFlags::from_bits(2);
    assert!(views.contains(ImageViewCreate::FragmentDensityMapDeferredExt));
    assert!(!views.contains(ImageViewCreate::FragmentDensityMapDynamicExt));
    let transforms = SurfaceTransformFlagsKhr::from_bits(0x101);
    assert!(transforms.contains(SurfaceTransformKhr::IdentityKhr));
    assert!(transforms.contains(SurfaceTransformKhr::InheritKhr));
    assert!(!transforms.contains(SurfaceTransformKhr::HorizontalMirrorKhr));
    let alpha = CompositeAlphaFlagsKhr::from_bits(0b0110);
    assert!(alpha.contains(CompositeAlphaKhr::PreMultipliedKhr));
    assert!(alpha.contains(CompositeAlphaKhr::PostMultipliedKhr));
    assert!(!alpha.contains(CompositeAlphaKhr::OpaqueKhr));
    let swapchain = SwapchainCreateFlagsKhr::from_bits(0b100);
    assert!(swapchain.contains(SwapchainCreateKhr::MutableFormatKhr));
    assert!(!swapchain.contains(SwapchainCreateKhr::ProtectedKhr));
}

#[test]
fn image_view_and_swapchain_flags() {
    assert_eq!(ImageViewCreate::FragmentDensityMapDynamicExt.bit(), 1);
    assert_eq!(ImageViewCreate::FragmentDensityMapDeferredExt.bit(), 2);
    let views = ImageViewCreateFlagsBuilder::new()
        .fragment_density_map_dynamic_ext(true)
        .fragment_density_map_deferred_ext(true)
        .build();
    assert_eq!(views.bits(), 3);
    assert_eq!(SwapchainCreateKhr::SplitInstanceBindRegionsKhr.bit(), 1);
    assert_eq!(SwapchainCreateKhr::ProtectedKhr.bit(), 2);
    assert_eq!(SwapchainCreateKhr::MutableFormatKhr.bit(), 4);
    let flags = SwapchainCreateFlagsBuilderKhr::new()
        .split_instance_bind_regions(true)
        .protected(true)
        .mutable_format(true)
        .protected(false)
        .build();
    assert_eq!(flags.bits(), 0b111);
    let two = SwapchainCreateFlagsBuilderKhr::new()
        .split_instance_bind_regions(true)
        .protected(false)
        .mutable_format(true)
        .build();
    assert_eq!(two.bits(), 0b101);
}

#[test]
fn transform_positions() {
    assert_eq!(SurfaceTransformKhr::IdentityKhr.position(), 0);
    assert_eq!(SurfaceTransformKhr::HorizontalMirrorKhr.bit(), 0x10);
    assert_eq!(SurfaceTransformKhr::HorizontalMirrorRotate270Khr.bit(), 0x80);
    assert_eq!(CompositeAlphaKhr::PostMultipliedKhr.position(), 2);
}

#[test]
fn view_types_and_swizzles() {
    assert_eq!(ImageViewType::OneD.raw(), 0);
    assert_eq!(ImageViewType::TwoD.raw(), 1);
    assert_eq!(ImageViewType::ThreeD.raw(), 2);
    assert_eq!(ImageViewType::Cube.raw(), 3);
    assert_eq!(ImageViewType::OneDArray.raw(), 4);
    assert_eq!(ImageViewType::TwoDArray.raw(), 5);
    assert_eq!(ImageViewType::CubeArray.raw(), 6);
    assert_eq!(ImageViewType::from_raw(6), Some(ImageViewType::CubeArray));
    assert_eq!(ImageViewType::from_raw(7), None);
    assert_eq!(ComponentSwizzle::Identity.raw(), 0);
    assert_eq!(ComponentSwizzle::Alpha.raw(), 6);
    assert_eq!(ComponentSwizzle::from_raw(3), Some(ComponentSwizzle::Red));
    assert_eq!(ComponentSwizzle::from_raw(-1), None);
    assert_eq!(ComponentSwizzle::default(), ComponentSwizzle::Identity);
}

#[test]
fn component_mappings() {
    let identity = ComponentMapping::default();
    assert_eq!(identity.red, ComponentSwizzle::Identity);
    assert_eq!(identity.alpha, ComponentSwizzle::Identity);
    let native = identity.to_native();
    assert_eq!((native.r, native.g, native.b, native.a), (0, 0, 0, 0));
    let swapped = ComponentMapping::new(
        ComponentSwizzle::Blue,
        ComponentSwizzle::Green,
        ComponentSwizzle::Red,
        ComponentSwizzle::One,
    );
    let native = swapped.to_native();
    assert_eq!((native.r, native.g, native.b, native.a), (5, 4, 3, 2));
}

#[test]
fn subresource_ranges() {
    let aspects = ImageAspectFlagsBuilder::new().depth(true).stencil(true).build();
    let range = ImageSubresourceRange::new(aspects, 1, 2, 3, 4);
    let native = range.to_native();
    assert_eq!(native.aspect_mask, 6);
    assert_eq!(native.base_mip_level, 1);
    assert_eq!(native.level_count, 2);
    assert_eq!(native.base_array_layer, 3);
    assert_eq!(native.layer_count, 4);
}

#[test]
fn sharing_modes() {
    let families: [u32; 3] = [0, 1, 4];
    assert_eq!(SharingMode::Exclusive.raw(), 0);
    assert_eq!(SharingMode::Exclusive.queue_family_indices(), None);
    assert_eq!(SharingMode::Concurrent(&families).raw(), 1);
    assert_eq!(SharingMode::Concurrent(&families).queue_family_indices(), Some(&families[..]));
}
