use vulkan_rs::command::{Command, Platform, ResolvedCommands};
use vulkan_rs::dispatch::DispatchLoaderInstance;
use vulkan_rs::format::Format;
use vulkan_rs::handle::FunctionAddress;
use vulkan_rs::init::Instance;
use vulkan_rs::pipeline::{
    BlendFactor, BlendOp, ColorComponent, ColorComponentFlags, CompareOp, CullMode,
    DynamicState, FrontFace, LogicOp, StencilOp,
    PipelineColorBlendAttachmentState, PipelineColorBlendStateCreateFlags,
    PipelineInputAssemblyStateCreateFlags, PipelineMultisampleStateCreateFlags,
    PipelineRasterizationStateCreateFlags, PipelineViewportStateCreateFlags,
    PipelineInputAssemblyStateCreateInfo, PipelineShaderStageCreateFlags,
    PipelineShaderStageCreateInfo, PipelineVertexInputStateCreateFlags,
    PipelineVertexInputStateCreateInfo, PolygonMode, PrimitiveTopology, SampleCount,
    ShaderStage, VertexInputAttributeDescription, VertexInputBindingDescription,
    VertexInputRate,
};

fn all_symbols() -> ResolvedCommands {
    let commands = [
        Command::EnumerateInstanceVersion,
        Command::CreateInstance,
        Command::DestroyInstance,
        Command::EnumeratePhysicalDevices,
        Command::GetPhysicalDeviceProperties,
        Command::GetPhysicalDeviceQueueFamilyProperties,
        Command::CreateDevice,
        Command::GetDeviceProcAddr,
        Command::DestroyDevice,
        Command::GetDeviceQueue,
        Command::CreateCommandPool,
        Command::DestroyCommandPool,
        Command::AllocateCommandBuffers,
        Command::CreateSemaphore,
        Command::DestroySemaphore,
        Command::CreateImageView,
        Command::DestroyImageView,
        Command::CreateShaderModule,
        Command::DestroyShaderModule,
    ];
    let mut symbols = ResolvedCommands::new();
    for command in commands {
        symbols.record(command, 0x1000 + 16 * command.index());
    }
    symbols
}

#[test]
fn defaults_of_the_pipeline_values() {
    assert_eq!(FrontFace::default(), FrontFace::CounterClockwise);
    assert_eq!(PrimitiveTopology::default(), PrimitiveTopology::PointList);
    assert_eq!(PolygonMode::default(), PolygonMode::Fill);
    assert_eq!(LogicOp::default(), LogicOp::Clear);
    assert_eq!(ShaderStage::default(), ShaderStage::Vertex);
    assert_eq!(CullMode::default(), CullMode::Neither);
    assert_eq!(SampleCount::default(), SampleCount::OneBit);
    assert_eq!(BlendFactor::default(), BlendFactor::Zero);
    assert_eq!(BlendOp::default(), BlendOp::Add);
}

#[test]
fn color_components_are_single_bits() {
    assert_eq!(ColorComponent::Red.bit(), 1);
    assert_eq!(ColorComponent::Green.bit(), 2);
    assert_eq!(ColorComponent::Blue.bit(), 4);
    assert_eq!(ColorComponent::Alpha.bit(), 8);
    assert_eq!(ColorComponent::Alpha.position(), 3);
}

#[test]
fn color_components_are_put_in_and_taken_out() {
    let none = ColorComponentFlags::new();
    assert_eq!(none.bits(), 0);
    let some = none.with_red(true).with_alpha(true);
    assert_eq!(some.bits(), 0b1001);
    assert!(some.contains(ColorComponent::Red));
    assert!(!some.contains(ColorComponent::Green));
    assert!(!some.contains(ColorComponent::Blue));
    assert!(some.contains(ColorComponent::Alpha));
    let fewer = some.with_red(false).with_green(true);
    assert_eq!(fewer.bits(), 0b1010);
    let all = ColorComponentFlags::new()
        .with_red(true)
        .with_green(true)
        .with_blue(true)
        .with_alpha(true);
    assert_eq!(all.bits(), 0xF);
    assert_eq!(all.with_blue(false).bits(), 0b1011);
    assert_eq!(all.with_blue(true), all);
    assert_eq!(none.with_green(false), none);
}

#[test]
fn a_shader_stage_starts_as_the_vertex_stage_at_main() {
    let symbols = all_symbols();
    let bootstrap = FunctionAddress::new(0xB007).unwrap();
    let loader = DispatchLoaderInstance::new(bootstrap, Platform::Unix, &symbols).unwrap();
    let instance = Instance::builder().build(loader, 0, 0x11, &symbols).unwrap();
    let adapters = instance.enumerate_physical_devices(0, 1, &[0x21], &symbols).unwrap();
    let device = adapters[0].create_device(0, 0x31, &symbols).unwrap();
    let module = device.create_shader_module(0, 0x81).unwrap();
    let stage = PipelineShaderStageCreateInfo::new(&module);
    assert_eq!(stage.flags, PipelineShaderStageCreateFlags(0));
    assert_eq!(stage.stage, ShaderStage::Vertex);
    assert_eq!(stage.name, "main");
    assert_eq!(stage.module.handle.raw(), 0x81);
    let fragment = stage
        .with_stage(ShaderStage::Fragment)
        .with_name("shade")
        .with_flags(PipelineShaderStageCreateFlags(2));
    assert_eq!(fragment.stage, ShaderStage::Fragment);
    assert_eq!(fragment.name, "shade");
    assert_eq!(fragment.flags, PipelineShaderStageCreateFlags(2));
    assert_eq!(fragment.module.handle.raw(), 0x81);
}

#[test]
fn vertex_input_state() {
    let bindings = [VertexInputBindingDescription {
        binding: 0,
        stride: 20,
        input_rate: VertexInputRate::Vertex,
    }];
    let attributes = [
        VertexInputAttributeDescription {
            location: 0,
            binding: 0,
            format: Format::R32g32Sfloat,
            offset: 0,
        },
        VertexInputAttributeDescription {
            location: 1,
            binding: 0,
            format: Format::R32g32b32Sfloat,
            offset: 8,
        },
    ];
    let empty = PipelineVertexInputStateCreateInfo::new();
    assert_eq!(empty.flags, PipelineVertexInputStateCreateFlags(0));
    assert!(empty.vertex_binding_descriptions.is_none());
    assert!(empty.vertex_attribute_descriptions.is_none());
    let state = empty
        .with_vertex_binding_descriptions(&bindings)
        .with_vertex_attribute_descriptions(&attributes);
    assert_eq!(state.vertex_binding_descriptions, Some(&bindings[..]));
    assert_eq!(state.vertex_attribute_descriptions, Some(&attributes[..]));
    assert_eq!(state.vertex_attribute_descriptions.unwrap()[1].offset, 8);
}

#[test]
fn input_assembly_state() {
    let state = PipelineInputAssemblyStateCreateInfo::new();
    assert_eq!(state.flags, PipelineInputAssemblyStateCreateFlags(0));
    assert_eq!(state.topology, PrimitiveTopology::PointList);
    assert!(!state.primitive_restart_enable);
    assert_eq!(PipelineInputAssemblyStateCreateInfo::default(), state);
    let strip = state
        .with_topology(PrimitiveTopology::TriangleStrip)
        .with_primitive_restart_enable(true);
    assert_eq!(strip.topology, PrimitiveTopology::TriangleStrip);
    assert!(strip.primitive_restart_enable);
    assert_eq!(strip.with_primitive_restart_enable(false).topology, PrimitiveTopology::TriangleStrip);
}

#[test]
fn color_blend_attachment_state() {
    let state = PipelineColorBlendAttachmentState::new();
    assert!(!state.blend_enable);
    assert_eq!(state.src_color_blend_factor, BlendFactor::Zero);
    assert_eq!(state.dst_color_blend_factor, BlendFactor::Zero);
    assert_eq!(state.color_blend_op, BlendOp::Add);
    assert_eq!(state.src_alpha_blend_factor, BlendFactor::Zero);
    assert_eq!(state.dst_alpha_blend_factor, BlendFactor::Zero);
    assert_eq!(state.alpha_blend_op, BlendOp::Add);
    assert_eq!(state.color_write_mask.bits(), 0);
    let mask = ColorComponentFlags::new().with_red(true).with_green(true).with_blue(true);
    let blended = state
        .with_blend_enable(true)
        .with_src_color_blend_factor(BlendFactor::SrcAlpha)
        .with_dst_color_blend_factor(BlendFactor::OneMinusSrcAlpha)
        .with_color_blend_op(BlendOp::Subtract)
        .with_src_alpha_blend_factor(BlendFactor::One)
        .with_dst_alpha_blend_factor(BlendFactor::DstAlpha)
        .with_alpha_blend_op(BlendOp::Max)
        .with_color_write_mask(mask);
    assert!(blended.blend_enable);
    assert_eq!(blended.src_color_blend_factor, BlendFactor::SrcAlpha);
    assert_eq!(blended.dst_color_blend_factor, BlendFactor::OneMinusSrcAlpha);
    assert_eq!(blended.color_blend_op, BlendOp::Subtract);
    assert_eq!(blended.src_alpha_blend_factor, BlendFactor::One);
    assert_eq!(blended.dst_alpha_blend_factor, BlendFactor::DstAlpha);
    assert_eq!(blended.alpha_blend_op, BlendOp::Max);
    assert_eq!(blended.color_write_mask.bits(), 0b0111);
}

#[test]
fn color_components_are_shown_by_name() {
    let none = ColorComponentFlags::new();
    assert_eq!(none.text(), "()");
    assert_eq!(none.with_red(true).text(), "RED");
    assert_eq!(none.with_green(true).text(), "GREEN");
    assert_eq!(none.with_alpha(true).text(), "ALPHA");
    assert_eq!(none.with_red(true).with_alpha(true).text(), "RED | ALPHA");
    assert_eq!(none.with_green(true).with_blue(true).text(), "BLUE | GREEN");
    let all = none.with_red(true).with_green(true).with_blue(true).with_alpha(true);
    assert_eq!(all.text(), "RED | BLUE | GREEN | ALPHA");
    assert_eq!(all.with_red(false).text(), "BLUE | GREEN | ALPHA");
}

#[test]
fn flags_without_names_are_shown_as_empty_or_not() {
    assert_eq!(PipelineShaderStageCreateFlags(0).text(), "()");
    assert_eq!(PipelineShaderStageCreateFlags(3).text(), "non-empty");
    assert_eq!(PipelineVertexInputStateCreateFlags(0).text(), "()");
    assert_eq!(PipelineVertexInputStateCreateFlags(1).text(), "non-empty");
    assert_eq!(PipelineInputAssemblyStateCreateFlags(0).text(), "()");
    assert_eq!(PipelineInputAssemblyStateCreateFlags(u32::MAX).text(), "non-empty");
    assert_eq!(PipelineViewportStateCreateFlags(0).text(), "()");
    assert_eq!(PipelineViewportStateCreateFlags(8).text(), "non-empty");
    assert_eq!(PipelineRasterizationStateCreateFlags(0).text(), "()");
    assert_eq!(PipelineRasterizationStateCreateFlags(2).text(), "non-empty");
    assert_eq!(PipelineMultisampleStateCreateFlags(0).text(), "()");
    assert_eq!(PipelineMultisampleStateCreateFlags(5).text(), "()");
    assert_eq!(PipelineColorBlendStateCreateFlags(0).text(), "()");
    assert_eq!(PipelineColorBlendStateCreateFlags(5).text(), "()");
}

#[test]
fn pipeline_values_have_their_native_codes() {
    assert_eq!(FrontFace::CounterClockwise.raw(), 0);
    assert_eq!(FrontFace::Clockwise.raw(), 1);
    assert_eq!(VertexInputRate::Instance.raw(), 1);
    assert_eq!(PrimitiveTopology::TriangleList.raw(), 3);
    assert_eq!(PrimitiveTopology::PatchList.raw(), 10);
    assert_eq!(PolygonMode::Point.raw(), 2);
    assert_eq!(PolygonMode::FillRectangleNv.raw(), 1000153000);
    assert_eq!(LogicOp::Clear.raw(), 0);
    assert_eq!(LogicOp::SetOnes.raw(), 15);
    assert_eq!(BlendFactor::OneMinusSrc1Alpha.raw(), 18);
    assert_eq!(BlendOp::Max.raw(), 4);
    assert_eq!(BlendOp::ZeroExt.raw(), 1000148000);
    assert_eq!(CompareOp::Never.raw(), 0);
    assert_eq!(CompareOp::Always.raw(), 7);
    assert_eq!(StencilOp::Keep.raw(), 0);
    assert_eq!(StencilOp::DecrementAndWrap.raw(), 7);
    assert_eq!(DynamicState::Viewport.raw(), 0);
    assert_eq!(DynamicState::StencilReference.raw(), 8);
    assert_eq!(DynamicState::ColorWriteEnableExt.raw(), 1000381000);
}

#[test]
fn stages_cull_modes_and_sample_counts_are_masks() {
    assert_eq!(ShaderStage::Vertex.raw(), 0x01);
    assert_eq!(ShaderStage::Fragment.raw(), 0x10);
    assert_eq!(ShaderStage::Compute.raw(), 0x20);
    assert_eq!(ShaderStage::AllGraphics.raw(), 0x1F);
    assert_eq!(ShaderStage::All.raw(), 0x7FFF_FFFF);
    assert_eq!(CullMode::Neither.raw(), 0);
    assert_eq!(CullMode::Front.raw(), 1);
    assert_eq!(CullMode::Back.raw(), 2);
    assert_eq!(CullMode::FrondAndBack.raw(), 3);
    assert_eq!(SampleCount::OneBit.raw(), 1);
    assert_eq!(SampleCount::SixtyfourBit.raw(), 64);
}

#[test]
fn native_codes_are_read_back() {
    assert_eq!(FrontFace::from_raw(1), Some(FrontFace::Clockwise));
    assert_eq!(FrontFace::from_raw(2), None);
    assert_eq!(PolygonMode::from_raw(1000153000), Some(PolygonMode::FillRectangleNv));
    assert_eq!(PolygonMode::from_raw(3), None);
    assert_eq!(LogicOp::from_raw(15), Some(LogicOp::SetOnes));
    assert_eq!(LogicOp::from_raw(16), None);
    assert_eq!(ShaderStage::from_raw(0x1F), Some(ShaderStage::AllGraphics));
    assert_eq!(ShaderStage::from_raw(0x03), None);
    assert_eq!(CullMode::from_raw(0), Some(CullMode::Neither));
    assert_eq!(CullMode::from_raw(4), None);
    assert_eq!(SampleCount::from_raw(16), Some(SampleCount::SixteenBit));
    assert_eq!(SampleCount::from_raw(3), None);
    assert_eq!(BlendOp::from_raw(1000148024), Some(BlendOp::InvertRgbExt));
    assert_eq!(CompareOp::from_raw(3), Some(CompareOp::LessOrEqual));
    assert_eq!(CompareOp::from_raw(8), None);
    assert_eq!(StencilOp::from_raw(5), Some(StencilOp::Invert));
    assert_eq!(DynamicState::from_raw(1), Some(DynamicState::Scissor));
    assert_eq!(DynamicState::from_raw(-1), None);
    for raw in 0..19 {
        assert_eq!(BlendFactor::from_raw(raw).map(|f| f.raw()), Some(raw));
    }
}
