use vulkan_rs::command::{Command, Platform, ResolvedCommands};
use vulkan_rs::common::Error;
use vulkan_rs::device::{
    device_name, queues_fit, PhysicalDeviceType, QueueFamilyProperties,
};
use vulkan_rs::dispatch::{
    core_commands_resolved, DispatchLoaderDevice, DispatchLoaderInstance,
    DispatchLoaderPhysicalDevice,
};
use vulkan_rs::handle::{FunctionAddress, Handle};
use vulkan_rs::init::{ApplicationInfo, Instance, InstanceBuilder};
use vulkan_rs::native::{
    c_string, CommandBufferLevel, NativeCall, StructureType,
};
use vulkan_rs::reply::is_creation_reply;
use vulkan_rs::version::ApiVersion;

fn all_commands() -> Vec<Command> {
    vec![
        Command::GetInstanceProcAddr,
        Command::EnumerateInstanceVersion,
        Command::CreateInstance,
        Command::DestroyInstance,
        Command::EnumeratePhysicalDevices,
        Command::CreateXcbSurfaceKhr,
        Command::CreateXlibSurfaceKhr,
        Command::CreateWin32SurfaceKhr,
        Command::DestroySurfaceKhr,
        Command::GetPhysicalDeviceProperties,
        Command::GetPhysicalDeviceQueueFamilyProperties,
        Command::CreateDevice,
        Command::GetDeviceProcAddr,
        Command::GetPhysicalDeviceSurfaceCapabilitiesKhr,
        Command::GetPhysicalDeviceSurfaceFormatsKhr,
        Command::GetPhysicalDeviceSurfacePresentModesKhr,
        Command::DestroyDevice,
        Command::GetDeviceQueue,
        Command::CreateCommandPool,
        Command::DestroyCommandPool,
        Command::AllocateCommandBuffers,
        Command::CreateSemaphore,
        Command::DestroySemaphore,
        Command::CreateSwapchainKhr,
        Command::DestroySwapchainKhr,
        Command::GetSwapchainImagesKhr,
        Command::CreateImageView,
        Command::DestroyImageView,
        Command::CreateShaderModule,
        Command::DestroyShaderModule,
    ]
}

fn address_of(command: Command) -> usize {
    0x1000 + 16 * command.index()
}

fn pfn(command: Command) -> FunctionAddress {
    FunctionAddress::new(address_of(command)).unwrap()
}

fn resolved_without(missing: &[Command]) -> ResolvedCommands {
    let mut symbols = ResolvedCommands::new();
    for command in all_commands() {
        if !missing.contains(&command) {
            symbols.record(command, address_of(command));
        }
    }
    symbols
}

fn bootstrap() -> FunctionAddress {
    FunctionAddress::new(0xB007).unwrap()
}

fn loader(symbols: &ResolvedCommands) -> DispatchLoaderInstance {
    DispatchLoaderInstance::new(bootstrap(), Platform::Unix, symbols).unwrap()
}

fn instance(symbols: &ResolvedCommands) -> Instance {
    Instance::builder().build(loader(symbols), 0, 0x11, symbols).unwrap()
}

#[test]
fn the_builder_starts_empty() {
    let builder = InstanceBuilder::new();
    assert!(builder.application_info.is_none());
    assert!(builder.layers.is_none());
    assert!(builder.extensions.is_none());
    assert!(builder.countable());
    let info = builder.create_info();
    assert_eq!(info.s_type, StructureType::InstanceCreateInfo);
    assert_eq!(info.flags, 0);
    assert!(info.application_info.is_none());
    assert_eq!(info.enabled_layer_count, 0);
    assert!(info.enabled_layer_names.is_none());
    assert_eq!(info.enabled_extension_count, 0);
    assert!(info.enabled_extension_names.is_none());
}

#[test]
fn the_builder_collects_what_it_is_given() {
    let application = ApplicationInfo {
        application_name: Some(String::from("viewer")),
        application_version: ApiVersion::new(0, 2, 1, 0),
        engine_name: None,
        engine_version: ApiVersion::new(0, 0, 9, 4),
        api_version: ApiVersion::v1_2(),
    };
    let layers = ["VK_LAYER_KHRONOS_validation"];
    let extensions = ["VK_KHR_surface", "VK_KHR_xcb_surface"];
    let mut builder = Instance::builder();
    builder
        .with_application_info(&application)
        .with_layers(&layers)
        .with_extensions(&extensions);
    let info = builder.create_info();
    assert_eq!(info.enabled_layer_count, 1);
    assert_eq!(info.enabled_layer_names, Some(&layers[..]));
    assert_eq!(info.enabled_extension_count, 2);
    assert_eq!(info.enabled_extension_names, Some(&extensions[..]));
    let native = info.application_info.unwrap();
    assert_eq!(native.s_type, StructureType::ApplicationInfo);
    assert_eq!(native.application_name.map(|s| s.as_str()), Some("viewer"));
    assert_eq!(native.application_version, ApiVersion::new(0, 2, 1, 0).raw());
    assert!(native.engine_name.is_none());
    assert_eq!(native.engine_version, ApiVersion::new(0, 0, 9, 4).raw());
    assert_eq!(native.api_version, 0x0040_2000);
}

#[test]
fn the_create_call_goes_to_the_create_command() {
    let symbols = resolved_without(&[]);
    let table = loader(&symbols);
    let extensions = ["VK_KHR_surface"];
    let mut builder = InstanceBuilder::new();
    builder.with_extensions(&extensions);
    match builder.build_call(&table) {
        NativeCall::CreateInstance { pfn: address, info } => {
            assert_eq!(address, pfn(Command::CreateInstance));
            assert_eq!(info.enabled_extension_count, 1);
        }
        other => panic!("{:?}", other),
    }
}

#[test]
fn a_context_is_made_from_a_good_answer() {
    let symbols = resolved_without(&[]);
    let made = instance(&symbols);
    assert_eq!(made.handle().raw(), 0x11);
    let table = made.dispatch_loader();
    assert_eq!(table.vk_get_instance_proc_addr, bootstrap());
    assert_eq!(table.vk_destroy_instance, Some(pfn(Command::DestroyInstance)));
    assert_eq!(table.vk_enumerate_physical_devices, Some(pfn(Command::EnumeratePhysicalDevices)));
    assert_eq!(table.vk_create_win32_surface_khr, None);
}

#[test]
fn an_error_answer_makes_no_context() {
    let symbols = resolved_without(&[]);
    let r = Instance::builder().build(loader(&symbols), -9, 0, &symbols);
    assert_eq!(r.err(), Some(Error::IncompatibleDriver));
    let r = Instance::builder().build(loader(&symbols), -7, 0x11, &symbols);
    assert_eq!(r.err(), Some(Error::ExtensionNotPresent));
}

#[test]
fn no_context_without_a_core_command() {
    let all = resolved_without(&[]);
    for missing in [Command::DestroyInstance, Command::EnumeratePhysicalDevices] {
        let symbols = resolved_without(&[missing]);
        let r = Instance::builder().build(loader(&all), 0, 0x11, &symbols);
        assert_eq!(r.err(), Some(Error::InitializationFailed));
    }
}

#[test]
fn creation_replies_that_can_be_read() {
    assert!(is_creation_reply(0, 1));
    assert!(!is_creation_reply(0, 0));
    assert!(is_creation_reply(-1, 0));
    assert!(is_creation_reply(-1, 9));
    assert!(!is_creation_reply(5, 9));
    assert!(!is_creation_reply(1, 9));
}

#[test]
fn resolving_for_a_context_names_the_context() {
    let symbols = resolved_without(&[]);
    let made = instance(&symbols);
    match made.resolve_call(Command::CreateDevice) {
        NativeCall::GetInstanceProcAddr { pfn: address, instance, command } => {
            assert_eq!(address, bootstrap());
            assert_eq!(instance, Handle::new(0x11));
            assert_eq!(command, Command::CreateDevice);
        }
        other => panic!("{:?}", other),
    }
}

#[test]
fn the_version_of_the_native_layer() {
    let symbols = resolved_without(&[]);
    let made = instance(&symbols);
    match made.version_call() {
        Some(NativeCall::EnumerateInstanceVersion { pfn: address }) => {
            assert_eq!(address, pfn(Command::EnumerateInstanceVersion));
        }
        other => panic!("{:?}", other),
    }
    assert_eq!(made.version(0x0040_2003), Some(ApiVersion::new(0, 1, 2, 3)));

    let old = resolved_without(&[Command::EnumerateInstanceVersion]);
    let made = instance(&old);
    assert!(made.version_call().is_none());
    assert_eq!(made.version(0x0040_2003), None);
}

#[test]
fn the_context_is_destroyed_through_itself() {
    let symbols = resolved_without(&[]);
    let made = instance(&symbols);
    let call = made.destroy_call();
    assert_eq!(call.command, Command::DestroyInstance);
    assert_eq!(call.pfn, pfn(Command::DestroyInstance));
    assert_eq!(call.parent, None);
    assert_eq!(call.object.raw(), 0x11);
}

#[test]
fn adapters_are_the_handles_of_the_buffer() {
    let symbols = resolved_without(&[]);
    let made = instance(&symbols);
    match made.enumerate_physical_devices_call(None) {
        NativeCall::EnumeratePhysicalDevices { pfn: address, instance, capacity } => {
            assert_eq!(address, pfn(Command::EnumeratePhysicalDevices));
            assert_eq!(instance.raw(), 0x11);
            assert_eq!(capacity, None);
        }
        other => panic!("{:?}", other),
    }
    match made.enumerate_physical_devices_call(Some(3)) {
        NativeCall::EnumeratePhysicalDevices { capacity, .. } => assert_eq!(capacity, Some(3)),
        other => panic!("{:?}", other),
    }
    let adapters = made.enumerate_physical_devices(0, 3, &[0x21, 0x22, 0x23], &symbols).unwrap();
    assert_eq!(adapters.len(), 3);
    assert_eq!(adapters[0].handle.raw(), 0x21);
    assert_eq!(adapters[1].handle.raw(), 0x22);
    assert_eq!(adapters[2].handle.raw(), 0x23);
    for adapter in &adapters {
        assert_eq!(adapter.dispatch_loader.vk_create_device, pfn(Command::CreateDevice));
        assert_eq!(adapter.instance.handle().raw(), 0x11);
    }
}

#[test]
fn the_second_count_of_an_adapter_enumeration_holds() {
    let symbols = resolved_without(&[]);
    let made = instance(&symbols);
    let buffer = [0x21, 0x22, 0, 0, 0];
    assert!(Instance::all_objects(&buffer, 2));
    assert!(!Instance::all_objects(&buffer, 3));
    let adapters = made.enumerate_physical_devices(0, 2, &buffer, &symbols).unwrap();
    assert_eq!(adapters.len(), 2);
    assert_eq!(adapters[1].handle.raw(), 0x22);
    let partial = made.enumerate_physical_devices(5, 1, &buffer, &symbols).unwrap();
    assert_eq!(partial.len(), 1);
    let none = made.enumerate_physical_devices(0, 0, &buffer, &symbols).unwrap();
    assert!(none.is_empty());
    let beyond = made.enumerate_physical_devices(0, 9, &[0x21, 0x22], &symbols).unwrap();
    assert_eq!(beyond.len(), 2);
}

#[test]
fn an_adapter_enumeration_that_failed() {
    let symbols = resolved_without(&[]);
    let made = instance(&symbols);
    let r = made.enumerate_physical_devices(-1, 0, &[], &symbols);
    assert_eq!(r.err(), Some(Error::OutOfHostMemory));
    let r = made.enumerate_physical_devices(-3, 2, &[0x21, 0x22], &symbols);
    assert_eq!(r.err(), Some(Error::InitializationFailed));
}

#[test]
fn no_adapter_without_the_create_device_command() {
    let symbols = resolved_without(&[Command::CreateDevice]);
    assert!(!core_commands_resolved(&DispatchLoaderPhysicalDevice::commands(), &symbols));
    let all = resolved_without(&[]);
    assert!(core_commands_resolved(&DispatchLoaderPhysicalDevice::commands(), &all));
}

#[test]
fn an_error_answer_is_read_whatever_the_buffer_holds() {
    let symbols = resolved_without(&[]);
    let made = instance(&symbols);
    let r = made.enumerate_physical_devices(-1, 2, &[0, 0], &symbols);
    assert_eq!(r.err(), Some(Error::OutOfHostMemory));
    let nothing = ResolvedCommands::new();
    let r = made.enumerate_physical_devices(-3, 1, &[0], &nothing);
    assert_eq!(r.err(), Some(Error::InitializationFailed));
}

#[test]
fn the_calls_that_resolve_the_commands_of_an_adapter() {
    let symbols = resolved_without(&[]);
    let made = instance(&symbols);
    let calls = made.adapter_resolve_calls();
    let commands = DispatchLoaderPhysicalDevice::commands();
    assert_eq!(calls.len(), commands.len());
    for (call, expected) in calls.iter().zip(commands.iter()) {
        match call {
            NativeCall::GetInstanceProcAddr { pfn: address, instance, command } => {
                assert_eq!(*address, bootstrap());
                assert_eq!(*instance, Handle::new(0x11));
                assert_eq!(command, expected);
            }
            other => panic!("{:?}", other),
        }
    }
}

#[test]
fn the_calls_that_follow_the_creation_of_a_context() {
    let symbols = resolved_without(&[]);
    let table = loader(&symbols);
    let builder = InstanceBuilder::new();
    assert!(builder.resolve_calls(&table, -9, 0).is_empty());
    let calls = builder.resolve_calls(&table, 0, 0x11);
    let commands = table.instance_commands();
    assert_eq!(calls.len(), commands.len());
    for (call, expected) in calls.iter().zip(commands.iter()) {
        match call {
            NativeCall::GetInstanceProcAddr { pfn: address, instance, command } => {
                assert_eq!(*address, bootstrap());
                assert_eq!(*instance, Handle::new(0x11));
                assert_eq!(command, expected);
            }
            other => panic!("{:?}", other),
        }
    }
}

#[test]
fn the_calls_that_follow_the_creation_of_a_device() {
    let symbols = resolved_without(&[]);
    let made = instance(&symbols);
    let adapters = made.enumerate_physical_devices(0, 1, &[0x21], &symbols).unwrap();
    assert!(adapters[0].device_resolve_calls(-4, 0).is_empty());
    let calls = adapters[0].device_resolve_calls(0, 0x31);
    let commands = DispatchLoaderDevice::commands();
    assert_eq!(calls.len(), commands.len());
    for (call, expected) in calls.iter().zip(commands.iter()) {
        match call {
            NativeCall::GetDeviceProcAddr { pfn: address, device, command } => {
                assert_eq!(*address, pfn(Command::GetDeviceProcAddr));
                assert_eq!(device.raw(), 0x31);
                assert_eq!(command, expected);
            }
            other => panic!("{:?}", other),
        }
    }
}

#[test]
fn the_name_ends_at_the_first_nul() {
    let mut buffer = [0u8; 256];
    buffer[..9].copy_from_slice(b"llvmpipe ");
    buffer[9..12].copy_from_slice(b"(x)");
    buffer[20] = b'z';
    assert_eq!(device_name(&buffer), "llvmpipe (x)");
    assert_eq!(device_name(&[0u8; 8]), "");
    assert_eq!(device_name(&[]), "");
    assert_eq!(device_name(b"full"), "full");
    assert_eq!(device_name("Gr\u{e4}fik\0rest".as_bytes()), "Gr\u{e4}fik");
}

#[test]
fn a_name_that_is_no_utf8_is_read_lossily() {
    assert_eq!(device_name(&[b'a', 0xFF, b'b', 0, b'c']), "a\u{FFFD}b");
    assert_eq!(device_name(&[0xC3]), "\u{FFFD}");
}

#[test]
fn what_an_adapter_says_of_itself() {
    let symbols = resolved_without(&[]);
    let made = instance(&symbols);
    let adapters = made.enumerate_physical_devices(0, 1, &[0x21], &symbols).unwrap();
    let adapter = &adapters[0];
    match adapter.properties_call() {
        NativeCall::GetPhysicalDeviceProperties { pfn: address, physical_device } => {
            assert_eq!(address, pfn(Command::GetPhysicalDeviceProperties));
            assert_eq!(physical_device.raw(), 0x21);
        }
        other => panic!("{:?}", other),
    }
    let properties = adapter.properties(0x0040_2003, 2, b"Radeon\0\0");
    assert_eq!(properties.api_version, ApiVersion::new(0, 1, 2, 3));
    assert_eq!(properties.device_type, PhysicalDeviceType::DiscreteGpu);
    assert_eq!(properties.device_name, "Radeon");
}

#[test]
fn kinds_of_adapters() {
    assert_eq!(PhysicalDeviceType::from_raw(0), Some(PhysicalDeviceType::Other));
    assert_eq!(PhysicalDeviceType::from_raw(1), Some(PhysicalDeviceType::IntegratedGpu));
    assert_eq!(PhysicalDeviceType::from_raw(2), Some(PhysicalDeviceType::DiscreteGpu));
    assert_eq!(PhysicalDeviceType::from_raw(3), Some(PhysicalDeviceType::VirtualGpu));
    assert_eq!(PhysicalDeviceType::from_raw(4), Some(PhysicalDeviceType::Cpu));
    assert_eq!(PhysicalDeviceType::from_raw(5), None);
    assert_eq!(PhysicalDeviceType::from_raw(-1), None);
    assert_eq!(PhysicalDeviceType::VirtualGpu.raw(), 3);
}

#[test]
fn what_the_queues_of_a_family_can_do() {
    let family = QueueFamilyProperties { queue_flags: 0b0101, queue_count: 4 };
    assert!(family.supports_graphics());
    assert!(!family.supports_compute());
    assert!(family.supports_transfer());
    assert!(!family.supports_sparse_binding());
    let other = QueueFamilyProperties { queue_flags: 0b1010, queue_count: 1 };
    assert!(!other.supports_graphics());
    assert!(other.supports_compute());
    assert!(!other.supports_transfer());
    assert!(other.supports_sparse_binding());
    let none = QueueFamilyProperties { queue_flags: 0xFFFF_FFF0, queue_count: 0 };
    assert!(!none.supports_graphics() && !none.supports_compute());
    assert!(!none.supports_transfer() && !none.supports_sparse_binding());
}

#[test]
fn queue_families_are_the_first_of_the_buffer() {
    let symbols = resolved_without(&[]);
    let made = instance(&symbols);
    let adapters = made.enumerate_physical_devices(0, 1, &[0x21], &symbols).unwrap();
    let adapter = &adapters[0];
    match adapter.queue_family_properties_call(Some(3)) {
        NativeCall::GetPhysicalDeviceQueueFamilyProperties { pfn: address, physical_device, capacity } => {
            assert_eq!(address, pfn(Command::GetPhysicalDeviceQueueFamilyProperties));
            assert_eq!(physical_device.raw(), 0x21);
            assert_eq!(capacity, Some(3));
        }
        other => panic!("{:?}", other),
    }
    let a = QueueFamilyProperties { queue_flags: 1, queue_count: 1 };
    let b = QueueFamilyProperties { queue_flags: 2, queue_count: 2 };
    let c = QueueFamilyProperties { queue_flags: 4, queue_count: 3 };
    assert_eq!(adapter.queue_family_properties(3, vec![a, b, c]), vec![a, b, c]);
    assert_eq!(adapter.queue_family_properties(2, vec![a, b, c]), vec![a, b]);
    assert_eq!(adapter.queue_family_properties(0, vec![a, b, c]), vec![]);
    assert_eq!(adapter.queue_family_properties(7, vec![a, b]), vec![a, b]);
}

#[test]
fn queues_that_fit_native_records() {
    let one: [u32; 1] = [0x3F80_0000];
    let two: [u32; 2] = [0x3F80_0000, 0x3F00_0000];
    assert!(queues_fit(&[0, 1], &[&one, &two]));
    assert!(queues_fit(&[], &[]));
    assert!(queues_fit(&[usize::MAX], &[]));
    assert_eq!(queues_fit(&[usize::MAX], &[&one]), usize::MAX <= u32::MAX as usize);
}

#[test]
fn the_call_that_creates_a_device() {
    let symbols = resolved_without(&[]);
    let made = instance(&symbols);
    let adapters = made.enumerate_physical_devices(0, 1, &[0x21], &symbols).unwrap();
    let adapter = &adapters[0];
    let one: [u32; 1] = [0x3F80_0000];
    let two: [u32; 2] = [0x3F80_0000, 0x3F00_0000];
    let priorities: [&[u32]; 2] = [&one, &two];
    let extensions = ["VK_KHR_swapchain"];
    match adapter.create_device_call(&[3, 0, 9], &priorities, Some(&extensions)) {
        NativeCall::CreateDevice { pfn: address, physical_device, info } => {
            assert_eq!(address, pfn(Command::CreateDevice));
            assert_eq!(physical_device.raw(), 0x21);
            assert_eq!(info.s_type, StructureType::DeviceCreateInfo);
            assert_eq!(info.flags, 0);
            assert_eq!(info.enabled_layer_count, 0);
            assert_eq!(info.enabled_extension_count, 1);
            assert_eq!(info.enabled_extension_names, Some(&extensions[..]));
            assert_eq!(info.queue_create_infos.len(), 2);
            let first = info.queue_create_infos[0];
            assert_eq!(first.s_type, StructureType::DeviceQueueCreateInfo);
            assert_eq!(first.flags, 0);
            assert_eq!(first.queue_family_index, 3);
            assert_eq!(first.queue_count, 1);
            assert_eq!(first.queue_priorities, &one[..]);
            let second = info.queue_create_infos[1];
            assert_eq!(second.queue_family_index, 0);
            assert_eq!(second.queue_count, 2);
            assert_eq!(second.queue_priorities, &two[..]);
        }
        other => panic!("{:?}", other),
    }
    match adapter.create_device_call(&[], &priorities, None) {
        NativeCall::CreateDevice { info, .. } => {
            assert!(info.queue_create_infos.is_empty());
            assert_eq!(info.enabled_extension_count, 0);
            assert!(info.enabled_extension_names.is_none());
        }
        other => panic!("{:?}", other),
    }
}

#[test]
fn device_commands_are_resolved_by_the_device_resolver() {
    let symbols = resolved_without(&[]);
    let made = instance(&symbols);
    let adapters = made.enumerate_physical_devices(0, 1, &[0x21], &symbols).unwrap();
    let new_device = Handle::new(0x31).unwrap();
    match adapters[0].device_resolve_call(new_device, Command::CreateSemaphore) {
        NativeCall::GetDeviceProcAddr { pfn: address, device, command } => {
            assert_eq!(address, pfn(Command::GetDeviceProcAddr));
            assert_eq!(device, new_device);
            assert_eq!(command, Command::CreateSemaphore);
        }
        other => panic!("{:?}", other),
    }
}

#[test]
fn a_device_is_made_from_a_good_answer() {
    let symbols = resolved_without(&[]);
    let made = instance(&symbols);
    let adapters = made.enumerate_physical_devices(0, 1, &[0x21], &symbols).unwrap();
    let device = adapters[0].create_device(0, 0x31, &symbols).unwrap();
    assert_eq!(device.handle.raw(), 0x31);
    assert_eq!(device.dispatch_loader.vk_destroy_device, pfn(Command::DestroyDevice));
    assert_eq!(device.instance.handle().raw(), 0x11);
    let call = device.destroy_call();
    assert_eq!(call.command, Command::DestroyDevice);
    assert_eq!(call.pfn, pfn(Command::DestroyDevice));
    assert_eq!(call.parent, None);
    assert_eq!(call.object.raw(), 0x31);
}

#[test]
fn no_device_from_an_error_answer() {
    let symbols = resolved_without(&[]);
    let made = instance(&symbols);
    let adapters = made.enumerate_physical_devices(0, 1, &[0x21], &symbols).unwrap();
    assert_eq!(adapters[0].create_device(-8, 0, &symbols).err(), Some(Error::FeatureNotPresent));
    assert_eq!(adapters[0].create_device(-10, 0, &symbols).err(), Some(Error::TooManyObjects));
    assert_eq!(adapters[0].create_device(-4, 0x31, &symbols).err(), Some(Error::DeviceLost));
}

#[test]
fn no_device_without_a_core_command() {
    let commands = DispatchLoaderDevice::commands();
    for missing in [Command::DestroyDevice, Command::GetDeviceQueue, Command::CreateSemaphore] {
        let symbols = resolved_without(&[missing]);
        assert!(!core_commands_resolved(&commands, &symbols));
    }
    assert!(!core_commands_resolved(&commands, &ResolvedCommands::new()));
    assert!(core_commands_resolved(&commands, &resolved_without(&[])));
}

#[test]
fn a_failed_creation_needs_no_resolved_command() {
    let all = resolved_without(&[]);
    let made = instance(&all);
    let adapters = made.enumerate_physical_devices(0, 1, &[0x21], &all).unwrap();
    let nothing = ResolvedCommands::new();
    assert_eq!(
        adapters[0].create_device(-3, 0, &nothing).err(),
        Some(Error::InitializationFailed)
    );
}

#[test]
fn a_valid_name_is_read_as_it_is() {
    let symbols = resolved_without(&[]);
    let made = instance(&symbols);
    let adapters = made.enumerate_physical_devices(0, 1, &[0x21], &symbols).unwrap();
    let properties = adapters[0].properties(0x0040_0000, 1, "Gr\u{e4}fik 3\0\0".as_bytes());
    assert_eq!(properties.device_name, "Gr\u{e4}fik 3");
}

#[test]
fn queues_of_a_device() {
    let symbols = resolved_without(&[]);
    let made = instance(&symbols);
    let adapters = made.enumerate_physical_devices(0, 1, &[0x21], &symbols).unwrap();
    let device = adapters[0].create_device(0, 0x31, &symbols).unwrap();
    match device.get_queue_call(2, 1) {
        NativeCall::GetDeviceQueue { pfn: address, device: d, queue_family_index, queue_index } => {
            assert_eq!(address, pfn(Command::GetDeviceQueue));
            assert_eq!(d.raw(), 0x31);
            assert_eq!(queue_family_index, 2);
            assert_eq!(queue_index, 1);
        }
        other => panic!("{:?}", other),
    }
    let queue = device.get_queue(0x61).unwrap();
    assert_eq!(queue.handle.raw(), 0x61);
    assert_eq!(queue.device.handle.raw(), 0x31);
    assert!(device.get_queue(0).is_none());
}

#[test]
fn command_pools_and_their_buffers() {
    let symbols = resolved_without(&[]);
    let made = instance(&symbols);
    let adapters = made.enumerate_physical_devices(0, 1, &[0x21], &symbols).unwrap();
    let device = adapters[0].create_device(0, 0x31, &symbols).unwrap();
    match device.create_command_pool_call(4) {
        NativeCall::CreateCommandPool { pfn: address, device: d, info } => {
            assert_eq!(address, pfn(Command::CreateCommandPool));
            assert_eq!(d.raw(), 0x31);
            assert_eq!(info.s_type, StructureType::CommandPoolCreateInfo);
            assert_eq!(info.flags, 0);
            assert_eq!(info.queue_family_index, 4);
        }
        other => panic!("{:?}", other),
    }
    assert_eq!(device.create_command_pool(-2, 0).err(), Some(Error::OutOfDeviceMemory));
    let pool = device.create_command_pool(0, 0x41).unwrap();
    assert_eq!(pool.handle.raw(), 0x41);
    match pool.allocate_command_buffers_call(2) {
        NativeCall::AllocateCommandBuffers { pfn: address, device: d, info } => {
            assert_eq!(address, pfn(Command::AllocateCommandBuffers));
            assert_eq!(d.raw(), 0x31);
            assert_eq!(info.s_type, StructureType::CommandBufferAllocateInfo);
            assert_eq!(info.command_pool.raw(), 0x41);
            assert_eq!(info.level, CommandBufferLevel::Primary);
            assert_eq!(info.command_buffer_count, 2);
        }
        other => panic!("{:?}", other),
    }
    let buffers = pool.allocate_command_buffers(0, &[0x51, 0x52]).unwrap();
    assert_eq!(buffers.len(), 2);
    assert_eq!(buffers[0].handle.raw(), 0x51);
    assert_eq!(buffers[1].handle.raw(), 0x52);
    assert_eq!(buffers[1].pool.handle.raw(), 0x41);
    assert_eq!(
        pool.allocate_command_buffers(-1000069000, &[0, 0]).err(),
        Some(Error::OutOfPoolMemory)
    );
    let call = pool.destroy_call();
    assert_eq!(call.command, Command::DestroyCommandPool);
    assert_eq!(call.pfn, pfn(Command::DestroyCommandPool));
    assert_eq!(call.parent, Handle::new(0x31));
    assert_eq!(call.object.raw(), 0x41);
}

#[test]
fn semaphores() {
    let symbols = resolved_without(&[]);
    let made = instance(&symbols);
    let adapters = made.enumerate_physical_devices(0, 1, &[0x21], &symbols).unwrap();
    let device = adapters[0].create_device(0, 0x31, &symbols).unwrap();
    match device.create_semaphore_call() {
        NativeCall::CreateSemaphore { pfn: address, device: d, info } => {
            assert_eq!(address, pfn(Command::CreateSemaphore));
            assert_eq!(d.raw(), 0x31);
            assert_eq!(info.s_type, StructureType::SemaphoreCreateInfo);
            assert_eq!(info.flags, 0);
        }
        other => panic!("{:?}", other),
    }
    assert_eq!(device.create_semaphore(-1, 0).err(), Some(Error::OutOfHostMemory));
    let semaphore = device.create_semaphore(0, 0x71).unwrap();
    let call = semaphore.destroy_call();
    assert_eq!(call.command, Command::DestroySemaphore);
    assert_eq!(call.pfn, pfn(Command::DestroySemaphore));
    assert_eq!(call.parent, Handle::new(0x31));
    assert_eq!(call.object.raw(), 0x71);
}

#[test]
fn shader_modules() {
    let symbols = resolved_without(&[]);
    let made = instance(&symbols);
    let adapters = made.enumerate_physical_devices(0, 1, &[0x21], &symbols).unwrap();
    let device = adapters[0].create_device(0, 0x31, &symbols).unwrap();
    let code: [u8; 8] = [0x03, 0x02, 0x23, 0x07, 0, 0, 1, 0];
    match device.create_shader_module_call(&code) {
        NativeCall::CreateShaderModule { pfn: address, device: d, info } => {
            assert_eq!(address, pfn(Command::CreateShaderModule));
            assert_eq!(d.raw(), 0x31);
            assert_eq!(info.s_type, StructureType::ShaderModuleCreateInfo);
            assert_eq!(info.flags, 0);
            assert_eq!(info.code_size, 8);
            assert_eq!(info.code, &code[..]);
        }
        other => panic!("{:?}", other),
    }
    assert_eq!(device.create_shader_module(-1000012000, 0).err(), Some(Error::InvalidShaderNv));
    let module = device.create_shader_module(0, 0x81).unwrap();
    let call = module.destroy_call();
    assert_eq!(call.command, Command::DestroyShaderModule);
    assert_eq!(call.pfn, pfn(Command::DestroyShaderModule));
    assert_eq!(call.parent, Handle::new(0x31));
    assert_eq!(call.object.raw(), 0x81);
}

#[test]
fn structure_tags() {
    assert_eq!(StructureType::ApplicationInfo.code(), 0);
    assert_eq!(StructureType::InstanceCreateInfo.code(), 1);
    assert_eq!(StructureType::DeviceQueueCreateInfo.code(), 2);
    assert_eq!(StructureType::DeviceCreateInfo.code(), 3);
    assert_eq!(StructureType::SemaphoreCreateInfo.code(), 9);
    assert_eq!(StructureType::ImageViewCreateInfo.code(), 15);
    assert_eq!(StructureType::ShaderModuleCreateInfo.code(), 16);
    assert_eq!(StructureType::CommandPoolCreateInfo.code(), 39);
    assert_eq!(StructureType::CommandBufferAllocateInfo.code(), 40);
    assert_eq!(StructureType::SwapchainCreateInfoKhr.code(), 1000001000);
    assert_eq!(StructureType::XlibSurfaceCreateInfoKhr.code(), 1000004000);
    assert_eq!(StructureType::XcbSurfaceCreateInfoKhr.code(), 1000005000);
    assert_eq!(StructureType::Win32SurfaceCreateInfoKhr.code(), 1000009000);
    assert_eq!(CommandBufferLevel::Primary.code(), 0);
    assert_eq!(CommandBufferLevel::Secondary.code(), 1);
}

#[test]
fn names_end_in_one_nul() {
    assert_eq!(c_string("VK_KHR_surface"), Some(b"VK_KHR_surface\0".to_vec()));
    assert_eq!(c_string(""), Some(vec![0]));
    assert_eq!(c_string("a\0b"), None);
    assert_eq!(c_string("\0"), None);
}

#[test]
fn commands_of_calls() {
    let symbols = resolved_without(&[]);
    let made = instance(&symbols);
    assert_eq!(made.resolve_call(Command::CreateDevice).command(), Command::GetInstanceProcAddr);
    assert_eq!(made.resolve_call(Command::CreateDevice).pfn(), bootstrap());
    let enumerate = made.enumerate_physical_devices_call(None);
    assert_eq!(enumerate.command(), Command::EnumeratePhysicalDevices);
    assert_eq!(enumerate.pfn(), pfn(Command::EnumeratePhysicalDevices));
    let destroy = NativeCall::Destroy(made.destroy_call());
    assert_eq!(destroy.command(), Command::DestroyInstance);
    assert_eq!(destroy.pfn(), pfn(Command::DestroyInstance));
}
