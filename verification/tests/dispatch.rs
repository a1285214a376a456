use vulkan_rs::command::{
    Command, Level, Platform, ResolvedCommands, BOOTSTRAP_SYMBOL, COMMAND_COUNT,
};
use vulkan_rs::common::Error;
use vulkan_rs::dispatch::{
    core_commands_resolved, DispatchLoaderDevice, DispatchLoaderInstance,
    DispatchLoaderPhysicalDevice,
};
use vulkan_rs::handle::{FunctionAddress, Handle};
use vulkan_rs::native::NativeCall;

fn all_commands() -> Vec<Command> {
    vec![
        Command::GetInstanceProcAddr,
        Command::EnumerateInstanceVersion,
        Command::CreateInstance,
        Command::DestroyInstance,
        Command::EnumeratePhysicalDevices,
        Command::CreateXcbSurfaceKhr,
        Command::CreateXlibSurfaceKhr,
        Command::CreateWin32SurfaceKhr,
        Command::DestroySurfaceKhr,
        Command::GetPhysicalDeviceProperties,
        Command::GetPhysicalDeviceQueueFamilyProperties,
        Command::CreateDevice,
        Command::GetDeviceProcAddr,
        Command::GetPhysicalDeviceSurfaceCapabilitiesKhr,
        Command::GetPhysicalDeviceSurfaceFormatsKhr,
        Command::GetPhysicalDeviceSurfacePresentModesKhr,
        Command::DestroyDevice,
        Command::GetDeviceQueue,
        Command::CreateCommandPool,
        Command::DestroyCommandPool,
        Command::AllocateCommandBuffers,
        Command::CreateSemaphore,
        Command::DestroySemaphore,
        Command::CreateSwapchainKhr,
        Command::DestroySwapchainKhr,
        Command::GetSwapchainImagesKhr,
        Command::CreateImageView,
        Command::DestroyImageView,
        Command::CreateShaderModule,
        Command::DestroyShaderModule,
    ]
}

fn address_of(command: Command) -> usize {
    0x1000 + 16 * command.index()
}

fn resolved(commands: &[Command]) -> ResolvedCommands {
    let mut symbols = ResolvedCommands::new();
    for command in commands {
        symbols.record(*command, address_of(*command));
    }
    symbols
}

fn resolved_without(missing: &[Command]) -> ResolvedCommands {
    let kept: Vec<Command> =
        all_commands().into_iter().filter(|c| !missing.contains(c)).collect();
    resolved(&kept)
}

fn pfn(command: Command) -> FunctionAddress {
    FunctionAddress::new(address_of(command)).unwrap()
}

#[test]
fn the_bootstrap_symbol_and_the_library_names() {
    assert_eq!(BOOTSTRAP_SYMBOL, "vkGetInstanceProcAddr");
    assert_eq!(Command::GetInstanceProcAddr.name(), BOOTSTRAP_SYMBOL);
    assert_eq!(Platform::Unix.library_file_name(), "libvulkan.so");
    assert_eq!(Platform::Windows.library_file_name(), "vulkan-1.dll");
}

#[test]
fn command_names_are_the_exported_names() {
    assert_eq!(Command::CreateInstance.name(), "vkCreateInstance");
    assert_eq!(Command::CreateDevice.name(), "vkCreateDevice");
    assert_eq!(Command::CreateXcbSurfaceKhr.name(), "vkCreateXcbSurfaceKHR");
    assert_eq!(Command::CreateWin32SurfaceKhr.name(), "vkCreateWin32SurfaceKHR");
    assert_eq!(
        Command::GetPhysicalDeviceSurfacePresentModesKhr.name(),
        "vkGetPhysicalDeviceSurfacePresentModesKHR"
    );
    assert_eq!(Command::GetSwapchainImagesKhr.name(), "vkGetSwapchainImagesKHR");
    assert_eq!(Command::DestroyShaderModule.name(), "vkDestroyShaderModule");
    for command in all_commands() {
        assert!(command.name().starts_with("vk"));
    }
}

#[test]
fn command_indices_count_the_commands() {
    let all = all_commands();
    assert_eq!(all.len(), COMMAND_COUNT);
    for (i, command) in all.iter().enumerate() {
        assert_eq!(command.index(), i);
    }
}

#[test]
fn command_levels() {
    assert_eq!(Command::CreateInstance.level(), Level::Global);
    assert_eq!(Command::EnumerateInstanceVersion.level(), Level::Global);
    assert_eq!(Command::DestroyInstance.level(), Level::Instance);
    assert_eq!(Command::DestroySurfaceKhr.level(), Level::Instance);
    assert_eq!(Command::CreateDevice.level(), Level::PhysicalDevice);
    assert_eq!(Command::GetDeviceProcAddr.level(), Level::PhysicalDevice);
    assert_eq!(Command::DestroyDevice.level(), Level::Device);
    assert_eq!(Command::CreateSwapchainKhr.level(), Level::Device);
}

#[test]
fn extension_commands_are_optional() {
    let optional = [
        Command::EnumerateInstanceVersion,
        Command::CreateXcbSurfaceKhr,
        Command::CreateXlibSurfaceKhr,
        Command::CreateWin32SurfaceKhr,
        Command::DestroySurfaceKhr,
        Command::GetPhysicalDeviceSurfaceCapabilitiesKhr,
        Command::GetPhysicalDeviceSurfaceFormatsKhr,
        Command::GetPhysicalDeviceSurfacePresentModesKhr,
        Command::CreateSwapchainKhr,
        Command::DestroySwapchainKhr,
        Command::GetSwapchainImagesKhr,
    ];
    for command in all_commands() {
        assert_eq!(command.is_optional(), optional.contains(&command));
    }
}

#[test]
fn surface_commands_belong_to_their_platform() {
    assert!(Command::CreateXcbSurfaceKhr.available_on(Platform::Unix));
    assert!(Command::CreateXlibSurfaceKhr.available_on(Platform::Unix));
    assert!(!Command::CreateWin32SurfaceKhr.available_on(Platform::Unix));
    assert!(!Command::CreateXcbSurfaceKhr.available_on(Platform::Windows));
    assert!(!Command::CreateXlibSurfaceKhr.available_on(Platform::Windows));
    assert!(Command::CreateWin32SurfaceKhr.available_on(Platform::Windows));
    assert!(Command::DestroySurfaceKhr.available_on(Platform::Unix));
    assert!(Command::DestroySurfaceKhr.available_on(Platform::Windows));
}

#[test]
fn nothing_is_resolved_at_first() {
    let symbols = ResolvedCommands::new();
    for command in all_commands() {
        assert_eq!(symbols.get(command), None);
    }
}

#[test]
fn a_recorded_answer_is_found_again() {
    let mut symbols = ResolvedCommands::new();
    symbols.record(Command::CreateDevice, 0xABCD);
    assert_eq!(symbols.get(Command::CreateDevice).map(|a| a.raw()), Some(0xABCD));
    assert_eq!(symbols.get(Command::DestroyDevice), None);
    assert_eq!(symbols.get(Command::CreateInstance), None);
    symbols.record(Command::DestroyShaderModule, 0x10);
    assert_eq!(symbols.get(Command::DestroyShaderModule).map(|a| a.raw()), Some(0x10));
    assert_eq!(symbols.get(Command::CreateDevice).map(|a| a.raw()), Some(0xABCD));
}

#[test]
fn a_later_answer_replaces_the_earlier() {
    let mut symbols = ResolvedCommands::new();
    symbols.record(Command::CreateDevice, 0xABCD);
    symbols.record(Command::CreateDevice, 0x1234);
    assert_eq!(symbols.get(Command::CreateDevice).map(|a| a.raw()), Some(0x1234));
    symbols.record(Command::CreateDevice, 0);
    assert_eq!(symbols.get(Command::CreateDevice), None);
}

#[test]
fn addresses_and_handles_are_never_null() {
    assert_eq!(FunctionAddress::new(0), None);
    assert_eq!(FunctionAddress::new(1).map(|a| a.raw()), Some(1));
    assert_eq!(FunctionAddress::new(usize::MAX).map(|a| a.raw()), Some(usize::MAX));
    assert_eq!(Handle::new(0), None);
    assert_eq!(Handle::new(7).map(|h| h.raw()), Some(7));
    assert_eq!(Handle::new(u64::MAX).map(|h| h.raw()), Some(u64::MAX));
}

#[test]
fn the_lists_of_commands_of_each_table() {
    assert_eq!(
        DispatchLoaderInstance::global_commands(),
        vec![Command::EnumerateInstanceVersion, Command::CreateInstance]
    );
    let symbols = resolved(&all_commands());
    let bootstrap = FunctionAddress::new(0xB007).unwrap();
    let unix = DispatchLoaderInstance::new(bootstrap, Platform::Unix, &symbols).unwrap();
    assert_eq!(
        unix.instance_commands(),
        vec![
            Command::DestroyInstance,
            Command::EnumeratePhysicalDevices,
            Command::CreateXcbSurfaceKhr,
            Command::CreateXlibSurfaceKhr,
            Command::DestroySurfaceKhr,
        ]
    );
    let windows = DispatchLoaderInstance::new(bootstrap, Platform::Windows, &symbols).unwrap();
    assert_eq!(
        windows.instance_commands(),
        vec![
            Command::DestroyInstance,
            Command::EnumeratePhysicalDevices,
            Command::CreateWin32SurfaceKhr,
            Command::DestroySurfaceKhr,
        ]
    );
    for command in DispatchLoaderPhysicalDevice::commands() {
        assert_eq!(command.level(), Level::PhysicalDevice);
    }
    assert_eq!(DispatchLoaderPhysicalDevice::commands().len(), 7);
    for command in DispatchLoaderDevice::commands() {
        assert_eq!(command.level(), Level::Device);
    }
    assert_eq!(DispatchLoaderDevice::commands().len(), 14);
}

#[test]
fn resolving_goes_through_the_resolver_given() {
    let bootstrap = FunctionAddress::new(0xB007).unwrap();
    match DispatchLoaderInstance::resolve_call(bootstrap, None, Command::CreateInstance) {
        NativeCall::GetInstanceProcAddr { pfn, instance, command } => {
            assert_eq!(pfn, bootstrap);
            assert_eq!(instance, None);
            assert_eq!(command, Command::CreateInstance);
        }
        other => panic!("{:?}", other),
    }
    let device = Handle::new(0x33).unwrap();
    match DispatchLoaderDevice::resolve_call(bootstrap, device, Command::GetDeviceQueue) {
        NativeCall::GetDeviceProcAddr { pfn, device: d, command } => {
            assert_eq!(pfn, bootstrap);
            assert_eq!(d, device);
            assert_eq!(command, Command::GetDeviceQueue);
        }
        other => panic!("{:?}", other),
    }
}

#[test]
fn the_first_table_holds_the_global_commands_only() {
    let symbols = resolved(&all_commands());
    let bootstrap = FunctionAddress::new(0xB007).unwrap();
    let table = DispatchLoaderInstance::new(bootstrap, Platform::Unix, &symbols).unwrap();
    assert_eq!(table.platform, Platform::Unix);
    assert_eq!(table.vk_get_instance_proc_addr, bootstrap);
    assert_eq!(table.vk_create_instance, pfn(Command::CreateInstance));
    assert_eq!(table.vk_enumerate_instance_version, Some(pfn(Command::EnumerateInstanceVersion)));
    assert_eq!(table.vk_destroy_instance, None);
    assert_eq!(table.vk_enumerate_physical_devices, None);
    assert_eq!(table.vk_create_xcb_surface_khr, None);
    assert_eq!(table.vk_create_xlib_surface_khr, None);
    assert_eq!(table.vk_create_win32_surface_khr, None);
    assert_eq!(table.vk_destroy_surface_khr, None);
}

#[test]
fn no_table_without_the_create_command() {
    let symbols = resolved_without(&[Command::CreateInstance]);
    let bootstrap = FunctionAddress::new(0xB007).unwrap();
    assert_eq!(
        DispatchLoaderInstance::new(bootstrap, Platform::Unix, &symbols),
        Err(Error::InitializationFailed)
    );
}

#[test]
fn the_version_command_may_be_absent() {
    let symbols = resolved_without(&[Command::EnumerateInstanceVersion]);
    let bootstrap = FunctionAddress::new(0xB007).unwrap();
    let table = DispatchLoaderInstance::new(bootstrap, Platform::Unix, &symbols).unwrap();
    assert_eq!(table.vk_enumerate_instance_version, None);
}

#[test]
fn loading_takes_in_the_commands_of_the_platform() {
    let symbols = resolved(&all_commands());
    let bootstrap = FunctionAddress::new(0xB007).unwrap();
    let mut unix = DispatchLoaderInstance::new(bootstrap, Platform::Unix, &symbols).unwrap();
    assert_eq!(unix.load(&symbols), Ok(()));
    assert_eq!(unix.vk_destroy_instance, Some(pfn(Command::DestroyInstance)));
    assert_eq!(unix.vk_enumerate_physical_devices, Some(pfn(Command::EnumeratePhysicalDevices)));
    assert_eq!(unix.vk_create_xcb_surface_khr, Some(pfn(Command::CreateXcbSurfaceKhr)));
    assert_eq!(unix.vk_create_xlib_surface_khr, Some(pfn(Command::CreateXlibSurfaceKhr)));
    assert_eq!(unix.vk_create_win32_surface_khr, None);
    assert_eq!(unix.vk_destroy_surface_khr, Some(pfn(Command::DestroySurfaceKhr)));
    assert_eq!(unix.vk_create_instance, pfn(Command::CreateInstance));

    let mut windows =
        DispatchLoaderInstance::new(bootstrap, Platform::Windows, &symbols).unwrap();
    assert_eq!(windows.load(&symbols), Ok(()));
    assert_eq!(windows.vk_create_xcb_surface_khr, None);
    assert_eq!(windows.vk_create_xlib_surface_khr, None);
    assert_eq!(windows.vk_create_win32_surface_khr, Some(pfn(Command::CreateWin32SurfaceKhr)));
}

#[test]
fn loading_fails_without_a_core_command() {
    let all = resolved(&all_commands());
    let bootstrap = FunctionAddress::new(0xB007).unwrap();
    for missing in [Command::DestroyInstance, Command::EnumeratePhysicalDevices] {
        let symbols = resolved_without(&[missing]);
        let mut table = DispatchLoaderInstance::new(bootstrap, Platform::Unix, &all).unwrap();
        let before = table;
        assert_eq!(table.load(&symbols), Err(Error::InitializationFailed));
        assert_eq!(table, before);
    }
}

#[test]
fn loading_succeeds_without_the_surface_commands() {
    let symbols = resolved_without(&[
        Command::CreateXcbSurfaceKhr,
        Command::CreateXlibSurfaceKhr,
        Command::CreateWin32SurfaceKhr,
        Command::DestroySurfaceKhr,
    ]);
    let bootstrap = FunctionAddress::new(0xB007).unwrap();
    let mut table = DispatchLoaderInstance::new(bootstrap, Platform::Unix, &symbols).unwrap();
    assert_eq!(table.load(&symbols), Ok(()));
    assert_eq!(table.vk_create_xcb_surface_khr, None);
    assert_eq!(table.vk_create_xlib_surface_khr, None);
    assert_eq!(table.vk_destroy_surface_khr, None);
    assert!(table.vk_destroy_instance.is_some());
}

#[test]
fn the_table_of_an_adapter() {
    let symbols = resolved(&all_commands());
    let table = DispatchLoaderPhysicalDevice::new(&symbols);
    assert_eq!(table.vk_get_physical_device_properties, pfn(Command::GetPhysicalDeviceProperties));
    assert_eq!(
        table.vk_get_physical_device_queue_family_properties,
        pfn(Command::GetPhysicalDeviceQueueFamilyProperties)
    );
    assert_eq!(table.vk_create_device, pfn(Command::CreateDevice));
    assert_eq!(table.vk_get_device_proc_addr, pfn(Command::GetDeviceProcAddr));
    assert_eq!(
        table.vk_get_physical_device_surface_capabilities_khr,
        Some(pfn(Command::GetPhysicalDeviceSurfaceCapabilitiesKhr))
    );
    assert_eq!(
        table.vk_get_physical_device_surface_formats_khr,
        Some(pfn(Command::GetPhysicalDeviceSurfaceFormatsKhr))
    );
    assert_eq!(
        table.vk_get_physical_device_surface_present_modes_khr,
        Some(pfn(Command::GetPhysicalDeviceSurfacePresentModesKhr))
    );
}

#[test]
fn an_adapter_table_needs_every_core_command() {
    let commands = DispatchLoaderPhysicalDevice::commands();
    assert!(core_commands_resolved(&commands, &resolved(&all_commands())));
    for missing in [
        Command::GetPhysicalDeviceProperties,
        Command::GetPhysicalDeviceQueueFamilyProperties,
        Command::CreateDevice,
        Command::GetDeviceProcAddr,
    ] {
        let symbols = resolved_without(&[missing]);
        assert!(!core_commands_resolved(&commands, &symbols));
    }
    for missing in [
        Command::GetPhysicalDeviceSurfaceCapabilitiesKhr,
        Command::GetPhysicalDeviceSurfaceFormatsKhr,
        Command::GetPhysicalDeviceSurfacePresentModesKhr,
        Command::DestroyDevice,
        Command::CreateInstance,
    ] {
        let symbols = resolved_without(&[missing]);
        assert!(core_commands_resolved(&commands, &symbols));
    }
}

#[test]
fn an_adapter_table_without_the_surface_queries() {
    let symbols = resolved_without(&[
        Command::GetPhysicalDeviceSurfaceCapabilitiesKhr,
        Command::GetPhysicalDeviceSurfaceFormatsKhr,
        Command::GetPhysicalDeviceSurfacePresentModesKhr,
    ]);
    let table = DispatchLoaderPhysicalDevice::new(&symbols);
    assert_eq!(table.vk_get_physical_device_surface_capabilities_khr, None);
    assert_eq!(table.vk_get_physical_device_surface_formats_khr, None);
    assert_eq!(table.vk_get_physical_device_surface_present_modes_khr, None);
    assert_eq!(table.vk_create_device, pfn(Command::CreateDevice));
}

#[test]
fn the_table_of_a_device() {
    let symbols = resolved(&all_commands());
    let table = DispatchLoaderDevice::new(&symbols);
    assert_eq!(table.vk_destroy_device, pfn(Command::DestroyDevice));
    assert_eq!(table.vk_get_device_queue, pfn(Command::GetDeviceQueue));
    assert_eq!(table.vk_create_command_pool, pfn(Command::CreateCommandPool));
    assert_eq!(table.vk_destroy_command_pool, pfn(Command::DestroyCommandPool));
    assert_eq!(table.vk_allocate_command_buffers, pfn(Command::AllocateCommandBuffers));
    assert_eq!(table.vk_create_semaphore, pfn(Command::CreateSemaphore));
    assert_eq!(table.vk_destroy_semaphore, pfn(Command::DestroySemaphore));
    assert_eq!(table.vk_create_swapchain_khr, Some(pfn(Command::CreateSwapchainKhr)));
    assert_eq!(table.vk_destroy_swapchain_khr, Some(pfn(Command::DestroySwapchainKhr)));
    assert_eq!(table.vk_get_swapchain_images_khr, Some(pfn(Command::GetSwapchainImagesKhr)));
    assert_eq!(table.vk_create_image_view, pfn(Command::CreateImageView));
    assert_eq!(table.vk_destroy_image_view, pfn(Command::DestroyImageView));
    assert_eq!(table.vk_create_shader_module, pfn(Command::CreateShaderModule));
    assert_eq!(table.vk_destroy_shader_module, pfn(Command::DestroyShaderModule));
}

#[test]
fn a_device_table_needs_every_core_command() {
    let commands = DispatchLoaderDevice::commands();
    assert!(core_commands_resolved(&commands, &resolved(&all_commands())));
    for missing in [
        Command::DestroyDevice,
        Command::GetDeviceQueue,
        Command::CreateCommandPool,
        Command::DestroyCommandPool,
        Command::AllocateCommandBuffers,
        Command::CreateSemaphore,
        Command::DestroySemaphore,
        Command::CreateImageView,
        Command::DestroyImageView,
        Command::CreateShaderModule,
        Command::DestroyShaderModule,
    ] {
        let symbols = resolved_without(&[missing]);
        assert!(!core_commands_resolved(&commands, &symbols));
    }
    let symbols = resolved_without(&[
        Command::CreateSwapchainKhr,
        Command::DestroySwapchainKhr,
        Command::GetSwapchainImagesKhr,
        Command::CreateDevice,
    ]);
    assert!(core_commands_resolved(&commands, &symbols));
}

#[test]
fn core_commands_of_a_mixed_list() {
    let symbols = resolved_without(&[Command::EnumerateInstanceVersion, Command::CreateDevice]);
    assert!(core_commands_resolved(&[], &symbols));
    assert!(core_commands_resolved(&[Command::EnumerateInstanceVersion], &symbols));
    assert!(core_commands_resolved(&DispatchLoaderInstance::global_commands(), &symbols));
    assert!(!core_commands_resolved(&[Command::CreateInstance, Command::CreateDevice], &symbols));
    assert!(!core_commands_resolved(&all_commands(), &ResolvedCommands::new()));
}

#[test]
fn the_calls_that_resolve_a_list_of_commands() {
    let bootstrap = FunctionAddress::new(0xB007).unwrap();
    let context = Handle::new(0x11);
    let commands = [Command::DestroyInstance, Command::EnumeratePhysicalDevices];
    let calls = DispatchLoaderInstance::resolve_calls(bootstrap, context, &commands);
    assert_eq!(calls.len(), 2);
    for (call, expected) in calls.iter().zip(commands.iter()) {
        match call {
            NativeCall::GetInstanceProcAddr { pfn, instance, command } => {
                assert_eq!(*pfn, bootstrap);
                assert_eq!(*instance, context);
                assert_eq!(command, expected);
            }
            other => panic!("{:?}", other),
        }
    }
    assert!(DispatchLoaderInstance::resolve_calls(bootstrap, None, &[]).is_empty());
    let device = Handle::new(0x31).unwrap();
    let commands = DispatchLoaderDevice::commands();
    let calls = DispatchLoaderDevice::resolve_calls(bootstrap, device, &commands);
    assert_eq!(calls.len(), 14);
    for (call, expected) in calls.iter().zip(commands.iter()) {
        match call {
            NativeCall::GetDeviceProcAddr { pfn, device: d, command } => {
                assert_eq!(*pfn, bootstrap);
                assert_eq!(*d, device);
                assert_eq!(command, expected);
            }
            other => panic!("{:?}", other),
        }
    }
}

#[test]
fn answers_are_recorded_in_the_order_of_the_questions() {
    let commands = [Command::CreateDevice, Command::DestroyDevice, Command::CreateDevice];
    let symbols = ResolvedCommands::from_answers(&commands, &[0x10, 0x20, 0x30]);
    assert_eq!(symbols.get(Command::CreateDevice).map(|a| a.raw()), Some(0x30));
    assert_eq!(symbols.get(Command::DestroyDevice).map(|a| a.raw()), Some(0x20));
    assert_eq!(symbols.get(Command::CreateInstance), None);
    let fewer = ResolvedCommands::from_answers(&commands, &[0x10]);
    assert_eq!(fewer.get(Command::CreateDevice).map(|a| a.raw()), Some(0x10));
    assert_eq!(fewer.get(Command::DestroyDevice), None);
    let unresolved = ResolvedCommands::from_answers(&commands, &[0x10, 0, 0]);
    assert_eq!(unresolved.get(Command::CreateDevice), None);
    assert_eq!(unresolved.get(Command::DestroyDevice), None);
    let none = ResolvedCommands::from_answers(&[], &[0x10]);
    assert_eq!(none.get(Command::CreateDevice), None);
}

#[test]
fn a_device_table_without_the_swapchain_commands() {
    let symbols = resolved_without(&[
        Command::CreateSwapchainKhr,
        Command::DestroySwapchainKhr,
        Command::GetSwapchainImagesKhr,
    ]);
    let table = DispatchLoaderDevice::new(&symbols);
    assert_eq!(table.vk_create_swapchain_khr, None);
    assert_eq!(table.vk_destroy_swapchain_khr, None);
    assert_eq!(table.vk_get_swapchain_images_khr, None);
    assert_eq!(table.vk_destroy_device, pfn(Command::DestroyDevice));
}

#[test]
fn an_empty_resolver_makes_no_table() {
    let symbols = ResolvedCommands::new();
    let bootstrap = FunctionAddress::new(0xB007).unwrap();
    assert_eq!(
        DispatchLoaderInstance::new(bootstrap, Platform::Windows, &symbols),
        Err(Error::InitializationFailed)
    );
    assert!(!core_commands_resolved(&DispatchLoaderPhysicalDevice::commands(), &symbols));
    assert!(!core_commands_resolved(&DispatchLoaderDevice::commands(), &symbols));
}
