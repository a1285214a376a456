use vulkan_rs::command::{Command, Platform, ResolvedCommands};
use vulkan_rs::dispatch::DispatchLoaderInstance;
use vulkan_rs::handle::{FunctionAddress, Handle};
use vulkan_rs::init::Instance;
use vulkan_rs::lifetime::{ObjectKind, OwnershipTree, Released};
use vulkan_rs::native::DestroyCall;

fn all_commands() -> Vec<Command> {
    vec![
        Command::GetInstanceProcAddr,
        Command::EnumerateInstanceVersion,
        Command::CreateInstance,
        Command::DestroyInstance,
        Command::EnumeratePhysicalDevices,
        Command::CreateXcbSurfaceKhr,
        Command::CreateXlibSurfaceKhr,
        Command::CreateWin32SurfaceKhr,
        Command::DestroySurfaceKhr,
        Command::GetPhysicalDeviceProperties,
        Command::GetPhysicalDeviceQueueFamilyProperties,
        Command::CreateDevice,
        Command::GetDeviceProcAddr,
        Command::GetPhysicalDeviceSurfaceCapabilitiesKhr,
        Command::GetPhysicalDeviceSurfaceFormatsKhr,
        Command::GetPhysicalDeviceSurfacePresentModesKhr,
        Command::DestroyDevice,
        Command::GetDeviceQueue,
        Command::CreateCommandPool,
        Command::DestroyCommandPool,
        Command::AllocateCommandBuffers,
        Command::CreateSemaphore,
        Command::DestroySemaphore,
        Command::CreateSwapchainKhr,
        Command::DestroySwapchainKhr,
        Command::GetSwapchainImagesKhr,
        Command::CreateImageView,
        Command::DestroyImageView,
        Command::CreateShaderModule,
        Command::DestroyShaderModule,
    ]
}

fn all_symbols() -> ResolvedCommands {
    let mut symbols = ResolvedCommands::new();
    for command in all_commands() {
        symbols.record(command, 0x1000 + 16 * command.index());
    }
    symbols
}

fn handle(raw: u64) -> Handle {
    Handle::new(raw).unwrap()
}

fn call(command: Command, parent: Option<u64>, object: u64) -> DestroyCall {
    DestroyCall {
        command,
        pfn: FunctionAddress::new(0x1000 + 16 * command.index()).unwrap(),
        parent: parent.map(handle),
        object: handle(object),
    }
}

fn commands_of(released: &[Released]) -> Vec<Command> {
    released.iter().filter_map(|r| r.call.map(|c| c.command)).collect()
}

fn ids_of(released: &[Released]) -> Vec<usize> {
    released.iter().map(|r| r.id).collect()
}

#[test]
fn kinds_and_what_they_are_made_through() {
    assert_eq!(ObjectKind::Instance.parent_kind(), None);
    assert_eq!(ObjectKind::PhysicalDevice.parent_kind(), Some(ObjectKind::Instance));
    assert_eq!(ObjectKind::Surface.parent_kind(), Some(ObjectKind::Instance));
    assert_eq!(ObjectKind::Device.parent_kind(), Some(ObjectKind::PhysicalDevice));
    assert_eq!(ObjectKind::Queue.parent_kind(), Some(ObjectKind::Device));
    assert_eq!(ObjectKind::CommandPool.parent_kind(), Some(ObjectKind::Device));
    assert_eq!(ObjectKind::Semaphore.parent_kind(), Some(ObjectKind::Device));
    assert_eq!(ObjectKind::Swapchain.parent_kind(), Some(ObjectKind::Device));
    assert_eq!(ObjectKind::ShaderModule.parent_kind(), Some(ObjectKind::Device));
    assert_eq!(ObjectKind::CommandBuffer.parent_kind(), Some(ObjectKind::CommandPool));
    assert_eq!(ObjectKind::Image.parent_kind(), Some(ObjectKind::Swapchain));
    assert_eq!(ObjectKind::ImageView.parent_kind(), Some(ObjectKind::Image));
}

#[test]
fn an_empty_tree() {
    let mut tree = OwnershipTree::new();
    assert_eq!(tree.len(), 0);
    assert_eq!(tree.get(0), None);
    assert!(tree.release(0).is_empty());
    assert_eq!(tree.len(), 0);
}

#[test]
fn objects_get_the_next_place() {
    let mut tree = OwnershipTree::new();
    let destroy = call(Command::DestroyInstance, None, 0x11);
    assert_eq!(tree.insert(ObjectKind::Instance, handle(0x11), None, Some(destroy)), Some(0));
    assert_eq!(tree.insert(ObjectKind::PhysicalDevice, handle(0x21), Some(0), None), Some(1));
    assert_eq!(tree.insert(ObjectKind::PhysicalDevice, handle(0x22), Some(0), None), Some(2));
    assert_eq!(tree.len(), 3);
    let node = tree.get(1).unwrap();
    assert_eq!(node.kind, ObjectKind::PhysicalDevice);
    assert_eq!(node.handle.raw(), 0x21);
    assert_eq!(node.parent, Some(0));
    assert!(node.live);
    assert_eq!(node.destroy, None);
    assert_eq!(tree.get(0).unwrap().destroy, Some(destroy));
    assert_eq!(tree.get(3), None);
}

#[test]
fn an_object_needs_the_parent_of_its_kind() {
    let context = Some(call(Command::DestroyInstance, None, 0x11));
    let other_context = Some(call(Command::DestroyInstance, None, 0x12));
    let device = Some(call(Command::DestroyDevice, None, 0x31));
    let pool = Some(call(Command::DestroyCommandPool, Some(0x11), 0x41));
    let mut tree = OwnershipTree::new();
    assert_eq!(tree.insert(ObjectKind::Device, handle(0x31), None, device), None);
    assert_eq!(tree.insert(ObjectKind::PhysicalDevice, handle(0x21), Some(0), None), None);
    assert_eq!(tree.len(), 0);
    assert_eq!(tree.insert(ObjectKind::Instance, handle(0x11), None, context), Some(0));
    assert_eq!(tree.insert(ObjectKind::Instance, handle(0x12), Some(0), other_context), None);
    assert_eq!(tree.insert(ObjectKind::Device, handle(0x31), Some(0), device), None);
    assert_eq!(tree.insert(ObjectKind::CommandPool, handle(0x41), Some(0), pool), None);
    assert_eq!(tree.insert(ObjectKind::PhysicalDevice, handle(0x21), Some(1), None), None);
    assert_eq!(tree.insert(ObjectKind::PhysicalDevice, handle(0x21), Some(usize::MAX), None), None);
    assert_eq!(tree.len(), 1);
    assert_eq!(tree.insert(ObjectKind::PhysicalDevice, handle(0x21), Some(0), None), Some(1));
    assert_eq!(tree.insert(ObjectKind::Device, handle(0x31), Some(1), device), Some(2));
    assert_eq!(tree.insert(ObjectKind::Instance, handle(0x12), None, other_context), Some(3));
}

#[test]
fn an_object_needs_its_own_destroy_call() {
    let mut tree = OwnershipTree::new();
    let context = call(Command::DestroyInstance, None, 0x11);
    assert_eq!(tree.insert(ObjectKind::Instance, handle(0x11), None, None), None);
    assert_eq!(
        tree.insert(ObjectKind::Instance, handle(0x11), None, Some(call(Command::DestroyDevice, None, 0x11))),
        None
    );
    assert_eq!(
        tree.insert(ObjectKind::Instance, handle(0x11), None, Some(call(Command::DestroyInstance, None, 0x12))),
        None
    );
    assert_eq!(
        tree.insert(ObjectKind::Instance, handle(0x11), None, Some(call(Command::DestroyInstance, Some(0x11), 0x11))),
        None
    );
    assert_eq!(tree.insert(ObjectKind::Instance, handle(0x11), None, Some(context)), Some(0));
    assert_eq!(
        tree.insert(ObjectKind::PhysicalDevice, handle(0x21), Some(0), Some(call(Command::DestroyDevice, None, 0x21))),
        None
    );
    assert_eq!(tree.insert(ObjectKind::PhysicalDevice, handle(0x21), Some(0), None), Some(1));
    assert_eq!(tree.insert(ObjectKind::Device, handle(0x31), Some(1), None), None);
    assert_eq!(
        tree.insert(ObjectKind::Device, handle(0x31), Some(1), Some(call(Command::DestroyDevice, None, 0x31))),
        Some(2)
    );
    assert_eq!(tree.insert(ObjectKind::Semaphore, handle(0x71), Some(2), None), None);
    assert_eq!(
        tree.insert(ObjectKind::Semaphore, handle(0x71), Some(2), Some(call(Command::DestroySemaphore, None, 0x71))),
        None
    );
    assert_eq!(
        tree.insert(ObjectKind::Semaphore, handle(0x71), Some(2), Some(call(Command::DestroySemaphore, Some(0x11), 0x71))),
        None
    );
    assert_eq!(
        tree.insert(ObjectKind::Semaphore, handle(0x71), Some(2), Some(call(Command::DestroySemaphore, Some(0x31), 0x71))),
        Some(3)
    );
    assert_eq!(tree.len(), 4);
}

#[test]
fn an_extension_object_may_have_no_destroy_call() {
    let mut tree = OwnershipTree::new();
    tree.insert(ObjectKind::Instance, handle(0x11), None, Some(call(Command::DestroyInstance, None, 0x11)));
    assert_eq!(tree.insert(ObjectKind::Surface, handle(0x91), Some(0), None), Some(1));
    tree.insert(ObjectKind::PhysicalDevice, handle(0x21), Some(0), None);
    tree.insert(ObjectKind::Device, handle(0x31), Some(2), Some(call(Command::DestroyDevice, None, 0x31)));
    assert_eq!(tree.insert(ObjectKind::Swapchain, handle(0xA1), Some(3), None), Some(4));
    assert_eq!(tree.insert(ObjectKind::Queue, handle(0x61), Some(3), None), Some(5));
    let released = tree.release(0);
    assert_eq!(ids_of(&released), vec![5, 4, 3, 2, 1, 0]);
    assert_eq!(commands_of(&released), vec![Command::DestroyDevice, Command::DestroyInstance]);
}

#[test]
fn an_image_view_is_destroyed_through_the_device_of_its_image() {
    let mut tree = OwnershipTree::new();
    tree.insert(ObjectKind::Instance, handle(0x11), None, Some(call(Command::DestroyInstance, None, 0x11)));
    tree.insert(ObjectKind::PhysicalDevice, handle(0x21), Some(0), None);
    tree.insert(ObjectKind::Device, handle(0x31), Some(1), Some(call(Command::DestroyDevice, None, 0x31)));
    tree.insert(ObjectKind::Swapchain, handle(0xA1), Some(2), Some(call(Command::DestroySwapchainKhr, Some(0x31), 0xA1)));
    tree.insert(ObjectKind::Image, handle(0xB1), Some(3), None);
    assert_eq!(
        tree.insert(ObjectKind::ImageView, handle(0xC1), Some(4), Some(call(Command::DestroyImageView, Some(0xB1), 0xC1))),
        None
    );
    assert_eq!(
        tree.insert(ObjectKind::ImageView, handle(0xC1), Some(4), Some(call(Command::DestroyImageView, Some(0xA1), 0xC1))),
        None
    );
    assert_eq!(
        tree.insert(ObjectKind::ImageView, handle(0xC1), Some(4), Some(call(Command::DestroyImageView, Some(0x31), 0xC1))),
        Some(5)
    );
}

#[test]
fn kinds_and_their_destroy_commands() {
    assert_eq!(ObjectKind::Instance.destroy_command(), Some(Command::DestroyInstance));
    assert_eq!(ObjectKind::Device.destroy_command(), Some(Command::DestroyDevice));
    assert_eq!(ObjectKind::CommandPool.destroy_command(), Some(Command::DestroyCommandPool));
    assert_eq!(ObjectKind::Semaphore.destroy_command(), Some(Command::DestroySemaphore));
    assert_eq!(ObjectKind::Surface.destroy_command(), Some(Command::DestroySurfaceKhr));
    assert_eq!(ObjectKind::Swapchain.destroy_command(), Some(Command::DestroySwapchainKhr));
    assert_eq!(ObjectKind::ImageView.destroy_command(), Some(Command::DestroyImageView));
    assert_eq!(ObjectKind::ShaderModule.destroy_command(), Some(Command::DestroyShaderModule));
    assert_eq!(ObjectKind::PhysicalDevice.destroy_command(), None);
    assert_eq!(ObjectKind::Queue.destroy_command(), None);
    assert_eq!(ObjectKind::CommandBuffer.destroy_command(), None);
    assert_eq!(ObjectKind::Image.destroy_command(), None);
}

#[test]
fn children_are_destroyed_before_their_parents() {
    let symbols = all_symbols();
    let bootstrap = FunctionAddress::new(0xB007).unwrap();
    let loader = DispatchLoaderInstance::new(bootstrap, Platform::Unix, &symbols).unwrap();
    let instance = Instance::builder().build(loader, 0, 0x11, &symbols).unwrap();
    let adapters = instance.enumerate_physical_devices(0, 1, &[0x21], &symbols).unwrap();
    let device = adapters[0].create_device(0, 0x31, &symbols).unwrap();
    let pool = device.create_command_pool(0, 0x41).unwrap();
    let buffers = pool.allocate_command_buffers(0, &[0x51]).unwrap();

    let mut tree = OwnershipTree::new();
    let context = tree
        .insert(ObjectKind::Instance, instance.handle(), None, Some(instance.destroy_call()))
        .unwrap();
    let adapter =
        tree.insert(ObjectKind::PhysicalDevice, adapters[0].handle, Some(context), None).unwrap();
    let logical = tree
        .insert(ObjectKind::Device, device.handle, Some(adapter), Some(device.destroy_call()))
        .unwrap();
    let pool_id = tree
        .insert(ObjectKind::CommandPool, pool.handle, Some(logical), Some(pool.destroy_call()))
        .unwrap();
    let buffer =
        tree.insert(ObjectKind::CommandBuffer, buffers[0].handle, Some(pool_id), None).unwrap();

    let released = tree.release(context);
    assert_eq!(ids_of(&released), vec![buffer, pool_id, logical, adapter, context]);
    assert_eq!(
        commands_of(&released),
        vec![Command::DestroyCommandPool, Command::DestroyDevice, Command::DestroyInstance]
    );
    assert_eq!(released[1].call.unwrap().object.raw(), 0x41);
    assert_eq!(released[1].call.unwrap().parent, Handle::new(0x31));
    assert_eq!(released[2].call.unwrap().object.raw(), 0x31);
    assert_eq!(released[4].call.unwrap().object.raw(), 0x11);
    assert_eq!(released[0].kind, ObjectKind::CommandBuffer);
    for id in 0..tree.len() {
        assert!(!tree.get(id).unwrap().live);
    }
}

#[test]
fn releasing_a_branch_leaves_the_rest() {
    let mut tree = OwnershipTree::new();
    tree.insert(ObjectKind::Instance, handle(0x11), None, Some(call(Command::DestroyInstance, None, 0x11)));
    tree.insert(ObjectKind::PhysicalDevice, handle(0x21), Some(0), None);
    tree.insert(ObjectKind::Device, handle(0x31), Some(1), Some(call(Command::DestroyDevice, None, 0x31)));
    tree.insert(ObjectKind::Device, handle(0x32), Some(1), Some(call(Command::DestroyDevice, None, 0x32)));
    tree.insert(ObjectKind::Semaphore, handle(0x71), Some(2), Some(call(Command::DestroySemaphore, Some(0x31), 0x71)));
    tree.insert(ObjectKind::Semaphore, handle(0x72), Some(3), Some(call(Command::DestroySemaphore, Some(0x32), 0x72)));
    tree.insert(ObjectKind::CommandPool, handle(0x41), Some(2), Some(call(Command::DestroyCommandPool, Some(0x31), 0x41)));

    let released = tree.release(2);
    assert_eq!(ids_of(&released), vec![6, 4, 2]);
    assert_eq!(
        commands_of(&released),
        vec![Command::DestroyCommandPool, Command::DestroySemaphore, Command::DestroyDevice]
    );
    assert!(tree.get(0).unwrap().live);
    assert!(tree.get(1).unwrap().live);
    assert!(!tree.get(2).unwrap().live);
    assert!(tree.get(3).unwrap().live);
    assert!(!tree.get(4).unwrap().live);
    assert!(tree.get(5).unwrap().live);
    assert!(!tree.get(6).unwrap().live);

    let dead = Some(call(Command::DestroySemaphore, Some(0x31), 0x73));
    let live = Some(call(Command::DestroySemaphore, Some(0x32), 0x73));
    assert_eq!(tree.insert(ObjectKind::Semaphore, handle(0x73), Some(2), dead), None);
    assert_eq!(tree.insert(ObjectKind::Semaphore, handle(0x73), Some(3), live), Some(7));

    let rest = tree.release(0);
    assert_eq!(ids_of(&rest), vec![7, 5, 3, 1, 0]);
    assert_eq!(
        commands_of(&rest),
        vec![
            Command::DestroySemaphore,
            Command::DestroySemaphore,
            Command::DestroyDevice,
            Command::DestroyInstance,
        ]
    );
    assert_eq!(rest[0].call.unwrap().object.raw(), 0x73);
    assert_eq!(rest[1].call.unwrap().object.raw(), 0x72);
}

#[test]
fn nothing_is_released_twice() {
    let mut tree = OwnershipTree::new();
    tree.insert(ObjectKind::Instance, handle(0x11), None, Some(call(Command::DestroyInstance, None, 0x11)));
    tree.insert(ObjectKind::Surface, handle(0x91), Some(0), Some(call(Command::DestroySurfaceKhr, Some(0x11), 0x91)));
    let first = tree.release(1);
    assert_eq!(ids_of(&first), vec![1]);
    assert!(tree.release(1).is_empty());
    let second = tree.release(0);
    assert_eq!(ids_of(&second), vec![0]);
    assert!(tree.release(0).is_empty());
    assert!(tree.release(9).is_empty());
    assert_eq!(tree.len(), 2);
}

#[test]
fn a_presentation_chain_is_released_from_the_leaves() {
    let mut tree = OwnershipTree::new();
    tree.insert(ObjectKind::Instance, handle(0x11), None, Some(call(Command::DestroyInstance, None, 0x11)));
    tree.insert(ObjectKind::Surface, handle(0x91), Some(0), Some(call(Command::DestroySurfaceKhr, Some(0x11), 0x91)));
    tree.insert(ObjectKind::PhysicalDevice, handle(0x21), Some(0), None);
    tree.insert(ObjectKind::Device, handle(0x31), Some(2), Some(call(Command::DestroyDevice, None, 0x31)));
    tree.insert(ObjectKind::Swapchain, handle(0xA1), Some(3), Some(call(Command::DestroySwapchainKhr, Some(0x31), 0xA1)));
    tree.insert(ObjectKind::Image, handle(0xB1), Some(4), None);
    tree.insert(ObjectKind::ImageView, handle(0xC1), Some(5), Some(call(Command::DestroyImageView, Some(0x31), 0xC1)));
    tree.insert(ObjectKind::ShaderModule, handle(0x81), Some(3), Some(call(Command::DestroyShaderModule, Some(0x31), 0x81)));
    let released = tree.release(0);
    assert_eq!(ids_of(&released), vec![7, 6, 5, 4, 3, 2, 1, 0]);
    assert_eq!(
        commands_of(&released),
        vec![
            Command::DestroyShaderModule,
            Command::DestroyImageView,
            Command::DestroySwapchainKhr,
            Command::DestroyDevice,
            Command::DestroySurfaceKhr,
            Command::DestroyInstance,
        ]
    );
    for (position, item) in released.iter().enumerate() {
        let node = tree.get(item.id).unwrap();
        if let Some(parent) = node.parent {
            let parent_position = released.iter().position(|r| r.id == parent).unwrap();
            assert!(position < parent_position);
        }
    }
}
