//! The boundary to the native layer, as data.
//!
//! A [`NativeCall`] names one native command to be called and holds every
//! argument of that call as a plain value. The records it carries mirror the
//! native create-info records field by field, with typed values already
//! turned into the integers the native layer reads. Borrowed names and
//! buffers need to stay valid only until the call has been made.

use vstd::prelude::*;
use vstd::string::StringSliceAdditionalSpecFns;
use crate::command::Command;
use crate::common::Extent2D;
use crate::handle::{FunctionAddress, Handle};

verus! {

/// The leading tag of a native record, which tells the native layer what
/// record it was handed.
#[derive(Debug, Clone, Copy, PartialEq, Eq, Structural)]
pub enum StructureType {
    ApplicationInfo,
    InstanceCreateInfo,
    DeviceQueueCreateInfo,
    DeviceCreateInfo,
    SemaphoreCreateInfo,
    ImageViewCreateInfo,
    ShaderModuleCreateInfo,
    CommandPoolCreateInfo,
    CommandBufferAllocateInfo,
    SwapchainCreateInfoKhr,
    XlibSurfaceCreateInfoKhr,
    XcbSurfaceCreateInfoKhr,
    Win32SurfaceCreateInfoKhr,
}

impl StructureType {
    /// The integer the native layer reads for this tag.
    pub open spec fn spec_code(self) -> int {
        match self {
            StructureType::ApplicationInfo => 0,
            StructureType::InstanceCreateInfo => 1,
            StructureType::DeviceQueueCreateInfo => 2,
            StructureType::DeviceCreateInfo => 3,
            StructureType::SemaphoreCreateInfo => 9,
            StructureType::ImageViewCreateInfo => 15,
            StructureType::ShaderModuleCreateInfo => 16,
            StructureType::CommandPoolCreateInfo => 39,
            StructureType::CommandBufferAllocateInfo => 40,
            StructureType::SwapchainCreateInfoKhr => 1000001000,
            StructureType::XlibSurfaceCreateInfoKhr => 1000004000,
            StructureType::XcbSurfaceCreateInfoKhr => 1000005000,
            StructureType::Win32SurfaceCreateInfoKhr => 1000009000,
        }
    }

    pub fn code(&self) -> (r: i32)
        ensures
            r == self.spec_code(),
    {
        match self {
            StructureType::ApplicationInfo => 0,
            StructureType::InstanceCreateInfo => 1,
            StructureType::DeviceQueueCreateInfo => 2,
            StructureType::DeviceCreateInfo => 3,
            StructureType::SemaphoreCreateInfo => 9,
            StructureType::ImageViewCreateInfo => 15,
            StructureType::ShaderModuleCreateInfo => 16,
            StructureType::CommandPoolCreateInfo => 39,
            StructureType::CommandBufferAllocateInfo => 40,
            StructureType::SwapchainCreateInfoKhr => 1000001000,
            StructureType::XlibSurfaceCreateInfoKhr => 1000004000,
            StructureType::XcbSurfaceCreateInfoKhr => 1000005000,
            StructureType::Win32SurfaceCreateInfoKhr => 1000009000,
        }
    }
}

/// The level of a command buffer. Only primary buffers are allocated here.
#[derive(Debug, Clone, Copy, PartialEq, Eq, Structural)]
pub enum CommandBufferLevel {
    Primary,
    Secondary,
}

impl CommandBufferLevel {
    pub open spec fn spec_code(self) -> int {
        match self {
            CommandBufferLevel::Primary => 0,
            CommandBufferLevel::Secondary => 1,
        }
    }

    pub fn code(&self) -> (r: i32)
        ensures
            r == self.spec_code(),
    {
        match self {
            CommandBufferLevel::Primary => 0,
            CommandBufferLevel::Secondary => 1,
        }
    }
}

/// Application metadata as the native layer reads it.
#[derive(Debug, Clone, Copy)]
pub struct ApplicationInfo<'a> {
    pub s_type: StructureType,
    pub application_name: Option<&'a String>,
    pub application_version: u32,
    pub engine_name: Option<&'a String>,
    pub engine_version: u32,
    pub api_version: u32,
}

/// The record that creates the top-level context.
#[derive(Debug, Clone, Copy)]
pub struct InstanceCreateInfo<'a> {
    pub s_type: StructureType,
    pub flags: u32,
    pub application_info: Option<ApplicationInfo<'a>>,
    pub enabled_layer_count: u32,
    pub enabled_layer_names: Option<&'a [&'a str]>,
    pub enabled_extension_count: u32,
    pub enabled_extension_names: Option<&'a [&'a str]>,
}

/// The queues asked of one queue family. A priority is held as the bits of
/// the native 32-bit floating-point value.
#[derive(Debug, Clone, Copy)]
pub struct DeviceQueueCreateInfo<'a> {
    pub s_type: StructureType,
    pub flags: u32,
    pub queue_family_index: u32,
    pub queue_count: u32,
    pub queue_priorities: &'a [u32],
}

/// The record that creates a logical device.
#[derive(Debug, Clone)]
pub struct DeviceCreateInfo<'a> {
    pub s_type: StructureType,
    pub flags: u32,
    pub queue_create_infos: Vec<DeviceQueueCreateInfo<'a>>,
    pub enabled_layer_count: u32,
    pub enabled_extension_count: u32,
    pub enabled_extension_names: Option<&'a [&'a str]>,
}

#[derive(Debug, Clone, Copy, PartialEq, Eq, Structural)]
pub struct CommandPoolCreateInfo {
    pub s_type: StructureType,
    pub flags: u32,
    pub queue_family_index: u32,
}

#[derive(Debug, Clone, Copy, PartialEq, Eq, Structural)]
pub struct CommandBufferAllocateInfo {
    pub s_type: StructureType,
    pub command_pool: Handle,
    pub level: CommandBufferLevel,
    pub command_buffer_count: u32,
}

#[derive(Debug, Clone, Copy, PartialEq, Eq, Structural)]
pub struct SemaphoreCreateInfo {
    pub s_type: StructureType,
    pub flags: u32,
}

/// The record that creates a surface on one windowing backend. Addresses of
/// the windowing system's own objects are held as integers.
#[allow(inconsistent_fields)]
#[derive(Debug, Clone, Copy, PartialEq, Eq, Structural)]
pub enum SurfaceCreateInfo {
    Xcb { s_type: StructureType, flags: u32, connection: usize, window: u32 },
    Xlib { s_type: StructureType, flags: u32, dpy: usize, window: u64 },
    Win32 { s_type: StructureType, flags: u32, hinstance: usize, hwnd: usize },
}

/// The record that creates a swap-chain.
#[derive(Debug, Clone, Copy)]
pub struct SwapchainCreateInfoKhr<'a> {
    pub s_type: StructureType,
    pub flags: u32,
    pub surface: Handle,
    pub min_image_count: u32,
    pub image_format: i32,
    pub image_color_space: i32,
    pub image_extent: Extent2D,
    pub image_array_layers: u32,
    pub image_usage: u32,
    pub image_sharing_mode: i32,
    pub queue_family_index_count: u32,
    pub queue_family_indices: Option<&'a [u32]>,
    pub pre_transform: u32,
    pub composite_alpha: u32,
    pub present_mode: i32,
    pub clipped: u32,
    pub old_swapchain: Option<Handle>,
}

#[derive(Debug, Clone, Copy, PartialEq, Eq, Structural)]
pub struct ComponentMapping {
    pub r: i32,
    pub g: i32,
    pub b: i32,
    pub a: i32,
}

#[derive(Debug, Clone, Copy, PartialEq, Eq, Structural)]
pub struct ImageSubresourceRange {
    pub aspect_mask: u32,
    pub base_mip_level: u32,
    pub level_count: u32,
    pub base_array_layer: u32,
    pub layer_count: u32,
}

/// The record that creates an image view.
#[derive(Debug, Clone, Copy, PartialEq, Eq, Structural)]
pub struct ImageViewCreateInfo {
    pub s_type: StructureType,
    pub flags: u32,
    pub image: Handle,
    pub view_type: i32,
    pub format: i32,
    pub components: ComponentMapping,
    pub subresource_range: ImageSubresourceRange,
}

/// The record that creates a shader module. The code is opaque and handed
/// on as it is, with its length in bytes.
#[derive(Debug, Clone, Copy)]
pub struct ShaderModuleCreateInfo<'a> {
    pub s_type: StructureType,
    pub flags: u32,
    pub code_size: usize,
    pub code: &'a [u8],
}

/// What a surface can do, as the native layer reports it.
#[derive(Debug, Clone, Copy, PartialEq, Eq, Structural)]
pub struct SurfaceCapabilitiesKhr {
    pub min_image_count: u32,
    pub max_image_count: u32,
    pub current_extent: Extent2D,
    pub min_image_extent: Extent2D,
    pub max_image_extent: Extent2D,
    pub max_image_array_layers: u32,
    pub supported_transforms: u32,
    pub current_transform: u32,
    pub supported_composite_alpha: u32,
    pub supported_usage_flags: u32,
}

/// A pixel format with a color space, as the native layer reports it.
#[derive(Debug, Clone, Copy, PartialEq, Eq, Structural)]
pub struct SurfaceFormatKhr {
    pub format: i32,
    pub color_space: i32,
}

/// A call that destroys one native object. `parent` is the object through
/// which the command is dispatched; the top-level context and a logical
/// device are destroyed through themselves and have none.
#[derive(Debug, Clone, Copy, PartialEq, Eq, Structural)]
pub struct DestroyCall {
    pub command: Command,
    pub pfn: FunctionAddress,
    pub parent: Option<Handle>,
    pub object: Handle,
}

/// One call into the native layer: the address to call and the arguments to
/// hand over. An enumerating call with no capacity asks for the count only
/// and passes no buffer.
#[allow(inconsistent_fields)]
#[derive(Debug, Clone)]
pub enum NativeCall<'a> {
    GetInstanceProcAddr { pfn: FunctionAddress, instance: Option<Handle>, command: Command },
    GetDeviceProcAddr { pfn: FunctionAddress, device: Handle, command: Command },
    EnumerateInstanceVersion { pfn: FunctionAddress },
    CreateInstance { pfn: FunctionAddress, info: InstanceCreateInfo<'a> },
    EnumeratePhysicalDevices { pfn: FunctionAddress, instance: Handle, capacity: Option<u32> },
    CreateSurface { pfn: FunctionAddress, instance: Handle, info: SurfaceCreateInfo },
    GetPhysicalDeviceProperties { pfn: FunctionAddress, physical_device: Handle },
    GetPhysicalDeviceQueueFamilyProperties {
        pfn: FunctionAddress,
        physical_device: Handle,
        capacity: Option<u32>,
    },
    CreateDevice { pfn: FunctionAddress, physical_device: Handle, info: DeviceCreateInfo<'a> },
    GetPhysicalDeviceSurfaceCapabilities {
        pfn: FunctionAddress,
        physical_device: Handle,
        surface: Handle,
    },
    GetPhysicalDeviceSurfaceFormats {
        pfn: FunctionAddress,
        physical_device: Handle,
        surface: Handle,
        capacity: Option<u32>,
    },
    GetPhysicalDeviceSurfacePresentModes {
        pfn: FunctionAddress,
        physical_device: Handle,
        surface: Handle,
        capacity: Option<u32>,
    },
    GetDeviceQueue {
        pfn: FunctionAddress,
        device: Handle,
        queue_family_index: u32,
        queue_index: u32,
    },
    CreateCommandPool { pfn: FunctionAddress, device: Handle, info: CommandPoolCreateInfo },
    AllocateCommandBuffers {
        pfn: FunctionAddress,
        device: Handle,
        info: CommandBufferAllocateInfo,
    },
    CreateSemaphore { pfn: FunctionAddress, device: Handle, info: SemaphoreCreateInfo },
    CreateSwapchain { pfn: FunctionAddress, device: Handle, info: SwapchainCreateInfoKhr<'a> },
    GetSwapchainImages {
        pfn: FunctionAddress,
        device: Handle,
        swapchain: Handle,
        capacity: Option<u32>,
    },
    CreateImageView { pfn: FunctionAddress, device: Handle, info: ImageViewCreateInfo },
    CreateShaderModule { pfn: FunctionAddress, device: Handle, info: ShaderModuleCreateInfo<'a> },
    Destroy(DestroyCall),
}

impl<'a> NativeCall<'a> {
    /// The command that the call invokes. A call that creates a surface
    /// invokes the command of the backend its record is for.
    pub open spec fn spec_command(self) -> Command {
        match self {
            NativeCall::GetInstanceProcAddr { .. } => Command::GetInstanceProcAddr,
            NativeCall::GetDeviceProcAddr { .. } => Command::GetDeviceProcAddr,
            NativeCall::EnumerateInstanceVersion { .. } => Command::EnumerateInstanceVersion,
            NativeCall::CreateInstance { .. } => Command::CreateInstance,
            NativeCall::EnumeratePhysicalDevices { .. } => Command::EnumeratePhysicalDevices,
            NativeCall::CreateSurface { info, .. } => match info {
                SurfaceCreateInfo::Xcb { .. } => Command::CreateXcbSurfaceKhr,
                SurfaceCreateInfo::Xlib { .. } => Command::CreateXlibSurfaceKhr,
                SurfaceCreateInfo::Win32 { .. } => Command::CreateWin32SurfaceKhr,
            },
            NativeCall::GetPhysicalDeviceProperties { .. } => Command::GetPhysicalDeviceProperties,
            NativeCall::GetPhysicalDeviceQueueFamilyProperties { .. } => {
                Command::GetPhysicalDeviceQueueFamilyProperties
            },
            NativeCall::CreateDevice { .. } => Command::CreateDevice,
            NativeCall::GetPhysicalDeviceSurfaceCapabilities { .. } => {
                Command::GetPhysicalDeviceSurfaceCapabilitiesKhr
            },
            NativeCall::GetPhysicalDeviceSurfaceFormats { .. } => {
                Command::GetPhysicalDeviceSurfaceFormatsKhr
            },
            NativeCall::GetPhysicalDeviceSurfacePresentModes { .. } => {
                Command::GetPhysicalDeviceSurfacePresentModesKhr
            },
            NativeCall::GetDeviceQueue { .. } => Command::GetDeviceQueue,
            NativeCall::CreateCommandPool { .. } => Command::CreateCommandPool,
            NativeCall::AllocateCommandBuffers { .. } => Command::AllocateCommandBuffers,
            NativeCall::CreateSemaphore { .. } => Command::CreateSemaphore,
            NativeCall::CreateSwapchain { .. } => Command::CreateSwapchainKhr,
            NativeCall::GetSwapchainImages { .. } => Command::GetSwapchainImagesKhr,
            NativeCall::CreateImageView { .. } => Command::CreateImageView,
            NativeCall::CreateShaderModule { .. } => Command::CreateShaderModule,
            NativeCall::Destroy(call) => call.command,
        }
    }

    /// The address that the call goes to.
    pub open spec fn spec_pfn(self) -> FunctionAddress {
        match self {
            NativeCall::GetInstanceProcAddr { pfn, .. } => pfn,
            NativeCall::GetDeviceProcAddr { pfn, .. } => pfn,
            NativeCall::EnumerateInstanceVersion { pfn } => pfn,
            NativeCall::CreateInstance { pfn, .. } => pfn,
            NativeCall::EnumeratePhysicalDevices { pfn, .. } => pfn,
            NativeCall::CreateSurface { pfn, .. } => pfn,
            NativeCall::GetPhysicalDeviceProperties { pfn, .. } => pfn,
            NativeCall::GetPhysicalDeviceQueueFamilyProperties { pfn, .. } => pfn,
            NativeCall::CreateDevice { pfn, .. } => pfn,
            NativeCall::GetPhysicalDeviceSurfaceCapabilities { pfn, .. } => pfn,
            NativeCall::GetPhysicalDeviceSurfaceFormats { pfn, .. } => pfn,
            NativeCall::GetPhysicalDeviceSurfacePresentModes { pfn, .. } => pfn,
            NativeCall::GetDeviceQueue { pfn, .. } => pfn,
            NativeCall::CreateCommandPool { pfn, .. } => pfn,
            NativeCall::AllocateCommandBuffers { pfn, .. } => pfn,
            NativeCall::CreateSemaphore { pfn, .. } => pfn,
            NativeCall::CreateSwapchain { pfn, .. } => pfn,
            NativeCall::GetSwapchainImages { pfn, .. } => pfn,
            NativeCall::CreateImageView { pfn, .. } => pfn,
            NativeCall::CreateShaderModule { pfn, .. } => pfn,
            NativeCall::Destroy(call) => call.pfn,
        }
    }

    pub fn command(&self) -> (r: Command)
        ensures
            r == self.spec_command(),
    {
        match self {
            NativeCall::GetInstanceProcAddr { .. } => Command::GetInstanceProcAddr,
            NativeCall::GetDeviceProcAddr { .. } => Command::GetDeviceProcAddr,
            NativeCall::EnumerateInstanceVersion { .. } => Command::EnumerateInstanceVersion,
            NativeCall::CreateInstance { .. } => Command::CreateInstance,
            NativeCall::EnumeratePhysicalDevices { .. } => Command::EnumeratePhysicalDevices,
            NativeCall::CreateSurface { info, .. } => match info {
                SurfaceCreateInfo::Xcb { .. } => Command::CreateXcbSurfaceKhr,
                SurfaceCreateInfo::Xlib { .. } => Command::CreateXlibSurfaceKhr,
                SurfaceCreateInfo::Win32 { .. } => Command::CreateWin32SurfaceKhr,
            },
            NativeCall::GetPhysicalDeviceProperties { .. } => Command::GetPhysicalDeviceProperties,
            NativeCall::GetPhysicalDeviceQueueFamilyProperties { .. } => {
                Command::GetPhysicalDeviceQueueFamilyProperties
            },
            NativeCall::CreateDevice { .. } => Command::CreateDevice,
            NativeCall::GetPhysicalDeviceSurfaceCapabilities { .. } => {
                Command::GetPhysicalDeviceSurfaceCapabilitiesKhr
            },
            NativeCall::GetPhysicalDeviceSurfaceFormats { .. } => {
                Command::GetPhysicalDeviceSurfaceFormatsKhr
            },
            NativeCall::GetPhysicalDeviceSurfacePresentModes { .. } => {
                Command::GetPhysicalDeviceSurfacePresentModesKhr
            },
            NativeCall::GetDeviceQueue { .. } => Command::GetDeviceQueue,
            NativeCall::CreateCommandPool { .. } => Command::CreateCommandPool,
            NativeCall::AllocateCommandBuffers { .. } => Command::AllocateCommandBuffers,
            NativeCall::CreateSemaphore { .. } => Command::CreateSemaphore,
            NativeCall::CreateSwapchain { .. } => Command::CreateSwapchainKhr,
            NativeCall::GetSwapchainImages { .. } => Command::GetSwapchainImagesKhr,
            NativeCall::CreateImageView { .. } => Command::CreateImageView,
            NativeCall::CreateShaderModule { .. } => Command::CreateShaderModule,
            NativeCall::Destroy(call) => call.command,
        }
    }

    pub fn pfn(&self) -> (r: FunctionAddress)
        ensures
            r == self.spec_pfn(),
    {
        match self {
            NativeCall::GetInstanceProcAddr { pfn, .. } => *pfn,
            NativeCall::GetDeviceProcAddr { pfn, .. } => *pfn,
            NativeCall::EnumerateInstanceVersion { pfn } => *pfn,
            NativeCall::CreateInstance { pfn, .. } => *pfn,
            NativeCall::EnumeratePhysicalDevices { pfn, .. } => *pfn,
            NativeCall::CreateSurface { pfn, .. } => *pfn,
            NativeCall::GetPhysicalDeviceProperties { pfn, .. } => *pfn,
            NativeCall::GetPhysicalDeviceQueueFamilyProperties { pfn, .. } => *pfn,
            NativeCall::CreateDevice { pfn, .. } => *pfn,
            NativeCall::GetPhysicalDeviceSurfaceCapabilities { pfn, .. } => *pfn,
            NativeCall::GetPhysicalDeviceSurfaceFormats { pfn, .. } => *pfn,
            NativeCall::GetPhysicalDeviceSurfacePresentModes { pfn, .. } => *pfn,
            NativeCall::GetDeviceQueue { pfn, .. } => *pfn,
            NativeCall::CreateCommandPool { pfn, .. } => *pfn,
            NativeCall::AllocateCommandBuffers { pfn, .. } => *pfn,
            NativeCall::CreateSemaphore { pfn, .. } => *pfn,
            NativeCall::CreateSwapchain { pfn, .. } => *pfn,
            NativeCall::GetSwapchainImages { pfn, .. } => *pfn,
            NativeCall::CreateImageView { pfn, .. } => *pfn,
            NativeCall::CreateShaderModule { pfn, .. } => *pfn,
            NativeCall::Destroy(call) => call.pfn,
        }
    }
}

/// A name as the native layer reads it: its bytes followed by one NUL. There
/// is none for a name that holds a NUL itself, which the native layer would
/// read as a shorter name.
pub open spec fn spec_c_string(name: Seq<u8>) -> Option<Seq<u8>> {
    if name.contains(0u8) {
        None
    } else {
        Some(name.push(0u8))
    }
}

/// Writes `name` as the native layer reads it.
pub fn c_string(name: &str) -> (r: Option<Vec<u8>>)
    ensures
        match spec_c_string(name.spec_bytes()) {
            Some(bytes) => r matches Some(v) && v@ == bytes,
            None => r is None,
        },
{
    let bytes = name.as_bytes();
    let mut out: Vec<u8> = Vec::new();
    let mut i: usize = 0;
    while i < bytes.len()
        invariant
            i <= bytes@.len(),
            bytes@ == name.spec_bytes(),
            out@ == bytes@.take(i as int),
            forall|j: int| 0 <= j < i ==> bytes@[j] != 0,
        decreases bytes@.len() - i,
    {
        if bytes[i] == 0 {
            assert(bytes@.contains(0u8));
            return None;
        }
        out.push(bytes[i]);
        assert(bytes@.take(i as int).push(bytes@[i as int]) =~= bytes@.take(i + 1));
        i = i + 1;
    }
    assert(bytes@.take(i as int) =~= bytes@);
    out.push(0);
    Some(out)
}

} // verus!
