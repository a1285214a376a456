//! The native commands this library knows: their names, the level at which
//! each is resolved, and which of them the core of the native API owes.

use vstd::prelude::*;
use crate::handle::FunctionAddress;

verus! {

/// The name under which the instance-level resolver is exported by the
/// native library.
pub const BOOTSTRAP_SYMBOL: &'static str = "vkGetInstanceProcAddr";

/// The windowing family a build is made for. It selects the file name of the
/// native library and the surface commands that are resolved.
#[derive(Debug, Clone, Copy, PartialEq, Eq, Structural)]
pub enum Platform {
    Unix,
    Windows,
}

/// The level at which a command is resolved and dispatched.
#[derive(Debug, Clone, Copy, PartialEq, Eq, Structural)]
pub enum Level {
    /// Resolved by the instance-level resolver with a null context.
    Global,
    /// Resolved by the instance-level resolver with the instance, kept in
    /// the instance's table.
    Instance,
    /// Resolved by the instance-level resolver with the instance, kept in
    /// each adapter's table.
    PhysicalDevice,
    /// Resolved by the device-level resolver with the device.
    Device,
}

/// A native command.
#[derive(Debug, Clone, Copy, PartialEq, Eq, Structural)]
pub enum Command {
    GetInstanceProcAddr,
    EnumerateInstanceVersion,
    CreateInstance,
    DestroyInstance,
    EnumeratePhysicalDevices,
    CreateXcbSurfaceKhr,
    CreateXlibSurfaceKhr,
    CreateWin32SurfaceKhr,
    DestroySurfaceKhr,
    GetPhysicalDeviceProperties,
    GetPhysicalDeviceQueueFamilyProperties,
    CreateDevice,
    GetDeviceProcAddr,
    GetPhysicalDeviceSurfaceCapabilitiesKhr,
    GetPhysicalDeviceSurfaceFormatsKhr,
    GetPhysicalDeviceSurfacePresentModesKhr,
    DestroyDevice,
    GetDeviceQueue,
    CreateCommandPool,
    DestroyCommandPool,
    AllocateCommandBuffers,
    CreateSemaphore,
    DestroySemaphore,
    CreateSwapchainKhr,
    DestroySwapchainKhr,
    GetSwapchainImagesKhr,
    CreateImageView,
    DestroyImageView,
    CreateShaderModule,
    DestroyShaderModule,
}

/// How many commands there are.
pub const COMMAND_COUNT: usize = 30;

impl Platform {
    /// The file name of the native library on this platform.
    pub open spec fn spec_library_file_name(self) -> Seq<char> {
        match self {
            Platform::Unix => "libvulkan.so"@,
            Platform::Windows => "vulkan-1.dll"@,
        }
    }

    pub fn library_file_name(&self) -> (r: &'static str)
        ensures
            r@ == self.spec_library_file_name(),
    {
        match self {
            Platform::Unix => "libvulkan.so",
            Platform::Windows => "vulkan-1.dll",
        }
    }
}

impl Command {
    /// The exported name of the command.
    pub open spec fn spec_name(self) -> Seq<char> {
        match self {
            Command::GetInstanceProcAddr => "vkGetInstanceProcAddr"@,
            Command::EnumerateInstanceVersion => "vkEnumerateInstanceVersion"@,
            Command::CreateInstance => "vkCreateInstance"@,
            Command::DestroyInstance => "vkDestroyInstance"@,
            Command::EnumeratePhysicalDevices => "vkEnumeratePhysicalDevices"@,
            Command::CreateXcbSurfaceKhr => "vkCreateXcbSurfaceKHR"@,
            Command::CreateXlibSurfaceKhr => "vkCreateXlibSurfaceKHR"@,
            Command::CreateWin32SurfaceKhr => "vkCreateWin32SurfaceKHR"@,
            Command::DestroySurfaceKhr => "vkDestroySurfaceKHR"@,
            Command::GetPhysicalDeviceProperties => "vkGetPhysicalDeviceProperties"@,
            Command::GetPhysicalDeviceQueueFamilyProperties => "vkGetPhysicalDeviceQueueFamilyProperties"@,
            Command::CreateDevice => "vkCreateDevice"@,
            Command::GetDeviceProcAddr => "vkGetDeviceProcAddr"@,
            Command::GetPhysicalDeviceSurfaceCapabilitiesKhr => "vkGetPhysicalDeviceSurfaceCapabilitiesKHR"@,
            Command::GetPhysicalDeviceSurfaceFormatsKhr => "vkGetPhysicalDeviceSurfaceFormatsKHR"@,
            Command::GetPhysicalDeviceSurfacePresentModesKhr => "vkGetPhysicalDeviceSurfacePresentModesKHR"@,
            Command::DestroyDevice => "vkDestroyDevice"@,
            Command::GetDeviceQueue => "vkGetDeviceQueue"@,
            Command::CreateCommandPool => "vkCreateCommandPool"@,
            Command::DestroyCommandPool => "vkDestroyCommandPool"@,
            Command::AllocateCommandBuffers => "vkAllocateCommandBuffers"@,
            Command::CreateSemaphore => "vkCreateSemaphore"@,
            Command::DestroySemaphore => "vkDestroySemaphore"@,
            Command::CreateSwapchainKhr => "vkCreateSwapchainKHR"@,
            Command::DestroySwapchainKhr => "vkDestroySwapchainKHR"@,
            Command::GetSwapchainImagesKhr => "vkGetSwapchainImagesKHR"@,
            Command::CreateImageView => "vkCreateImageView"@,
            Command::DestroyImageView => "vkDestroyImageView"@,
            Command::CreateShaderModule => "vkCreateShaderModule"@,
            Command::DestroyShaderModule => "vkDestroyShaderModule"@,
        }
    }

    /// The level at which the command is resolved.
    pub open spec fn spec_level(self) -> Level {
        match self {
            Command::GetInstanceProcAddr
            | Command::EnumerateInstanceVersion
            | Command::CreateInstance => Level::Global,
            Command::DestroyInstance
            | Command::EnumeratePhysicalDevices
            | Command::CreateXcbSurfaceKhr
            | Command::CreateXlibSurfaceKhr
            | Command::CreateWin32SurfaceKhr
            | Command::DestroySurfaceKhr => Level::Instance,
            Command::GetPhysicalDeviceProperties
            | Command::GetPhysicalDeviceQueueFamilyProperties
            | Command::CreateDevice
            | Command::GetDeviceProcAddr
            | Command::GetPhysicalDeviceSurfaceCapabilitiesKhr
            | Command::GetPhysicalDeviceSurfaceFormatsKhr
            | Command::GetPhysicalDeviceSurfacePresentModesKhr => Level::PhysicalDevice,
            _ => Level::Device,
        }
    }

    /// Whether the command belongs to an extension. An extension command
    /// that does not resolve is absent; a core command that does not resolve
    /// is a failed initialization.
    pub open spec fn spec_is_optional(self) -> bool {
        match self {
            Command::EnumerateInstanceVersion
            | Command::CreateXcbSurfaceKhr
            | Command::CreateXlibSurfaceKhr
            | Command::CreateWin32SurfaceKhr
            | Command::DestroySurfaceKhr
            | Command::GetPhysicalDeviceSurfaceCapabilitiesKhr
            | Command::GetPhysicalDeviceSurfaceFormatsKhr
            | Command::GetPhysicalDeviceSurfacePresentModesKhr
            | Command::CreateSwapchainKhr
            | Command::DestroySwapchainKhr
            | Command::GetSwapchainImagesKhr => true,
            _ => false,
        }
    }

    /// The position of the command among all commands.
    pub open spec fn spec_index(self) -> int {
        match self {
            Command::GetInstanceProcAddr => 0,
            Command::EnumerateInstanceVersion => 1,
            Command::CreateInstance => 2,
            Command::DestroyInstance => 3,
            Command::EnumeratePhysicalDevices => 4,
            Command::CreateXcbSurfaceKhr => 5,
            Command::CreateXlibSurfaceKhr => 6,
            Command::CreateWin32SurfaceKhr => 7,
            Command::DestroySurfaceKhr => 8,
            Command::GetPhysicalDeviceProperties => 9,
            Command::GetPhysicalDeviceQueueFamilyProperties => 10,
            Command::CreateDevice => 11,
            Command::GetDeviceProcAddr => 12,
            Command::GetPhysicalDeviceSurfaceCapabilitiesKhr => 13,
            Command::GetPhysicalDeviceSurfaceFormatsKhr => 14,
            Command::GetPhysicalDeviceSurfacePresentModesKhr => 15,
            Command::DestroyDevice => 16,
            Command::GetDeviceQueue => 17,
            Command::CreateCommandPool => 18,
            Command::DestroyCommandPool => 19,
            Command::AllocateCommandBuffers => 20,
            Command::CreateSemaphore => 21,
            Command::DestroySemaphore => 22,
            Command::CreateSwapchainKhr => 23,
            Command::DestroySwapchainKhr => 24,
            Command::GetSwapchainImagesKhr => 25,
            Command::CreateImageView => 26,
            Command::DestroyImageView => 27,
            Command::CreateShaderModule => 28,
            Command::DestroyShaderModule => 29,
        }
    }

    /// Whether the command is resolved on builds for `platform`. Of the
    /// commands that create a surface, a build resolves those of one
    /// windowing family only.
    pub open spec fn spec_available_on(self, platform: Platform) -> bool {
        match self {
            Command::CreateXcbSurfaceKhr | Command::CreateXlibSurfaceKhr => platform
                == Platform::Unix,
            Command::CreateWin32SurfaceKhr => platform == Platform::Windows,
            _ => true,
        }
    }

    pub fn name(&self) -> (r: &'static str)
        ensures
            r@ == self.spec_name(),
    {
        match self {
            Command::GetInstanceProcAddr => "vkGetInstanceProcAddr",
            Command::EnumerateInstanceVersion => "vkEnumerateInstanceVersion",
            Command::CreateInstance => "vkCreateInstance",
            Command::DestroyInstance => "vkDestroyInstance",
            Command::EnumeratePhysicalDevices => "vkEnumeratePhysicalDevices",
            Command::CreateXcbSurfaceKhr => "vkCreateXcbSurfaceKHR",
            Command::CreateXlibSurfaceKhr => "vkCreateXlibSurfaceKHR",
            Command::CreateWin32SurfaceKhr => "vkCreateWin32SurfaceKHR",
            Command::DestroySurfaceKhr => "vkDestroySurfaceKHR",
            Command::GetPhysicalDeviceProperties => "vkGetPhysicalDeviceProperties",
            Command::GetPhysicalDeviceQueueFamilyProperties => "vkGetPhysicalDeviceQueueFamilyProperties",
            Command::CreateDevice => "vkCreateDevice",
            Command::GetDeviceProcAddr => "vkGetDeviceProcAddr",
            Command::GetPhysicalDeviceSurfaceCapabilitiesKhr => "vkGetPhysicalDeviceSurfaceCapabilitiesKHR",
            Command::GetPhysicalDeviceSurfaceFormatsKhr => "vkGetPhysicalDeviceSurfaceFormatsKHR",
            Command::GetPhysicalDeviceSurfacePresentModesKhr => "vkGetPhysicalDeviceSurfacePresentModesKHR",
            Command::DestroyDevice => "vkDestroyDevice",
            Command::GetDeviceQueue => "vkGetDeviceQueue",
            Command::CreateCommandPool => "vkCreateCommandPool",
            Command::DestroyCommandPool => "vkDestroyCommandPool",
            Command::AllocateCommandBuffers => "vkAllocateCommandBuffers",
            Command::CreateSemaphore => "vkCreateSemaphore",
            Command::DestroySemaphore => "vkDestroySemaphore",
            Command::CreateSwapchainKhr => "vkCreateSwapchainKHR",
            Command::DestroySwapchainKhr => "vkDestroySwapchainKHR",
            Command::GetSwapchainImagesKhr => "vkGetSwapchainImagesKHR",
            Command::CreateImageView => "vkCreateImageView",
            Command::DestroyImageView => "vkDestroyImageView",
            Command::CreateShaderModule => "vkCreateShaderModule",
            Command::DestroyShaderModule => "vkDestroyShaderModule",
        }
    }

    pub fn level(&self) -> (r: Level)
        ensures
            r == self.spec_level(),
    {
        match self {
            Command::GetInstanceProcAddr
            | Command::EnumerateInstanceVersion
            | Command::CreateInstance => Level::Global,
            Command::DestroyInstance
            | Command::EnumeratePhysicalDevices
            | Command::CreateXcbSurfaceKhr
            | Command::CreateXlibSurfaceKhr
            | Command::CreateWin32SurfaceKhr
            | Command::DestroySurfaceKhr => Level::Instance,
            Command::GetPhysicalDeviceProperties
            | Command::GetPhysicalDeviceQueueFamilyProperties
            | Command::CreateDevice
            | Command::GetDeviceProcAddr
            | Command::GetPhysicalDeviceSurfaceCapabilitiesKhr
            | Command::GetPhysicalDeviceSurfaceFormatsKhr
            | Command::GetPhysicalDeviceSurfacePresentModesKhr => Level::PhysicalDevice,
            _ => Level::Device,
        }
    }

    pub fn is_optional(&self) -> (r: bool)
        ensures
            r == self.spec_is_optional(),
    {
        match self {
            Command::EnumerateInstanceVersion
            | Command::CreateXcbSurfaceKhr
            | Command::CreateXlibSurfaceKhr
            | Command::CreateWin32SurfaceKhr
            | Command::DestroySurfaceKhr
            | Command::GetPhysicalDeviceSurfaceCapabilitiesKhr
            | Command::GetPhysicalDeviceSurfaceFormatsKhr
            | Command::GetPhysicalDeviceSurfacePresentModesKhr
            | Command::CreateSwapchainKhr
            | Command::DestroySwapchainKhr
            | Command::GetSwapchainImagesKhr => true,
            _ => false,
        }
    }

    pub fn index(&self) -> (r: usize)
        ensures
            r == self.spec_index(),
            r < COMMAND_COUNT,
    {
        match self {
            Command::GetInstanceProcAddr => 0,
            Command::EnumerateInstanceVersion => 1,
            Command::CreateInstance => 2,
            Command::DestroyInstance => 3,
            Command::EnumeratePhysicalDevices => 4,
            Command::CreateXcbSurfaceKhr => 5,
            Command::CreateXlibSurfaceKhr => 6,
            Command::CreateWin32SurfaceKhr => 7,
            Command::DestroySurfaceKhr => 8,
            Command::GetPhysicalDeviceProperties => 9,
            Command::GetPhysicalDeviceQueueFamilyProperties => 10,
            Command::CreateDevice => 11,
            Command::GetDeviceProcAddr => 12,
            Command::GetPhysicalDeviceSurfaceCapabilitiesKhr => 13,
            Command::GetPhysicalDeviceSurfaceFormatsKhr => 14,
            Command::GetPhysicalDeviceSurfacePresentModesKhr => 15,
            Command::DestroyDevice => 16,
            Command::GetDeviceQueue => 17,
            Command::CreateCommandPool => 18,
            Command::DestroyCommandPool => 19,
            Command::AllocateCommandBuffers => 20,
            Command::CreateSemaphore => 21,
            Command::DestroySemaphore => 22,
            Command::CreateSwapchainKhr => 23,
            Command::DestroySwapchainKhr => 24,
            Command::GetSwapchainImagesKhr => 25,
            Command::CreateImageView => 26,
            Command::DestroyImageView => 27,
            Command::CreateShaderModule => 28,
            Command::DestroyShaderModule => 29,
        }
    }

    pub fn available_on(&self, platform: Platform) -> (r: bool)
        ensures
            r == self.spec_available_on(platform),
    {
        match self {
            Command::CreateXcbSurfaceKhr | Command::CreateXlibSurfaceKhr => match platform {
                Platform::Unix => true,
                Platform::Windows => false,
            },
            Command::CreateWin32SurfaceKhr => match platform {
                Platform::Unix => false,
                Platform::Windows => true,
            },
            _ => true,
        }
    }

    /// No two commands share an index.
    pub proof fn lemma_index_injective(a: Command, b: Command)
        requires
            a.spec_index() == b.spec_index(),
        ensures
            a == b,
    {
    }
}

/// The shorter of two lengths.
pub open spec fn spec_shorter(a: int, b: int) -> int {
    if a <= b {
        a
    } else {
        b
    }
}

/// What the resolver answered for each command it was asked for. A command
/// that was not asked for, or for which the answer was null, is unresolved.
#[derive(Debug)]
pub struct ResolvedCommands {
    addresses: Vec<usize>,
}

impl ResolvedCommands {
    /// The raw answer recorded for `command`, null if there is none.
    pub closed spec fn spec_raw(self, command: Command) -> usize {
        if command.spec_index() < self.addresses@.len() {
            self.addresses@[command.spec_index()]
        } else {
            0
        }
    }

    /// The address `command` resolved to, if it resolved.
    pub open spec fn spec_get(self, command: Command) -> Option<FunctionAddress> {
        FunctionAddress::spec_new(self.spec_raw(command))
    }

    /// Nothing resolved yet.
    pub fn new() -> (r: Self)
        ensures
            forall|c: Command| r.spec_raw(c) == 0,
            forall|c: Command| r.spec_get(c) is None,
    {
        ResolvedCommands { addresses: Vec::new() }
    }

    /// Records what the resolver answered for `command`. A later answer for
    /// the same command replaces the earlier one.
    pub fn record(&mut self, command: Command, raw: usize)
        ensures
            final(self).spec_raw(command) == raw,
            forall|c: Command| c != command ==> final(self).spec_raw(c) == old(self).spec_raw(c),
    {
        let i: usize = command.index();
        while self.addresses.len() <= i
            invariant
                i < COMMAND_COUNT,
                old(self).addresses@.len() <= self.addresses@.len(),
                forall|j: int|
                    0 <= j < old(self).addresses@.len() ==> self.addresses@[j] == old(
                        self,
                    ).addresses@[j],
                forall|j: int|
                    old(self).addresses@.len() <= j < self.addresses@.len()
                        ==> self.addresses@[j] == 0,
            decreases i + 1 - self.addresses@.len(),
        {
            self.addresses.push(0);
        }
        self.addresses.set(i, raw);
        proof {
            assert forall|c: Command| c != command implies final(self).spec_raw(c) == old(
                self,
            ).spec_raw(c) by {
                if c.spec_index() == command.spec_index() {
                    Command::lemma_index_injective(c, command);
                }
            }
        }
    }

    /// What a resolver answered for `command`, when it was asked for
    /// `commands` one after the other and gave `answers` in that order:
    /// the answer to the last question for that command, null if it was not
    /// asked for.
    pub open spec fn spec_answer(commands: Seq<Command>, answers: Seq<usize>, command: Command) -> usize
        decreases commands.len(),
    {
        if commands.len() == 0 || answers.len() == 0 {
            0
        } else if commands.last() == command {
            answers.last()
        } else {
            Self::spec_answer(commands.drop_last(), answers.drop_last(), command)
        }
    }

    /// Records the answers of a resolver that was asked for `commands` one
    /// after the other. Questions without an answer, and answers without a
    /// question, are left out.
    pub fn from_answers(commands: &[Command], answers: &[usize]) -> (r: Self)
        ensures
            forall|c: Command|
                #[trigger] r.spec_raw(c) == Self::spec_answer(
                    commands@.take(spec_shorter(commands@.len() as int, answers@.len() as int)),
                    answers@.take(spec_shorter(commands@.len() as int, answers@.len() as int)),
                    c,
                ),
    {
        let n: usize = if commands.len() <= answers.len() {
            commands.len()
        } else {
            answers.len()
        };
        let mut r = ResolvedCommands::new();
        let mut i: usize = 0;
        while i < n
            invariant
                i <= n,
                n <= commands@.len(),
                n <= answers@.len(),
                forall|c: Command|
                    #[trigger] r.spec_raw(c) == Self::spec_answer(
                        commands@.take(i as int),
                        answers@.take(i as int),
                        c,
                    ),
            decreases n - i,
        {
            r.record(commands[i], answers[i]);
            proof {
                assert(commands@.take(i + 1).drop_last() =~= commands@.take(i as int));
                assert(answers@.take(i + 1).drop_last() =~= answers@.take(i as int));
            }
            i = i + 1;
        }
        r
    }

    /// The address `command` resolved to, `None` if it is unresolved.
    pub fn get(&self, command: Command) -> (r: Option<FunctionAddress>)
        ensures
            r == self.spec_get(command),
            r is None <==> self.spec_raw(command) == 0,
    {
        let i: usize = command.index();
        if i < self.addresses.len() {
            FunctionAddress::new(self.addresses[i])
        } else {
            None
        }
    }
}

} // verus!
