//! The three dispatch tables: one for the top-level context, one for each
//! adapter and one for each logical device.
//!
//! A table is made in one step from what the resolver answered for the
//! commands of its level. An extension command that did not resolve is
//! absent from the table. A core command that did not resolve is fatal:
//! no table exists in which a core command is missing. The context fails
//! to build, and the tables of an adapter and of a logical device are made
//! only from answers in which every core command resolved.

use vstd::prelude::*;
use crate::command::{Command, Level, Platform, ResolvedCommands};
use crate::common::Error;
use crate::handle::{FunctionAddress, Handle};
use crate::native::NativeCall;

verus! {

/// The commands dispatched through the top-level context. Those that take
/// the context itself are absent until the context exists and `load` has
/// taken them in.
#[derive(Debug, Clone, Copy, PartialEq, Eq, Structural)]
pub struct DispatchLoaderInstance {
    pub platform: Platform,
    pub vk_get_instance_proc_addr: FunctionAddress,
    pub vk_enumerate_instance_version: Option<FunctionAddress>,
    pub vk_create_instance: FunctionAddress,
    pub vk_destroy_instance: Option<FunctionAddress>,
    pub vk_enumerate_physical_devices: Option<FunctionAddress>,
    pub vk_create_xcb_surface_khr: Option<FunctionAddress>,
    pub vk_create_xlib_surface_khr: Option<FunctionAddress>,
    pub vk_create_win32_surface_khr: Option<FunctionAddress>,
    pub vk_destroy_surface_khr: Option<FunctionAddress>,
}

/// The commands dispatched through an adapter.
#[derive(Debug, Clone, Copy, PartialEq, Eq, Structural)]
pub struct DispatchLoaderPhysicalDevice {
    pub vk_get_physical_device_properties: FunctionAddress,
    pub vk_get_physical_device_queue_family_properties: FunctionAddress,
    pub vk_create_device: FunctionAddress,
    pub vk_get_device_proc_addr: FunctionAddress,
    pub vk_get_physical_device_surface_capabilities_khr: Option<FunctionAddress>,
    pub vk_get_physical_device_surface_formats_khr: Option<FunctionAddress>,
    pub vk_get_physical_device_surface_present_modes_khr: Option<FunctionAddress>,
}

/// The commands dispatched through a logical device.
#[derive(Debug, Clone, Copy, PartialEq, Eq, Structural)]
pub struct DispatchLoaderDevice {
    pub vk_destroy_device: FunctionAddress,
    pub vk_get_device_queue: FunctionAddress,
    pub vk_create_command_pool: FunctionAddress,
    pub vk_destroy_command_pool: FunctionAddress,
    pub vk_allocate_command_buffers: FunctionAddress,
    pub vk_create_semaphore: FunctionAddress,
    pub vk_destroy_semaphore: FunctionAddress,
    pub vk_create_swapchain_khr: Option<FunctionAddress>,
    pub vk_destroy_swapchain_khr: Option<FunctionAddress>,
    pub vk_get_swapchain_images_khr: Option<FunctionAddress>,
    pub vk_create_image_view: FunctionAddress,
    pub vk_destroy_image_view: FunctionAddress,
    pub vk_create_shader_module: FunctionAddress,
    pub vk_destroy_shader_module: FunctionAddress,
}

/// Whether a core command among `commands` is unresolved in `symbols`.
pub open spec fn core_command_missing(commands: Seq<Command>, symbols: ResolvedCommands) -> bool {
    exists|i: int|
        0 <= i < commands.len() && !(#[trigger] commands[i]).spec_is_optional()
            && symbols.spec_get(commands[i]) is None
}

/// A core command that does not resolve is fatal. Whatever else resolved,
/// the table through which the command is dispatched cannot be made: the
/// command is a core command of that table, and it is missing, which is
/// what the constructors of the tables of an adapter and of a logical
/// device rule out for every caller, and what makes a context fail to
/// build. The bootstrap resolver itself is no entry of `symbols` and is
/// left out.
pub proof fn lemma_core_command_required(
    symbols: ResolvedCommands,
    command: Command,
    platform: Platform,
)
    requires
        command != Command::GetInstanceProcAddr,
        !command.spec_is_optional(),
        symbols.spec_get(command) is None,
    ensures
        match command.spec_level() {
            Level::Global => core_command_missing(
                DispatchLoaderInstance::spec_global_commands(),
                symbols,
            ),
            Level::Instance => core_command_missing(
                DispatchLoaderInstance::spec_instance_commands(platform),
                symbols,
            ),
            Level::PhysicalDevice => core_command_missing(
                DispatchLoaderPhysicalDevice::spec_commands(),
                symbols,
            ),
            Level::Device => core_command_missing(DispatchLoaderDevice::spec_commands(), symbols),
        },
{
    let global = DispatchLoaderInstance::spec_global_commands();
    let instance = DispatchLoaderInstance::spec_instance_commands(platform);
    let adapter = DispatchLoaderPhysicalDevice::spec_commands();
    let device = DispatchLoaderDevice::spec_commands();
    match command {
        Command::CreateInstance => assert(global[1] == command),
        Command::DestroyInstance => assert(instance[0] == command),
        Command::EnumeratePhysicalDevices => assert(instance[1] == command),
        Command::GetPhysicalDeviceProperties => assert(adapter[0] == command),
        Command::GetPhysicalDeviceQueueFamilyProperties => assert(adapter[1] == command),
        Command::CreateDevice => assert(adapter[2] == command),
        Command::GetDeviceProcAddr => assert(adapter[3] == command),
        Command::DestroyDevice => assert(device[0] == command),
        Command::GetDeviceQueue => assert(device[1] == command),
        Command::CreateCommandPool => assert(device[2] == command),
        Command::DestroyCommandPool => assert(device[3] == command),
        Command::AllocateCommandBuffers => assert(device[4] == command),
        Command::CreateSemaphore => assert(device[5] == command),
        Command::DestroySemaphore => assert(device[6] == command),
        Command::CreateImageView => assert(device[10] == command),
        Command::DestroyImageView => assert(device[11] == command),
        Command::CreateShaderModule => assert(device[12] == command),
        Command::DestroyShaderModule => assert(device[13] == command),
        _ => {},
    }
}


/// Tests whether every core command among `commands` is resolved in
/// `symbols`. A table can be made only from answers that pass this test.
pub fn core_commands_resolved(commands: &[Command], symbols: &ResolvedCommands) -> (r: bool)
    ensures
        r == !core_command_missing(commands@, *symbols),
{
    let mut i: usize = 0;
    while i < commands.len()
        invariant
            i <= commands@.len(),
            forall|j: int|
                0 <= j < i ==> (#[trigger] commands@[j]).spec_is_optional() || symbols.spec_get(
                    commands@[j],
                ) is Some,
        decreases commands@.len() - i,
    {
        if !commands[i].is_optional() && symbols.get(commands[i]).is_none() {
            return false;
        }
        i = i + 1;
    }
    true
}

impl DispatchLoaderInstance {
    /// The commands resolved with a null context, before any context exists.
    pub open spec fn spec_global_commands() -> Seq<Command> {
        seq![Command::EnumerateInstanceVersion, Command::CreateInstance]
    }

    /// The commands resolved with the context, on builds for `platform`.
    /// Of the surface-creating commands, only those of the platform's
    /// windowing family are among them.
    pub open spec fn spec_instance_commands(platform: Platform) -> Seq<Command> {
        match platform {
            Platform::Unix => seq![
                Command::DestroyInstance,
                Command::EnumeratePhysicalDevices,
                Command::CreateXcbSurfaceKhr,
                Command::CreateXlibSurfaceKhr,
                Command::DestroySurfaceKhr,
            ],
            Platform::Windows => seq![
                Command::DestroyInstance,
                Command::EnumeratePhysicalDevices,
                Command::CreateWin32SurfaceKhr,
                Command::DestroySurfaceKhr,
            ],
        }
    }

    /// The table's entry for `command`; absent for a command that is not
    /// dispatched through the top-level context.
    pub open spec fn spec_entry(self, command: Command) -> Option<FunctionAddress> {
        match command {
            Command::GetInstanceProcAddr => Some(self.vk_get_instance_proc_addr),
            Command::EnumerateInstanceVersion => self.vk_enumerate_instance_version,
            Command::CreateInstance => Some(self.vk_create_instance),
            Command::DestroyInstance => self.vk_destroy_instance,
            Command::EnumeratePhysicalDevices => self.vk_enumerate_physical_devices,
            Command::CreateXcbSurfaceKhr => self.vk_create_xcb_surface_khr,
            Command::CreateXlibSurfaceKhr => self.vk_create_xlib_surface_khr,
            Command::CreateWin32SurfaceKhr => self.vk_create_win32_surface_khr,
            Command::DestroySurfaceKhr => self.vk_destroy_surface_khr,
            _ => None,
        }
    }

    /// Whether every core command that takes the context is present.
    pub open spec fn spec_loaded(self) -> bool {
        self.vk_destroy_instance is Some && self.vk_enumerate_physical_devices is Some
    }

    pub fn global_commands() -> (r: Vec<Command>)
        ensures
            r@ == Self::spec_global_commands(),
    {
        let mut r: Vec<Command> = Vec::new();
        r.push(Command::EnumerateInstanceVersion);
        r.push(Command::CreateInstance);
        r
    }

    pub fn instance_commands(&self) -> (r: Vec<Command>)
        ensures
            r@ == Self::spec_instance_commands(self.platform),
    {
        let mut r: Vec<Command> = Vec::new();
        r.push(Command::DestroyInstance);
        r.push(Command::EnumeratePhysicalDevices);
        match self.platform {
            Platform::Unix => {
                r.push(Command::CreateXcbSurfaceKhr);
                r.push(Command::CreateXlibSurfaceKhr);
            },
            Platform::Windows => {
                r.push(Command::CreateWin32SurfaceKhr);
            },
        }
        r.push(Command::DestroySurfaceKhr);
        r
    }

    /// The call that asks the instance-level resolver `bootstrap` for
    /// `command`, with the context `instance` or, where there is none yet,
    /// with a null context.
    pub fn resolve_call(bootstrap: FunctionAddress, instance: Option<Handle>, command: Command) -> (r:
        NativeCall<'static>)
        ensures
            r == (NativeCall::GetInstanceProcAddr { pfn: bootstrap, instance, command }),
    {
        NativeCall::GetInstanceProcAddr { pfn: bootstrap, instance, command }
    }

    /// The calls that ask the instance-level resolver for `commands`, one
    /// call for each command, in their order.
    pub open spec fn spec_resolve_calls(
        bootstrap: FunctionAddress,
        instance: Option<Handle>,
        commands: Seq<Command>,
    ) -> Seq<NativeCall<'static>> {
        Seq::new(
            commands.len(),
            |i: int| NativeCall::GetInstanceProcAddr { pfn: bootstrap, instance, command: commands[i] },
        )
    }

    pub fn resolve_calls(bootstrap: FunctionAddress, instance: Option<Handle>, commands: &[Command]) -> (r:
        Vec<NativeCall<'static>>)
        ensures
            r@ == Self::spec_resolve_calls(bootstrap, instance, commands@),
    {
        let mut calls: Vec<NativeCall<'static>> = Vec::new();
        let mut i: usize = 0;
        while i < commands.len()
            invariant
                i <= commands@.len(),
                calls@.len() == i,
                forall|j: int|
                    0 <= j < i ==> #[trigger] calls@[j] == (NativeCall::GetInstanceProcAddr {
                        pfn: bootstrap,
                        instance,
                        command: commands@[j],
                    }),
            decreases commands@.len() - i,
        {
            calls.push(Self::resolve_call(bootstrap, instance, commands[i]));
            i = i + 1;
        }
        assert(calls@ =~= Self::spec_resolve_calls(bootstrap, instance, commands@));
        calls
    }

    /// Makes the table of a context that does not exist yet, from the
    /// resolver `bootstrap` and from what it answered with a null context.
    /// The resolver is kept as it is given: every later resolution through
    /// this table goes to the same address.
    pub fn new(bootstrap: FunctionAddress, platform: Platform, symbols: &ResolvedCommands) -> (r:
        Result<Self, Error>)
        ensures
            r is Err <==> symbols.spec_get(Command::CreateInstance) is None,
            r is Err ==> r == Err::<Self, Error>(Error::InitializationFailed),
            r matches Ok(t) ==> t.platform == platform && t.vk_get_instance_proc_addr == bootstrap
                && Some(t.vk_create_instance) == symbols.spec_get(Command::CreateInstance)
                && t.vk_enumerate_instance_version == symbols.spec_get(
                Command::EnumerateInstanceVersion,
            ) && t.vk_destroy_instance is None && t.vk_enumerate_physical_devices is None
                && t.vk_create_xcb_surface_khr is None && t.vk_create_xlib_surface_khr is None
                && t.vk_create_win32_surface_khr is None && t.vk_destroy_surface_khr is None,
    {
        match symbols.get(Command::CreateInstance) {
            None => Err(Error::InitializationFailed),
            Some(vk_create_instance) => Ok(
                Self {
                    platform,
                    vk_get_instance_proc_addr: bootstrap,
                    vk_enumerate_instance_version: symbols.get(Command::EnumerateInstanceVersion),
                    vk_create_instance,
                    vk_destroy_instance: None,
                    vk_enumerate_physical_devices: None,
                    vk_create_xcb_surface_khr: None,
                    vk_create_xlib_surface_khr: None,
                    vk_create_win32_surface_khr: None,
                    vk_destroy_surface_khr: None,
                },
            ),
        }
    }

    /// Takes in what the resolver answered with the context that now
    /// exists. A surface-creating command of another windowing family stays
    /// absent whatever was answered for it. Where a core command is
    /// unresolved the table is left as it was.
    pub fn load(&mut self, symbols: &ResolvedCommands) -> (r: Result<(), Error>)
        ensures
            r is Err <==> core_command_missing(
                Self::spec_instance_commands(old(self).platform),
                *symbols,
            ),
            r is Err ==> r == Err::<(), Error>(Error::InitializationFailed) && *final(self) == *old(
                self,
            ),
            r is Ok ==> final(self).spec_loaded(),
            r is Ok ==> final(self).platform == old(self).platform
                && final(self).vk_get_instance_proc_addr == old(self).vk_get_instance_proc_addr
                && final(self).vk_enumerate_instance_version == old(
                self,
            ).vk_enumerate_instance_version && final(self).vk_create_instance == old(
                self,
            ).vk_create_instance,
            r is Ok ==> forall|c: Command|
                c.spec_level() == Level::Instance ==> #[trigger] final(self).spec_entry(c) == (if c.spec_available_on(
                    old(self).platform,
                ) {
                    symbols.spec_get(c)
                } else {
                    None
                }),
    {
        let destroy = symbols.get(Command::DestroyInstance);
        let enumerate = symbols.get(Command::EnumeratePhysicalDevices);
        proof {
            let commands = Self::spec_instance_commands(self.platform);
            assert(commands[0] == Command::DestroyInstance);
            assert(commands[1] == Command::EnumeratePhysicalDevices);
            assert(commands[2].spec_is_optional());
            assert(commands[3].spec_is_optional());
            assert(self.platform == Platform::Unix ==> commands[4].spec_is_optional());
        }
        if destroy.is_none() || enumerate.is_none() {
            return Err(Error::InitializationFailed);
        }
        self.vk_destroy_instance = destroy;
        self.vk_enumerate_physical_devices = enumerate;
        match self.platform {
            Platform::Unix => {
                self.vk_create_xcb_surface_khr = symbols.get(Command::CreateXcbSurfaceKhr);
                self.vk_create_xlib_surface_khr = symbols.get(Command::CreateXlibSurfaceKhr);
                self.vk_create_win32_surface_khr = None;
            },
            Platform::Windows => {
                self.vk_create_xcb_surface_khr = None;
                self.vk_create_xlib_surface_khr = None;
                self.vk_create_win32_surface_khr = symbols.get(Command::CreateWin32SurfaceKhr);
            },
        }
        self.vk_destroy_surface_khr = symbols.get(Command::DestroySurfaceKhr);
        Ok(())
    }
}

impl DispatchLoaderPhysicalDevice {
    /// The commands of an adapter, all resolved by the instance-level
    /// resolver.
    pub open spec fn spec_commands() -> Seq<Command> {
        seq![
            Command::GetPhysicalDeviceProperties,
            Command::GetPhysicalDeviceQueueFamilyProperties,
            Command::CreateDevice,
            Command::GetDeviceProcAddr,
            Command::GetPhysicalDeviceSurfaceCapabilitiesKhr,
            Command::GetPhysicalDeviceSurfaceFormatsKhr,
            Command::GetPhysicalDeviceSurfacePresentModesKhr,
        ]
    }

    /// The table's entry for `command`; absent for a command that is not
    /// dispatched through an adapter.
    pub open spec fn spec_entry(self, command: Command) -> Option<FunctionAddress> {
        match command {
            Command::GetPhysicalDeviceProperties => Some(self.vk_get_physical_device_properties),
            Command::GetPhysicalDeviceQueueFamilyProperties => Some(
                self.vk_get_physical_device_queue_family_properties,
            ),
            Command::CreateDevice => Some(self.vk_create_device),
            Command::GetDeviceProcAddr => Some(self.vk_get_device_proc_addr),
            Command::GetPhysicalDeviceSurfaceCapabilitiesKhr => {
                self.vk_get_physical_device_surface_capabilities_khr
            },
            Command::GetPhysicalDeviceSurfaceFormatsKhr => {
                self.vk_get_physical_device_surface_formats_khr
            },
            Command::GetPhysicalDeviceSurfacePresentModesKhr => {
                self.vk_get_physical_device_surface_present_modes_khr
            },
            _ => None,
        }
    }

    /// Whether the table holds, for each command of an adapter, what
    /// `symbols` holds for it.
    pub open spec fn spec_made_from(self, symbols: ResolvedCommands) -> bool {
        forall|c: Command|
            c.spec_level() == Level::PhysicalDevice ==> #[trigger] self.spec_entry(c)
                == symbols.spec_get(c)
    }

    pub fn commands() -> (r: Vec<Command>)
        ensures
            r@ == Self::spec_commands(),
    {
        let mut r: Vec<Command> = Vec::new();
        r.push(Command::GetPhysicalDeviceProperties);
        r.push(Command::GetPhysicalDeviceQueueFamilyProperties);
        r.push(Command::CreateDevice);
        r.push(Command::GetDeviceProcAddr);
        r.push(Command::GetPhysicalDeviceSurfaceCapabilitiesKhr);
        r.push(Command::GetPhysicalDeviceSurfaceFormatsKhr);
        r.push(Command::GetPhysicalDeviceSurfacePresentModesKhr);
        r
    }

    /// Makes the table of an adapter from what the instance-level resolver
    /// answered. Every core command has to be resolved: there is no table
    /// with a core command missing. Only the three surface queries may be
    /// absent.
    pub fn new(symbols: &ResolvedCommands) -> (r: Self)
        requires
            !core_command_missing(Self::spec_commands(), *symbols),
        ensures
            r.spec_made_from(*symbols),
            symbols.spec_get(Command::GetPhysicalDeviceProperties) == Some(
                r.vk_get_physical_device_properties,
            ),
            symbols.spec_get(Command::GetPhysicalDeviceQueueFamilyProperties) == Some(
                r.vk_get_physical_device_queue_family_properties,
            ),
            symbols.spec_get(Command::CreateDevice) == Some(r.vk_create_device),
            symbols.spec_get(Command::GetDeviceProcAddr) == Some(r.vk_get_device_proc_addr),
    {
        proof {
            let commands = Self::spec_commands();
            assert(commands[0] == Command::GetPhysicalDeviceProperties);
            assert(commands[1] == Command::GetPhysicalDeviceQueueFamilyProperties);
            assert(commands[2] == Command::CreateDevice);
            assert(commands[3] == Command::GetDeviceProcAddr);
        }
        Self {
            vk_get_physical_device_properties: symbols.get(
                Command::GetPhysicalDeviceProperties,
            ).unwrap(),
            vk_get_physical_device_queue_family_properties: symbols.get(
                Command::GetPhysicalDeviceQueueFamilyProperties,
            ).unwrap(),
            vk_create_device: symbols.get(Command::CreateDevice).unwrap(),
            vk_get_device_proc_addr: symbols.get(Command::GetDeviceProcAddr).unwrap(),
            vk_get_physical_device_surface_capabilities_khr: symbols.get(
                Command::GetPhysicalDeviceSurfaceCapabilitiesKhr,
            ),
            vk_get_physical_device_surface_formats_khr: symbols.get(
                Command::GetPhysicalDeviceSurfaceFormatsKhr,
            ),
            vk_get_physical_device_surface_present_modes_khr: symbols.get(
                Command::GetPhysicalDeviceSurfacePresentModesKhr,
            ),
        }
    }
}

impl DispatchLoaderDevice {
    /// The commands of a logical device, all resolved by the device-level
    /// resolver.
    pub open spec fn spec_commands() -> Seq<Command> {
        seq![
            Command::DestroyDevice,
            Command::GetDeviceQueue,
            Command::CreateCommandPool,
            Command::DestroyCommandPool,
            Command::AllocateCommandBuffers,
            Command::CreateSemaphore,
            Command::DestroySemaphore,
            Command::CreateSwapchainKhr,
            Command::DestroySwapchainKhr,
            Command::GetSwapchainImagesKhr,
            Command::CreateImageView,
            Command::DestroyImageView,
            Command::CreateShaderModule,
            Command::DestroyShaderModule,
        ]
    }

    /// The table's entry for `command`; absent for a command that is not
    /// dispatched through a logical device.
    pub open spec fn spec_entry(self, command: Command) -> Option<FunctionAddress> {
        match command {
            Command::DestroyDevice => Some(self.vk_destroy_device),
            Command::GetDeviceQueue => Some(self.vk_get_device_queue),
            Command::CreateCommandPool => Some(self.vk_create_command_pool),
            Command::DestroyCommandPool => Some(self.vk_destroy_command_pool),
            Command::AllocateCommandBuffers => Some(self.vk_allocate_command_buffers),
            Command::CreateSemaphore => Some(self.vk_create_semaphore),
            Command::DestroySemaphore => Some(self.vk_destroy_semaphore),
            Command::CreateSwapchainKhr => self.vk_create_swapchain_khr,
            Command::DestroySwapchainKhr => self.vk_destroy_swapchain_khr,
            Command::GetSwapchainImagesKhr => self.vk_get_swapchain_images_khr,
            Command::CreateImageView => Some(self.vk_create_image_view),
            Command::DestroyImageView => Some(self.vk_destroy_image_view),
            Command::CreateShaderModule => Some(self.vk_create_shader_module),
            Command::DestroyShaderModule => Some(self.vk_destroy_shader_module),
            _ => None,
        }
    }

    /// Whether the table holds, for each command of a logical device, what
    /// `symbols` holds for it.
    pub open spec fn spec_made_from(self, symbols: ResolvedCommands) -> bool {
        forall|c: Command|
            c.spec_level() == Level::Device ==> #[trigger] self.spec_entry(c) == symbols.spec_get(c)
    }

    pub fn commands() -> (r: Vec<Command>)
        ensures
            r@ == Self::spec_commands(),
    {
        let mut r: Vec<Command> = Vec::new();
        r.push(Command::DestroyDevice);
        r.push(Command::GetDeviceQueue);
        r.push(Command::CreateCommandPool);
        r.push(Command::DestroyCommandPool);
        r.push(Command::AllocateCommandBuffers);
        r.push(Command::CreateSemaphore);
        r.push(Command::DestroySemaphore);
        r.push(Command::CreateSwapchainKhr);
        r.push(Command::DestroySwapchainKhr);
        r.push(Command::GetSwapchainImagesKhr);
        r.push(Command::CreateImageView);
        r.push(Command::DestroyImageView);
        r.push(Command::CreateShaderModule);
        r.push(Command::DestroyShaderModule);
        r
    }

    /// The call that asks the device-level resolver `vk_get_device_proc_addr`
    /// for `command` of the device `device`.
    pub fn resolve_call(
        vk_get_device_proc_addr: FunctionAddress,
        device: Handle,
        command: Command,
    ) -> (r: NativeCall<'static>)
        ensures
            r == (NativeCall::GetDeviceProcAddr { pfn: vk_get_device_proc_addr, device, command }),
    {
        NativeCall::GetDeviceProcAddr { pfn: vk_get_device_proc_addr, device, command }
    }

    /// The calls that ask the device-level resolver for `commands`, one
    /// call for each command, in their order.
    pub open spec fn spec_resolve_calls(
        vk_get_device_proc_addr: FunctionAddress,
        device: Handle,
        commands: Seq<Command>,
    ) -> Seq<NativeCall<'static>> {
        Seq::new(
            commands.len(),
            |i: int|
                NativeCall::GetDeviceProcAddr {
                    pfn: vk_get_device_proc_addr,
                    device,
                    command: commands[i],
                },
        )
    }

    pub fn resolve_calls(
        vk_get_device_proc_addr: FunctionAddress,
        device: Handle,
        commands: &[Command],
    ) -> (r: Vec<NativeCall<'static>>)
        ensures
            r@ == Self::spec_resolve_calls(vk_get_device_proc_addr, device, commands@),
    {
        let mut calls: Vec<NativeCall<'static>> = Vec::new();
        let mut i: usize = 0;
        while i < commands.len()
            invariant
                i <= commands@.len(),
                calls@.len() == i,
                forall|j: int|
                    0 <= j < i ==> #[trigger] calls@[j] == (NativeCall::GetDeviceProcAddr {
                        pfn: vk_get_device_proc_addr,
                        device,
                        command: commands@[j],
                    }),
            decreases commands@.len() - i,
        {
            calls.push(Self::resolve_call(vk_get_device_proc_addr, device, commands[i]));
            i = i + 1;
        }
        assert(calls@ =~= Self::spec_resolve_calls(vk_get_device_proc_addr, device, commands@));
        calls
    }

    /// Makes the table of a logical device from what the device-level
    /// resolver answered. Every core command has to be resolved: there is
    /// no table with a core command missing. Only the three swap-chain
    /// commands may be absent.
    pub fn new(symbols: &ResolvedCommands) -> (r: Self)
        requires
            !core_command_missing(Self::spec_commands(), *symbols),
        ensures
            r.spec_made_from(*symbols),
    {
        proof {
            let commands = Self::spec_commands();
            assert(commands[0] == Command::DestroyDevice);
            assert(commands[1] == Command::GetDeviceQueue);
            assert(commands[2] == Command::CreateCommandPool);
            assert(commands[3] == Command::DestroyCommandPool);
            assert(commands[4] == Command::AllocateCommandBuffers);
            assert(commands[5] == Command::CreateSemaphore);
            assert(commands[6] == Command::DestroySemaphore);
            assert(commands[10] == Command::CreateImageView);
            assert(commands[11] == Command::DestroyImageView);
            assert(commands[12] == Command::CreateShaderModule);
            assert(commands[13] == Command::DestroyShaderModule);
        }
        Self {
            vk_destroy_device: symbols.get(Command::DestroyDevice).unwrap(),
            vk_get_device_queue: symbols.get(Command::GetDeviceQueue).unwrap(),
            vk_create_command_pool: symbols.get(Command::CreateCommandPool).unwrap(),
            vk_destroy_command_pool: symbols.get(Command::DestroyCommandPool).unwrap(),
            vk_allocate_command_buffers: symbols.get(Command::AllocateCommandBuffers).unwrap(),
            vk_create_semaphore: symbols.get(Command::CreateSemaphore).unwrap(),
            vk_destroy_semaphore: symbols.get(Command::DestroySemaphore).unwrap(),
            vk_create_swapchain_khr: symbols.get(Command::CreateSwapchainKhr),
            vk_destroy_swapchain_khr: symbols.get(Command::DestroySwapchainKhr),
            vk_get_swapchain_images_khr: symbols.get(Command::GetSwapchainImagesKhr),
            vk_create_image_view: symbols.get(Command::CreateImageView).unwrap(),
            vk_destroy_image_view: symbols.get(Command::DestroyImageView).unwrap(),
            vk_create_shader_module: symbols.get(Command::CreateShaderModule).unwrap(),
            vk_destroy_shader_module: symbols.get(Command::DestroyShaderModule).unwrap(),
        }
    }
}

} // verus!
