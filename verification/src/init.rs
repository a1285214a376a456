//! The top-level context: how it is asked for, how the answer is read, and
//! what can be done through it.

use vstd::prelude::*;
use crate::command::{Command, Level, ResolvedCommands};
use crate::common::Error;
use crate::device::PhysicalDevice;
use crate::dispatch::{core_command_missing, DispatchLoaderInstance, DispatchLoaderPhysicalDevice};
use crate::handle::Handle;
use crate::native;
use crate::native::{DestroyCall, NativeCall, StructureType, SurfaceCreateInfo};
use crate::reply::{created, creation_reply_expected, spec_created, spec_item_count};
use crate::common::is_enumeration_code;
use crate::version::ApiVersion;
use crate::window;
use crate::window::WindowHandle;
use crate::wsi::SurfaceKhr;

verus! {

/// What an application says of itself when it asks for a context.
#[derive(Debug, Default, Clone)]
pub struct ApplicationInfo {
    pub application_name: Option<String>,
    pub application_version: ApiVersion,
    pub engine_name: Option<String>,
    pub engine_version: ApiVersion,
    pub api_version: ApiVersion,
}

/// Collects what a context is created with.
#[derive(Debug, Default, Clone, Copy)]
pub struct InstanceBuilder<'a> {
    pub application_info: Option<&'a ApplicationInfo>,
    pub layers: Option<&'a [&'a str]>,
    pub extensions: Option<&'a [&'a str]>,
}

/// The top-level context. Its table holds every core command that takes the
/// context: a context whose table lacks one cannot be made.
#[derive(Debug)]
pub struct Instance {
    handle: Handle,
    dispatch_loader: DispatchLoaderInstance,
}

/// How many names a list holds; none where there is no list.
pub open spec fn spec_name_count(names: Option<&[&str]>) -> int {
    match names {
        Some(list) => list@.len() as int,
        None => 0,
    }
}

impl ApplicationInfo {
    /// The metadata as the native layer reads it.
    pub open spec fn spec_to_native(&self) -> native::ApplicationInfo<'_> {
        native::ApplicationInfo {
            s_type: StructureType::ApplicationInfo,
            application_name: match &self.application_name {
                Some(name) => Some(name),
                None => None,
            },
            application_version: self.application_version.spec_raw(),
            engine_name: match &self.engine_name {
                Some(name) => Some(name),
                None => None,
            },
            engine_version: self.engine_version.spec_raw(),
            api_version: self.api_version.spec_raw(),
        }
    }

    pub fn to_native(&self) -> (r: native::ApplicationInfo<'_>)
        ensures
            r == self.spec_to_native(),
    {
        native::ApplicationInfo {
            s_type: StructureType::ApplicationInfo,
            application_name: match &self.application_name {
                Some(name) => Some(name),
                None => None,
            },
            application_version: self.application_version.raw(),
            engine_name: match &self.engine_name {
                Some(name) => Some(name),
                None => None,
            },
            engine_version: self.engine_version.raw(),
            api_version: self.api_version.raw(),
        }
    }
}

impl<'a> InstanceBuilder<'a> {
    /// A builder that names no application, no layer and no extension.
    pub fn new() -> (r: Self)
        ensures
            r.application_info is None,
            r.layers is None,
            r.extensions is None,
    {
        InstanceBuilder { application_info: None, layers: None, extensions: None }
    }

    pub fn with_application_info(&mut self, application_info: &'a ApplicationInfo) -> (r: &mut Self)
        ensures
            r.application_info == Some(application_info),
            r.layers == old(self).layers,
            r.extensions == old(self).extensions,
            *final(self) == *final(r),
    {
        self.application_info = Some(application_info);
        self
    }

    pub fn with_layers(&mut self, layers: &'a [&'a str]) -> (r: &mut Self)
        ensures
            r.layers == Some(layers),
            r.application_info == old(self).application_info,
            r.extensions == old(self).extensions,
            *final(self) == *final(r),
    {
        self.layers = Some(layers);
        self
    }

    pub fn with_extensions(&mut self, extensions: &'a [&'a str]) -> (r: &mut Self)
        ensures
            r.extensions == Some(extensions),
            r.application_info == old(self).application_info,
            r.layers == old(self).layers,
            *final(self) == *final(r),
    {
        self.extensions = Some(extensions);
        self
    }

    /// Whether the lists of names are short enough for the native layer to
    /// count them.
    pub open spec fn spec_countable(self) -> bool {
        spec_name_count(self.layers) <= u32::MAX && spec_name_count(self.extensions) <= u32::MAX
    }

    /// The record that the context is created with.
    pub open spec fn spec_create_info(self) -> native::InstanceCreateInfo<'a> {
        native::InstanceCreateInfo {
            s_type: StructureType::InstanceCreateInfo,
            flags: 0,
            application_info: match self.application_info {
                Some(info) => Some(info.spec_to_native()),
                None => None,
            },
            enabled_layer_count: spec_name_count(self.layers) as u32,
            enabled_layer_names: self.layers,
            enabled_extension_count: spec_name_count(self.extensions) as u32,
            enabled_extension_names: self.extensions,
        }
    }

    /// Tests whether the lists of names are short enough for the native
    /// layer to count them.
    pub fn countable(&self) -> (r: bool)
        ensures
            r == self.spec_countable(),
    {
        let layers_fit = match self.layers {
            Some(list) => list.len() <= u32::MAX as usize,
            None => true,
        };
        let extensions_fit = match self.extensions {
            Some(list) => list.len() <= u32::MAX as usize,
            None => true,
        };
        layers_fit && extensions_fit
    }

    pub fn create_info(&self) -> (r: native::InstanceCreateInfo<'a>)
        requires
            self.spec_countable(),
        ensures
            r == self.spec_create_info(),
    {
        native::InstanceCreateInfo {
            s_type: StructureType::InstanceCreateInfo,
            flags: 0,
            application_info: match self.application_info {
                Some(info) => Some(info.to_native()),
                None => None,
            },
            enabled_layer_count: match self.layers {
                Some(list) => list.len() as u32,
                None => 0,
            },
            enabled_layer_names: self.layers,
            enabled_extension_count: match self.extensions {
                Some(list) => list.len() as u32,
                None => 0,
            },
            enabled_extension_names: self.extensions,
        }
    }

    /// The one call that creates the context: the create command of
    /// `loader`, with the record made of what was collected.
    pub fn build_call(&self, loader: &DispatchLoaderInstance) -> (r: NativeCall<'a>)
        requires
            self.spec_countable(),
        ensures
            r == (NativeCall::CreateInstance {
                pfn: loader.vk_create_instance,
                info: self.spec_create_info(),
            }),
    {
        NativeCall::CreateInstance { pfn: loader.vk_create_instance, info: self.create_info() }
    }

    /// The calls that follow the answer `(code, raw)` of the create command:
    /// where a context was created, the resolver of `loader` is asked, with
    /// the new context, for every command that takes the context; where
    /// none was, nothing is asked.
    pub open spec fn spec_resolve_calls(loader: DispatchLoaderInstance, code: int, raw: u64) -> Seq<
        NativeCall<'static>,
    > {
        match spec_created(code, raw) {
            Ok(handle) => DispatchLoaderInstance::spec_resolve_calls(
                loader.vk_get_instance_proc_addr,
                Some(handle),
                DispatchLoaderInstance::spec_instance_commands(loader.platform),
            ),
            Err(_) => Seq::empty(),
        }
    }

    pub fn resolve_calls(&self, loader: &DispatchLoaderInstance, code: i32, raw: u64) -> (r: Vec<
        NativeCall<'static>,
    >)
        requires
            creation_reply_expected(code as int, raw),
        ensures
            r@ == Self::spec_resolve_calls(*loader, code as int, raw),
    {
        match created(code, raw) {
            Ok(handle) => {
                let commands = loader.instance_commands();
                DispatchLoaderInstance::resolve_calls(
                    loader.vk_get_instance_proc_addr,
                    Some(handle),
                    commands.as_slice(),
                )
            },
            Err(_) => Vec::new(),
        }
    }

    /// What creating the context came to, given the answer `(code, raw)` of
    /// the create command and, where that was success, what the resolver
    /// `loader` holds answered with the new context.
    pub open spec fn spec_build(
        loader: DispatchLoaderInstance,
        code: int,
        raw: u64,
        symbols: ResolvedCommands,
        r: Result<Instance, Error>,
    ) -> bool {
        match spec_created(code, raw) {
            Err(e) => r == Err::<Instance, Error>(e),
            Ok(handle) => if core_command_missing(
                DispatchLoaderInstance::spec_instance_commands(loader.platform),
                symbols,
            ) {
                r == Err::<Instance, Error>(Error::InitializationFailed)
            } else {
                &&& r matches Ok(instance)
                &&& instance.spec_handle() == handle
                &&& instance.spec_dispatch_loader().spec_loaded()
                &&& instance.spec_dispatch_loader().platform == loader.platform
                &&& instance.spec_dispatch_loader().vk_get_instance_proc_addr
                    == loader.vk_get_instance_proc_addr
                &&& instance.spec_dispatch_loader().vk_create_instance == loader.vk_create_instance
                &&& instance.spec_dispatch_loader().vk_enumerate_instance_version
                    == loader.vk_enumerate_instance_version
                &&& forall|c: Command|
                    c.spec_level() == Level::Instance
                        ==> #[trigger] instance.spec_dispatch_loader().spec_entry(c) == (if c.spec_available_on(
                        loader.platform,
                    ) {
                        symbols.spec_get(c)
                    } else {
                        None
                    })
            },
        }
    }

    /// Reads the answer of the create command. An error code gives its
    /// error. On success the table `loader` takes in `symbols`, which holds
    /// what the resolver answered with the new context; the context exists
    /// only if every core command among them resolved.
    pub fn build(
        &self,
        loader: DispatchLoaderInstance,
        code: i32,
        raw: u64,
        symbols: &ResolvedCommands,
    ) -> (r: Result<Instance, Error>)
        requires
            creation_reply_expected(code as int, raw),
        ensures
            Self::spec_build(loader, code as int, raw, *symbols, r),
    {
        match created(code, raw) {
            Err(e) => Err(e),
            Ok(handle) => {
                let mut dispatch_loader = loader;
                match dispatch_loader.load(symbols) {
                    Err(e) => Err(e),
                    Ok(()) => Ok(Instance { handle, dispatch_loader }),
                }
            },
        }
    }
}

impl Instance {
    #[verifier::type_invariant]
    spec fn loaded(self) -> bool {
        self.dispatch_loader.spec_loaded()
    }

    pub closed spec fn spec_handle(self) -> Handle {
        self.handle
    }

    pub closed spec fn spec_dispatch_loader(self) -> DispatchLoaderInstance {
        self.dispatch_loader
    }

    /// A builder for a context.
    pub fn builder<'a>() -> (r: InstanceBuilder<'a>)
        ensures
            r.application_info is None,
            r.layers is None,
            r.extensions is None,
    {
        InstanceBuilder::new()
    }

    pub fn handle(&self) -> (r: Handle)
        ensures
            r == self.spec_handle(),
    {
        self.handle
    }

    pub fn dispatch_loader(&self) -> (r: DispatchLoaderInstance)
        ensures
            r == self.spec_dispatch_loader(),
            r.spec_loaded(),
    {
        proof {
            use_type_invariant(self);
        }
        self.dispatch_loader
    }

    /// The call that asks the resolver for `command` with this context. It
    /// goes to the resolver that the table was made with.
    pub fn resolve_call(&self, command: Command) -> (r: NativeCall<'static>)
        ensures
            r == (NativeCall::GetInstanceProcAddr {
                pfn: self.spec_dispatch_loader().vk_get_instance_proc_addr,
                instance: Some(self.spec_handle()),
                command,
            }),
    {
        DispatchLoaderInstance::resolve_call(
            self.dispatch_loader.vk_get_instance_proc_addr,
            Some(self.handle),
            command,
        )
    }

    /// The calls that ask this context's resolver for the commands of an
    /// adapter. Adapters have no resolver of their own.
    pub fn adapter_resolve_calls(&self) -> (r: Vec<NativeCall<'static>>)
        ensures
            r@ == DispatchLoaderInstance::spec_resolve_calls(
                self.spec_dispatch_loader().vk_get_instance_proc_addr,
                Some(self.spec_handle()),
                DispatchLoaderPhysicalDevice::spec_commands(),
            ),
    {
        let commands = DispatchLoaderPhysicalDevice::commands();
        DispatchLoaderInstance::resolve_calls(
            self.dispatch_loader.vk_get_instance_proc_addr,
            Some(self.handle),
            commands.as_slice(),
        )
    }

    /// The call that asks for the version of the native layer, if the
    /// command for it resolved.
    pub fn version_call(&self) -> (r: Option<NativeCall<'static>>)
        ensures
            r == (match self.spec_dispatch_loader().vk_enumerate_instance_version {
                Some(pfn) => Some(NativeCall::EnumerateInstanceVersion { pfn }),
                None => None,
            }),
    {
        match self.dispatch_loader.vk_enumerate_instance_version {
            Some(pfn) => Some(NativeCall::EnumerateInstanceVersion { pfn }),
            None => None,
        }
    }

    /// The version the native layer reported as `raw`. There is none where
    /// the command for it did not resolve: the native layer is of the oldest
    /// version then.
    pub fn version(&self, raw: u32) -> (r: Option<ApiVersion>)
        ensures
            r == (match self.spec_dispatch_loader().vk_enumerate_instance_version {
                Some(_) => Some(ApiVersion(raw)),
                None => None,
            }),
    {
        match self.dispatch_loader.vk_enumerate_instance_version {
            Some(_) => Some(ApiVersion::from_raw(raw)),
            None => None,
        }
    }

    /// The call that enumerates the adapters, without a buffer or with one
    /// of `capacity` slots.
    pub fn enumerate_physical_devices_call(&self, capacity: Option<u32>) -> (r: NativeCall<
        'static,
    >)
        ensures
            Some(r.spec_pfn()) == self.spec_dispatch_loader().vk_enumerate_physical_devices,
            r == (NativeCall::EnumeratePhysicalDevices {
                pfn: r.spec_pfn(),
                instance: self.spec_handle(),
                capacity,
            }),
    {
        proof {
            use_type_invariant(self);
        }
        NativeCall::EnumeratePhysicalDevices {
            pfn: self.dispatch_loader.vk_enumerate_physical_devices.unwrap(),
            instance: self.handle,
            capacity,
        }
    }

    /// Whether the first `n` handles of `buffer` are handles of objects.
    pub open spec fn spec_all_objects(buffer: Seq<u64>, n: int) -> bool {
        forall|i: int| 0 <= i < n && i < buffer.len() ==> buffer[i] != 0
    }

    /// Tests whether the first `n` handles of `buffer` are handles of
    /// objects.
    pub fn all_objects(buffer: &[u64], n: usize) -> (r: bool)
        ensures
            r == Self::spec_all_objects(buffer@, n as int),
    {
        let mut i: usize = 0;
        while i < n && i < buffer.len()
            invariant
                forall|j: int| 0 <= j < i ==> buffer@[j] != 0,
                i <= n,
                i <= buffer@.len(),
            decreases buffer@.len() - i,
        {
            if buffer[i] == 0 {
                return false;
            }
            i = i + 1;
        }
        true
    }

    /// What enumerating the adapters came to, given the answer of the call
    /// with a buffer and what the resolver answered for the commands of an
    /// adapter.
    pub open spec fn spec_enumerate_physical_devices(
        &self,
        code: int,
        count: u32,
        buffer: Seq<u64>,
        symbols: ResolvedCommands,
        r: Result<Vec<PhysicalDevice<'_>>, Error>,
    ) -> bool {
        match Error::spec_from_code(code) {
            Some(e) => r == Err::<Vec<PhysicalDevice<'_>>, Error>(e),
            None => {
                &&& r matches Ok(devices)
                &&& devices@.len() == spec_item_count(count, buffer.len() as int)
                &&& forall|i: int|
                    0 <= i < devices@.len() ==> {
                        &&& (#[trigger] devices@[i]).handle == Handle::of(buffer[i])
                        &&& devices@[i].instance == self
                        &&& devices@[i].dispatch_loader.spec_made_from(symbols)
                    }
            },
        }
    }

    /// Reads the answer of the adapter enumeration. An error code gives its
    /// error, whatever the buffer holds. Otherwise the adapters are the
    /// first `count` handles of the buffer, in the buffer's order, and each
    /// gets a table made from `symbols`, which holds what this context's
    /// resolver answered for the commands of an adapter. Every core command
    /// among them has to be resolved: no adapter exists with one missing.
    pub fn enumerate_physical_devices(
        &self,
        code: i32,
        count: u32,
        buffer: &[u64],
        symbols: &ResolvedCommands,
    ) -> (r: Result<Vec<PhysicalDevice<'_>>, Error>)
        requires
            is_enumeration_code(code as int),
            Error::spec_from_code(code as int) is None ==> Self::spec_all_objects(
                buffer@,
                count as int,
            ) && !core_command_missing(DispatchLoaderPhysicalDevice::spec_commands(), *symbols),
        ensures
            self.spec_enumerate_physical_devices(code as int, count, buffer@, *symbols, r),
    {
        match Error::from_code(code) {
            Some(e) => Err(e),
            None => {
                let dispatch_loader = DispatchLoaderPhysicalDevice::new(symbols);
                let n: usize = if (count as usize) < buffer.len() {
                    count as usize
                } else {
                    buffer.len()
                };
                let mut devices: Vec<PhysicalDevice<'_>> = Vec::new();
                let mut i: usize = 0;
                while i < n
                    invariant
                        i <= n,
                        n == spec_item_count(count, buffer@.len() as int),
                        Self::spec_all_objects(buffer@, count as int),
                        devices@.len() == i,
                        forall|j: int|
                            0 <= j < i ==> {
                                &&& (#[trigger] devices@[j]).handle == Handle::of(buffer@[j])
                                &&& devices@[j].instance == self
                                &&& devices@[j].dispatch_loader == dispatch_loader
                            },
                    decreases n - i,
                {
                    let handle = Handle::new(buffer[i]).unwrap();
                    devices.push(PhysicalDevice { handle, dispatch_loader, instance: self });
                    i = i + 1;
                }
                Ok(devices)
            },
        }
    }

    /// The record that creates a surface for `window`, if the window is of
    /// a windowing backend that this library presents to.
    pub open spec fn spec_surface_create_info(window: WindowHandle) -> Option<SurfaceCreateInfo> {
        match window {
            WindowHandle::Xcb { connection, window } => Some(
                SurfaceCreateInfo::Xcb {
                    s_type: StructureType::XcbSurfaceCreateInfoKhr,
                    flags: 0,
                    connection,
                    window,
                },
            ),
            WindowHandle::Xlib { display, window } => Some(
                SurfaceCreateInfo::Xlib {
                    s_type: StructureType::XlibSurfaceCreateInfoKhr,
                    flags: 0,
                    dpy: display,
                    window,
                },
            ),
            WindowHandle::Win32 { hinstance, hwnd } => Some(
                SurfaceCreateInfo::Win32 {
                    s_type: StructureType::Win32SurfaceCreateInfoKhr,
                    flags: 0,
                    hinstance,
                    hwnd,
                },
            ),
            WindowHandle::Unsupported => None,
        }
    }

    /// The call that creates a surface for `window`. There is none where the
    /// window is of no backend that is presented to, or where the create
    /// command of its backend is absent from the table.
    pub open spec fn spec_surface_call(self, window: WindowHandle) -> Option<NativeCall<'static>> {
        match Self::spec_surface_create_info(window) {
            None => None,
            Some(info) => match self.spec_dispatch_loader().spec_entry(
                (NativeCall::CreateSurface {
                    pfn: self.spec_dispatch_loader().vk_create_instance,
                    instance: self.spec_handle(),
                    info,
                }).spec_command(),
            ) {
                None => None,
                Some(pfn) => Some(
                    NativeCall::CreateSurface { pfn, instance: self.spec_handle(), info },
                ),
            },
        }
    }

    pub fn surface_call(&self, window: WindowHandle) -> (r: Option<NativeCall<'static>>)
        ensures
            r == self.spec_surface_call(window),
    {
        match window {
            WindowHandle::Xcb { connection, window } => match self.dispatch_loader.vk_create_xcb_surface_khr {
                None => None,
                Some(pfn) => Some(
                    NativeCall::CreateSurface {
                        pfn,
                        instance: self.handle,
                        info: SurfaceCreateInfo::Xcb {
                            s_type: StructureType::XcbSurfaceCreateInfoKhr,
                            flags: 0,
                            connection,
                            window,
                        },
                    },
                ),
            },
            WindowHandle::Xlib { display, window } => match self.dispatch_loader.vk_create_xlib_surface_khr {
                None => None,
                Some(pfn) => Some(
                    NativeCall::CreateSurface {
                        pfn,
                        instance: self.handle,
                        info: SurfaceCreateInfo::Xlib {
                            s_type: StructureType::XlibSurfaceCreateInfoKhr,
                            flags: 0,
                            dpy: display,
                            window,
                        },
                    },
                ),
            },
            WindowHandle::Win32 { hinstance, hwnd } => match self.dispatch_loader.vk_create_win32_surface_khr {
                None => None,
                Some(pfn) => Some(
                    NativeCall::CreateSurface {
                        pfn,
                        instance: self.handle,
                        info: SurfaceCreateInfo::Win32 {
                            s_type: StructureType::Win32SurfaceCreateInfoKhr,
                            flags: 0,
                            hinstance,
                            hwnd,
                        },
                    },
                ),
            },
            WindowHandle::Unsupported => None,
        }
    }

    /// The call that creates a surface for the window behind `window`, as
    /// `surface_call` gives it for what the raw handle holds.
    pub fn create_surface_khr_call(&self, window: &raw_window_handle::RawWindowHandle) -> (r: Option<
        NativeCall<'static>,
    >)
        ensures
            r == self.spec_surface_call(window::spec_window_handle(*window)),
    {
        self.surface_call(window::window_handle(window))
    }

    /// Reads the answer of a surface-creating command.
    pub fn create_surface_khr(&self, code: i32, raw: u64) -> (r: Result<SurfaceKhr<'_>, Error>)
        requires
            creation_reply_expected(code as int, raw),
        ensures
            match spec_created(code as int, raw) {
                Err(e) => r == Err::<SurfaceKhr<'_>, Error>(e),
                Ok(handle) => r matches Ok(surface) && surface.handle == handle && surface.instance
                    == self,
            },
    {
        match created(code, raw) {
            Err(e) => Err(e),
            Ok(handle) => Ok(SurfaceKhr { handle, instance: self }),
        }
    }

    /// The call that destroys the context.
    pub fn destroy_call(&self) -> (r: DestroyCall)
        ensures
            Some(r.pfn) == self.spec_dispatch_loader().vk_destroy_instance,
            r.command == Command::DestroyInstance,
            r.parent is None,
            r.object == self.spec_handle(),
    {
        proof {
            use_type_invariant(self);
        }
        DestroyCall {
            command: Command::DestroyInstance,
            pfn: self.dispatch_loader.vk_destroy_instance.unwrap(),
            parent: None,
            object: self.handle,
        }
    }
}

/// Gating of surface creation: a context whose table holds no command that
/// creates a surface gives no call for any window. Creating a surface
/// reports that it is unsupported.
pub proof fn lemma_surface_creation_gated(instance: Instance, window: WindowHandle)
    requires
        instance.spec_dispatch_loader().vk_create_xcb_surface_khr is None,
        instance.spec_dispatch_loader().vk_create_xlib_surface_khr is None,
        instance.spec_dispatch_loader().vk_create_win32_surface_khr is None,
    ensures
        instance.spec_surface_call(window) is None,
{
}

} // verus!
