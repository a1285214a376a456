//! Adapters, logical devices and queues.

use vstd::prelude::*;
use vstd::utf8::{decode_utf8, valid_utf8};
use crate::bits::{bit_at, spec_has_bit};
use crate::command::{Command, Level, ResolvedCommands};
use crate::command_buffer::CommandPool;
use crate::common::{is_enumeration_code, is_result_code, Error, SUCCESS};
use crate::dispatch::{core_command_missing, DispatchLoaderDevice, DispatchLoaderPhysicalDevice};
use crate::handle::Handle;
use crate::init::{spec_name_count, Instance};
use crate::native;
use crate::native::{DestroyCall, DeviceQueueCreateInfo, NativeCall, StructureType};
use crate::reply::{created, creation_reply_expected, spec_created, spec_item_count};
use crate::resource::Image;
use crate::shaders::ShaderModule;
use crate::sync::Semaphore;
use crate::version::ApiVersion;
use crate::wsi::{
    PresentModeKhr,
    SurfaceCapabilitiesKhr,
    SurfaceFormatKhr,
    SurfaceKhr,
    SurfaceTransformKhr,
    SwapchainKhr,
};

verus! {

/// An adapter, as the top-level context enumerates it.
#[derive(Debug, Clone, Copy)]
pub struct PhysicalDevice<'a> {
    pub handle: Handle,
    pub dispatch_loader: DispatchLoaderPhysicalDevice,
    pub instance: &'a Instance,
}

/// A logical device, made on an adapter.
#[derive(Debug)]
pub struct Device<'a> {
    pub handle: Handle,
    pub dispatch_loader: DispatchLoaderDevice,
    pub instance: &'a Instance,
}

/// A queue of a logical device.
#[derive(Debug)]
pub struct Queue<'a> {
    pub handle: Handle,
    pub device: &'a Device<'a>,
}

/// What kind of hardware an adapter is.
#[derive(Debug, Clone, Copy, PartialEq, Eq, Structural)]
pub enum PhysicalDeviceType {
    Other,
    IntegratedGpu,
    DiscreteGpu,
    VirtualGpu,
    Cpu,
}

/// What an adapter says of itself.
#[derive(Debug, Clone)]
pub struct PhysicalDeviceProperties {
    pub api_version: ApiVersion,
    pub device_type: PhysicalDeviceType,
    pub device_name: String,
}

/// A family of queues of an adapter: what its queues can do and how many
/// there are.
#[derive(Debug, Clone, Copy, PartialEq, Eq, Structural)]
pub struct QueueFamilyProperties {
    pub queue_flags: u32,
    pub queue_count: u32,
}

/// The text that the lossy UTF-8 decoder of the standard library makes of
/// `bytes`.
pub uninterp spec fn spec_utf8_lossy(bytes: Seq<u8>) -> Seq<char>;

/// `String::from_utf8_lossy` of the standard library, which never fails:
/// bytes that are valid UTF-8 decode to the text they encode, and each
/// invalid sequence among others is replaced by U+FFFD. The contract names
/// the result and states the first of the two.
#[verifier::external_body]
fn utf8_lossy(bytes: &[u8]) -> (r: String)
    ensures
        r@ == spec_utf8_lossy(bytes@),
        valid_utf8(bytes@) ==> r@ == decode_utf8(bytes@),
{
    String::from_utf8_lossy(bytes).into_owned()
}

/// How many bytes of a fixed-size name buffer belong to the name: those
/// before the first NUL, or all of them if there is none.
pub open spec fn spec_name_len(buffer: Seq<u8>) -> int
    decreases buffer.len(),
{
    if buffer.len() == 0 || buffer[0] == 0 {
        0
    } else {
        1 + spec_name_len(buffer.drop_first())
    }
}

/// The number of bytes before the first NUL is within the buffer, no byte
/// before it is NUL, and the byte at it, if there is one, is NUL.
pub proof fn lemma_name_len(buffer: Seq<u8>)
    ensures
        0 <= spec_name_len(buffer) <= buffer.len(),
        forall|i: int| 0 <= i < spec_name_len(buffer) ==> buffer[i] != 0,
        spec_name_len(buffer) < buffer.len() ==> buffer[spec_name_len(buffer)] == 0,
    decreases buffer.len(),
{
    if buffer.len() == 0 || buffer[0] == 0 {
    } else {
        let rest = buffer.drop_first();
        lemma_name_len(rest);
        assert forall|i: int| 0 <= i < spec_name_len(buffer) implies buffer[i] != 0 by {
            if i > 0 {
                assert(buffer[i] == rest[i - 1]);
            }
        }
        if spec_name_len(buffer) < buffer.len() {
            assert(buffer[spec_name_len(buffer)] == rest[spec_name_len(rest)]);
        }
    }
}

/// An index up to which no byte is NUL, with a NUL or the buffer's end at
/// it, is the length of the name.
pub proof fn lemma_name_len_is(buffer: Seq<u8>, n: int)
    requires
        0 <= n <= buffer.len(),
        forall|i: int| 0 <= i < n ==> buffer[i] != 0,
        n < buffer.len() ==> buffer[n] == 0,
    ensures
        spec_name_len(buffer) == n,
    decreases buffer.len(),
{
    if n == 0 {
    } else {
        let rest = buffer.drop_first();
        assert forall|i: int| 0 <= i < n - 1 implies rest[i] != 0 by {
            assert(rest[i] == buffer[i + 1]);
        }
        if n - 1 < rest.len() {
            assert(rest[n - 1] == buffer[n]);
        }
        lemma_name_len_is(rest, n - 1);
    }
}

/// The name that a fixed-size name buffer holds: the bytes before the first
/// NUL, decoded as UTF-8 without ever failing.
pub open spec fn spec_device_name(buffer: Seq<u8>) -> Seq<char> {
    spec_utf8_lossy(buffer.take(spec_name_len(buffer)))
}

/// Reads the name out of a fixed-size name buffer. A name that is valid
/// UTF-8 is read as it is.
pub fn device_name(buffer: &[u8]) -> (r: String)
    ensures
        r@ == spec_device_name(buffer@),
        valid_utf8(buffer@.take(spec_name_len(buffer@))) ==> r@ == decode_utf8(
            buffer@.take(spec_name_len(buffer@)),
        ),
{
    let mut n: usize = 0;
    while n < buffer.len() && buffer[n] != 0
        invariant
            n <= buffer@.len(),
            forall|i: int| 0 <= i < n ==> buffer@[i] != 0,
        decreases buffer@.len() - n,
    {
        n = n + 1;
    }
    proof {
        lemma_name_len_is(buffer@, n as int);
    }
    let mut name: Vec<u8> = Vec::new();
    let mut i: usize = 0;
    while i < n
        invariant
            i <= n <= buffer@.len(),
            name@ == buffer@.take(i as int),
        decreases n - i,
    {
        name.push(buffer[i]);
        assert(buffer@.take(i as int).push(buffer@[i as int]) =~= buffer@.take(i + 1));
        i = i + 1;
    }
    utf8_lossy(name.as_slice())
}

impl PhysicalDeviceType {
    /// The integer the native layer writes for this kind.
    pub open spec fn spec_raw(self) -> i32 {
        match self {
            PhysicalDeviceType::Other => 0,
            PhysicalDeviceType::IntegratedGpu => 1,
            PhysicalDeviceType::DiscreteGpu => 2,
            PhysicalDeviceType::VirtualGpu => 3,
            PhysicalDeviceType::Cpu => 4,
        }
    }

    /// The kind that the native layer writes as `raw`, if there is one.
    pub open spec fn spec_from_raw(raw: i32) -> Option<PhysicalDeviceType> {
        match raw {
            0 => Some(PhysicalDeviceType::Other),
            1 => Some(PhysicalDeviceType::IntegratedGpu),
            2 => Some(PhysicalDeviceType::DiscreteGpu),
            3 => Some(PhysicalDeviceType::VirtualGpu),
            4 => Some(PhysicalDeviceType::Cpu),
            _ => None,
        }
    }

    pub fn raw(&self) -> (r: i32)
        ensures
            r == self.spec_raw(),
    {
        match self {
            PhysicalDeviceType::Other => 0,
            PhysicalDeviceType::IntegratedGpu => 1,
            PhysicalDeviceType::DiscreteGpu => 2,
            PhysicalDeviceType::VirtualGpu => 3,
            PhysicalDeviceType::Cpu => 4,
        }
    }

    /// Reads the kind of an adapter. `None` is returned for an integer that
    /// stands for none.
    pub fn from_raw(raw: i32) -> (r: Option<PhysicalDeviceType>)
        ensures
            r == PhysicalDeviceType::spec_from_raw(raw),
    {
        match raw {
            0 => Some(PhysicalDeviceType::Other),
            1 => Some(PhysicalDeviceType::IntegratedGpu),
            2 => Some(PhysicalDeviceType::DiscreteGpu),
            3 => Some(PhysicalDeviceType::VirtualGpu),
            4 => Some(PhysicalDeviceType::Cpu),
            _ => None,
        }
    }

    /// Reading the integer of a kind gives that kind back.
    pub proof fn lemma_raw_round_trip(v: PhysicalDeviceType)
        ensures
            PhysicalDeviceType::spec_from_raw(v.spec_raw()) == Some(v),
    {
    }
}

impl QueueFamilyProperties {
    pub fn supports_graphics(&self) -> (r: bool)
        ensures
            r == spec_has_bit(self.queue_flags, 0),
    {
        self.queue_flags & bit_at(0) != 0
    }

    pub fn supports_compute(&self) -> (r: bool)
        ensures
            r == spec_has_bit(self.queue_flags, 1),
    {
        self.queue_flags & bit_at(1) != 0
    }

    pub fn supports_transfer(&self) -> (r: bool)
        ensures
            r == spec_has_bit(self.queue_flags, 2),
    {
        self.queue_flags & bit_at(2) != 0
    }

    pub fn supports_sparse_binding(&self) -> (r: bool)
        ensures
            r == spec_has_bit(self.queue_flags, 3),
    {
        self.queue_flags & bit_at(3) != 0
    }
}

/// How many queue families are asked for, when indices and priority lists
/// are paired up one to one: as many as the shorter of the two holds.
pub open spec fn spec_queue_family_count(indices: Seq<usize>, priorities: Seq<&[u32]>) -> int {
    if indices.len() <= priorities.len() {
        indices.len() as int
    } else {
        priorities.len() as int
    }
}

/// Whether the queues asked for can be written into native records: every
/// index, every number of queues and the number of families fit 32 bits.
pub open spec fn spec_queues_fit(indices: Seq<usize>, priorities: Seq<&[u32]>) -> bool {
    &&& spec_queue_family_count(indices, priorities) <= u32::MAX
    &&& forall|i: int|
        0 <= i < spec_queue_family_count(indices, priorities) ==> indices[i] <= u32::MAX && (
        #[trigger] priorities[i])@.len() <= u32::MAX
}

/// The record for the queues of the `i`-th family asked for.
pub open spec fn spec_queue_create_info<'b>(
    indices: Seq<usize>,
    priorities: Seq<&'b [u32]>,
    i: int,
) -> DeviceQueueCreateInfo<'b> {
    DeviceQueueCreateInfo {
        s_type: StructureType::DeviceQueueCreateInfo,
        flags: 0,
        queue_family_index: indices[i] as u32,
        queue_count: priorities[i]@.len() as u32,
        queue_priorities: priorities[i],
    }
}

/// Tests whether the queues asked for can be written into native records.
pub fn queues_fit(indices: &[usize], priorities: &[&[u32]]) -> (r: bool)
    ensures
        r == spec_queues_fit(indices@, priorities@),
{
    let n: usize = if indices.len() <= priorities.len() {
        indices.len()
    } else {
        priorities.len()
    };
    if n > u32::MAX as usize {
        return false;
    }
    let mut i: usize = 0;
    while i < n
        invariant
            i <= n,
            n == spec_queue_family_count(indices@, priorities@),
            forall|j: int|
                0 <= j < i ==> indices@[j] <= u32::MAX && (#[trigger] priorities@[j])@.len()
                    <= u32::MAX,
        decreases n - i,
    {
        let index: usize = indices[i];
        let list: &[u32] = priorities[i];
        if index > u32::MAX as usize || list.len() > u32::MAX as usize {
            proof {
                let k = i as int;
                assert(0 <= k < spec_queue_family_count(indices@, priorities@));
                assert(!(indices@[k] <= u32::MAX && (#[trigger] priorities@[k])@.len() <= u32::MAX));
            }
            return false;
        }
        i = i + 1;
    }
    true
}

impl<'a> PhysicalDevice<'a> {
    /// The call that queries what the adapter says of itself.
    pub fn properties_call(&self) -> (r: NativeCall<'static>)
        ensures
            r == (NativeCall::GetPhysicalDeviceProperties {
                pfn: self.dispatch_loader.vk_get_physical_device_properties,
                physical_device: self.handle,
            }),
    {
        NativeCall::GetPhysicalDeviceProperties {
            pfn: self.dispatch_loader.vk_get_physical_device_properties,
            physical_device: self.handle,
        }
    }

    /// Reads what the adapter says of itself: the version as it is, the
    /// kind of hardware, and the name out of its fixed-size buffer.
    pub fn properties(&self, api_version: u32, device_type: i32, device_name_buffer: &[u8]) -> (r:
        PhysicalDeviceProperties)
        requires
            PhysicalDeviceType::spec_from_raw(device_type) is Some,
        ensures
            r.api_version == ApiVersion(api_version),
            Some(r.device_type) == PhysicalDeviceType::spec_from_raw(device_type),
            r.device_name@ == spec_device_name(device_name_buffer@),
            valid_utf8(device_name_buffer@.take(spec_name_len(device_name_buffer@)))
                ==> r.device_name@ == decode_utf8(
                device_name_buffer@.take(spec_name_len(device_name_buffer@)),
            ),
    {
        PhysicalDeviceProperties {
            api_version: ApiVersion::from_raw(api_version),
            device_type: PhysicalDeviceType::from_raw(device_type).unwrap(),
            device_name: device_name(device_name_buffer),
        }
    }

    /// The call that enumerates the queue families, without a buffer or
    /// with one of `capacity` slots.
    pub fn queue_family_properties_call(&self, capacity: Option<u32>) -> (r: NativeCall<'static>)
        ensures
            r == (NativeCall::GetPhysicalDeviceQueueFamilyProperties {
                pfn: self.dispatch_loader.vk_get_physical_device_queue_family_properties,
                physical_device: self.handle,
                capacity,
            }),
    {
        NativeCall::GetPhysicalDeviceQueueFamilyProperties {
            pfn: self.dispatch_loader.vk_get_physical_device_queue_family_properties,
            physical_device: self.handle,
            capacity,
        }
    }

    /// Reads the answer of the queue family enumeration, which cannot fail:
    /// the families are the first `count` entries of the buffer.
    pub fn queue_family_properties(&self, count: u32, buffer: Vec<QueueFamilyProperties>) -> (r:
        Vec<QueueFamilyProperties>)
        ensures
            r@ == buffer@.take(spec_item_count(count, buffer@.len() as int)),
    {
        let mut families = buffer;
        if (count as usize) < families.len() {
            families.truncate(count as usize);
        }
        assert(families@ =~= buffer@.take(spec_item_count(count, buffer@.len() as int)));
        families
    }

    /// The one call that creates a logical device. Queue family indices and
    /// priority lists are paired up one to one; a priority is handed over
    /// as the bits of its native floating-point value. No layer is enabled.
    pub fn create_device_call<'b>(
        &self,
        queue_family_indices: &[usize],
        priorities: &'b [&'b [u32]],
        extensions: Option<&'b [&'b str]>,
    ) -> (r: NativeCall<'b>)
        requires
            spec_queues_fit(queue_family_indices@, priorities@),
            spec_name_count(extensions) <= u32::MAX,
        ensures
            r matches NativeCall::CreateDevice { pfn, physical_device, info } && {
                &&& pfn == self.dispatch_loader.vk_create_device
                &&& physical_device == self.handle
                &&& info.s_type == StructureType::DeviceCreateInfo
                &&& info.flags == 0
                &&& info.queue_create_infos@.len() == spec_queue_family_count(
                    queue_family_indices@,
                    priorities@,
                )
                &&& forall|i: int|
                    0 <= i < info.queue_create_infos@.len() ==> #[trigger] info.queue_create_infos@[i]
                        == spec_queue_create_info(queue_family_indices@, priorities@, i)
                &&& info.enabled_layer_count == 0
                &&& info.enabled_extension_count == spec_name_count(extensions)
                &&& info.enabled_extension_names == extensions
            },
    {
        let n: usize = if queue_family_indices.len() <= priorities.len() {
            queue_family_indices.len()
        } else {
            priorities.len()
        };
        let mut queue_create_infos: Vec<DeviceQueueCreateInfo<'b>> = Vec::new();
        let mut i: usize = 0;
        while i < n
            invariant
                i <= n,
                n == spec_queue_family_count(queue_family_indices@, priorities@),
                spec_queues_fit(queue_family_indices@, priorities@),
                queue_create_infos@.len() == i,
                forall|j: int|
                    0 <= j < i ==> #[trigger] queue_create_infos@[j] == spec_queue_create_info(
                        queue_family_indices@,
                        priorities@,
                        j,
                    ),
            decreases n - i,
        {
            let list: &'b [u32] = priorities[i];
            assert(priorities@[i as int]@.len() <= u32::MAX);
            queue_create_infos.push(
                DeviceQueueCreateInfo {
                    s_type: StructureType::DeviceQueueCreateInfo,
                    flags: 0,
                    queue_family_index: queue_family_indices[i] as u32,
                    queue_count: list.len() as u32,
                    queue_priorities: list,
                },
            );
            i = i + 1;
        }
        NativeCall::CreateDevice {
            pfn: self.dispatch_loader.vk_create_device,
            physical_device: self.handle,
            info: native::DeviceCreateInfo {
                s_type: StructureType::DeviceCreateInfo,
                flags: 0,
                queue_create_infos,
                enabled_layer_count: 0,
                enabled_extension_count: match extensions {
                    Some(list) => list.len() as u32,
                    None => 0,
                },
                enabled_extension_names: extensions,
            },
        }
    }

    /// The call that asks the device-level resolver for `command` of the
    /// device `device`. It goes to the resolver of this adapter's table,
    /// never to the instance-level one.
    pub fn device_resolve_call(&self, device: Handle, command: Command) -> (r: NativeCall<'static>)
        ensures
            r == (NativeCall::GetDeviceProcAddr {
                pfn: self.dispatch_loader.vk_get_device_proc_addr,
                device,
                command,
            }),
    {
        DispatchLoaderDevice::resolve_call(
            self.dispatch_loader.vk_get_device_proc_addr,
            device,
            command,
        )
    }

    /// The calls that follow the answer `(code, raw)` of the create command:
    /// where a device was created, the device-level resolver of this
    /// adapter's table is asked, with the new device, for every command of
    /// a logical device; where none was, nothing is asked. The
    /// instance-level resolver is never asked for them.
    pub open spec fn spec_device_resolve_calls(&self, code: int, raw: u64) -> Seq<
        NativeCall<'static>,
    > {
        match spec_created(code, raw) {
            Ok(handle) => DispatchLoaderDevice::spec_resolve_calls(
                self.dispatch_loader.vk_get_device_proc_addr,
                handle,
                DispatchLoaderDevice::spec_commands(),
            ),
            Err(_) => Seq::empty(),
        }
    }

    pub fn device_resolve_calls(&self, code: i32, raw: u64) -> (r: Vec<NativeCall<'static>>)
        requires
            creation_reply_expected(code as int, raw),
        ensures
            r@ == self.spec_device_resolve_calls(code as int, raw),
    {
        match created(code, raw) {
            Ok(handle) => {
                let commands = DispatchLoaderDevice::commands();
                DispatchLoaderDevice::resolve_calls(
                    self.dispatch_loader.vk_get_device_proc_addr,
                    handle,
                    commands.as_slice(),
                )
            },
            Err(_) => Vec::new(),
        }
    }

    /// What creating a logical device came to, given the answer
    /// `(code, raw)` of the create command and, where that was success, what
    /// the device-level resolver answered for the new device.
    pub open spec fn spec_create_device(
        &self,
        code: int,
        raw: u64,
        symbols: ResolvedCommands,
        r: Result<Device<'a>, Error>,
    ) -> bool {
        match spec_created(code, raw) {
            Err(e) => r == Err::<Device<'a>, Error>(e),
            Ok(handle) => {
                &&& r matches Ok(device)
                &&& device.handle == handle
                &&& device.instance == self.instance
                &&& device.dispatch_loader.spec_made_from(symbols)
            },
        }
    }

    /// Reads the answer of the create command. An error code gives its
    /// error. On success the device gets a table made from `symbols`, which
    /// holds what the device-level resolver answered for the new device.
    /// Every core command among them has to be resolved: no device exists
    /// with one missing.
    pub fn create_device(&self, code: i32, raw: u64, symbols: &ResolvedCommands) -> (r: Result<
        Device<'a>,
        Error,
    >)
        requires
            creation_reply_expected(code as int, raw),
            spec_created(code as int, raw) is Ok ==> !core_command_missing(
                DispatchLoaderDevice::spec_commands(),
                *symbols,
            ),
        ensures
            self.spec_create_device(code as int, raw, *symbols, r),
    {
        match created(code, raw) {
            Err(e) => Err(e),
            Ok(handle) => {
                let dispatch_loader = DispatchLoaderDevice::new(symbols);
                Ok(Device { handle, dispatch_loader, instance: self.instance })
            },
        }
    }

    /// The call that enumerates the formats of the surface `surface`; none
    /// where the command is absent.
    pub open spec fn spec_get_surface_formats_khr_call(
        &self,
        surface: Handle,
        capacity: Option<u32>,
    ) -> Option<NativeCall<'static>> {
        match self.dispatch_loader.vk_get_physical_device_surface_formats_khr {
            Some(pfn) => Some(
                NativeCall::GetPhysicalDeviceSurfaceFormats {
                    pfn,
                    physical_device: self.handle,
                    surface,
                    capacity,
                },
            ),
            None => None,
        }
    }

    /// The call that queries what the surface `surface` can do; none where
    /// the command is absent.
    pub open spec fn spec_get_surface_capabilities_khr_call(&self, surface: Handle) -> Option<
        NativeCall<'static>,
    > {
        match self.dispatch_loader.vk_get_physical_device_surface_capabilities_khr {
            Some(pfn) => Some(
                NativeCall::GetPhysicalDeviceSurfaceCapabilities {
                    pfn,
                    physical_device: self.handle,
                    surface,
                },
            ),
            None => None,
        }
    }

    /// The call that enumerates the present modes of the surface `surface`;
    /// none where the command is absent.
    pub open spec fn spec_get_surface_present_modes_khr_call(
        &self,
        surface: Handle,
        capacity: Option<u32>,
    ) -> Option<NativeCall<'static>> {
        match self.dispatch_loader.vk_get_physical_device_surface_present_modes_khr {
            Some(pfn) => Some(
                NativeCall::GetPhysicalDeviceSurfacePresentModes {
                    pfn,
                    physical_device: self.handle,
                    surface,
                    capacity,
                },
            ),
            None => None,
        }
    }

    /// The call that enumerates the formats of `surface`, without a buffer
    /// or with one of `capacity` slots. There is none where the command is
    /// absent.
    pub fn get_surface_formats_khr_call(&self, surface: &SurfaceKhr, capacity: Option<u32>) -> (r:
        Option<NativeCall<'static>>)
        ensures
            r == self.spec_get_surface_formats_khr_call(surface.handle, capacity),
    {
        match self.dispatch_loader.vk_get_physical_device_surface_formats_khr {
            Some(pfn) => Some(
                NativeCall::GetPhysicalDeviceSurfaceFormats {
                    pfn,
                    physical_device: self.handle,
                    surface: surface.handle,
                    capacity,
                },
            ),
            None => None,
        }
    }

    /// Reads the answer of the format enumeration: of the first `count`
    /// entries of the buffer, those that are known, in the buffer's order.
    /// Nothing is read where the command is absent.
    pub fn get_surface_formats_khr(
        &self,
        code: i32,
        count: u32,
        buffer: &[native::SurfaceFormatKhr],
    ) -> (r: Option<Result<Vec<SurfaceFormatKhr>, Error>>)
        requires
            is_enumeration_code(code as int),
        ensures
            r is None <==> self.dispatch_loader.vk_get_physical_device_surface_formats_khr is None,
            r matches Some(answer) ==> match Error::spec_from_code(code as int) {
                Some(e) => answer == Err::<Vec<SurfaceFormatKhr>, Error>(e),
                None => answer matches Ok(formats) && formats@ == SurfaceFormatKhr::spec_read_all(
                    buffer@.take(spec_item_count(count, buffer@.len() as int)),
                ),
            },
    {
        if self.dispatch_loader.vk_get_physical_device_surface_formats_khr.is_none() {
            return None;
        }
        match Error::from_code(code) {
            Some(e) => Some(Err(e)),
            None => Some(Ok(SurfaceFormatKhr::read_all(buffer, count))),
        }
    }

    /// The call that queries what `surface` can do on this adapter. There
    /// is none where the command is absent.
    pub fn get_surface_capabilities_khr_call(&self, surface: &SurfaceKhr) -> (r: Option<
        NativeCall<'static>,
    >)
        ensures
            r == self.spec_get_surface_capabilities_khr_call(surface.handle),
    {
        match self.dispatch_loader.vk_get_physical_device_surface_capabilities_khr {
            Some(pfn) => Some(
                NativeCall::GetPhysicalDeviceSurfaceCapabilities {
                    pfn,
                    physical_device: self.handle,
                    surface: surface.handle,
                },
            ),
            None => None,
        }
    }

    /// Reads the answer of the capabilities query. Nothing is read where
    /// the command is absent.
    pub fn get_surface_capabilities_khr(&self, code: i32, raw: &native::SurfaceCapabilitiesKhr) -> (r:
        Option<Result<SurfaceCapabilitiesKhr, Error>>)
        requires
            is_result_code(code as int),
            code == SUCCESS ==> SurfaceTransformKhr::spec_from_bit(raw.current_transform) is Some,
        ensures
            r is None <==> self.dispatch_loader.vk_get_physical_device_surface_capabilities_khr
                is None,
            r matches Some(answer) ==> match Error::spec_from_code(code as int) {
                Some(e) => answer == Err::<SurfaceCapabilitiesKhr, Error>(e),
                None => answer matches Ok(capabilities) && capabilities.spec_reads(*raw),
            },
    {
        if self.dispatch_loader.vk_get_physical_device_surface_capabilities_khr.is_none() {
            return None;
        }
        match Error::from_code(code) {
            Some(e) => Some(Err(e)),
            None => {
                assert(code == SUCCESS);
                Some(Ok(SurfaceCapabilitiesKhr::from_native(raw).unwrap()))
            },
        }
    }

    /// The call that enumerates the present modes of `surface`, without a
    /// buffer or with one of `capacity` slots. There is none where the
    /// command is absent.
    pub fn get_surface_present_modes_khr_call(
        &self,
        surface: &SurfaceKhr,
        capacity: Option<u32>,
    ) -> (r: Option<NativeCall<'static>>)
        ensures
            r == self.spec_get_surface_present_modes_khr_call(surface.handle, capacity),
    {
        match self.dispatch_loader.vk_get_physical_device_surface_present_modes_khr {
            Some(pfn) => Some(
                NativeCall::GetPhysicalDeviceSurfacePresentModes {
                    pfn,
                    physical_device: self.handle,
                    surface: surface.handle,
                    capacity,
                },
            ),
            None => None,
        }
    }

    /// Reads the answer of the present mode enumeration: of the first
    /// `count` entries of the buffer, those that are known, in the buffer's
    /// order. Nothing is read where the command is absent.
    pub fn get_surface_present_modes_khr(&self, code: i32, count: u32, buffer: &[i32]) -> (r:
        Option<Result<Vec<PresentModeKhr>, Error>>)
        requires
            is_enumeration_code(code as int),
        ensures
            r is None <==> self.dispatch_loader.vk_get_physical_device_surface_present_modes_khr
                is None,
            r matches Some(answer) ==> match Error::spec_from_code(code as int) {
                Some(e) => answer == Err::<Vec<PresentModeKhr>, Error>(e),
                None => answer matches Ok(modes) && modes@ == PresentModeKhr::spec_read_all(
                    buffer@.take(spec_item_count(count, buffer@.len() as int)),
                ),
            },
    {
        if self.dispatch_loader.vk_get_physical_device_surface_present_modes_khr.is_none() {
            return None;
        }
        match Error::from_code(code) {
            Some(e) => Some(Err(e)),
            None => Some(Ok(PresentModeKhr::read_all(buffer, count))),
        }
    }
}

impl<'a> Device<'a> {
    /// The call that retrieves a queue.
    pub fn get_queue_call(&self, queue_family_index: usize, queue_index: usize) -> (r: NativeCall<
        'static,
    >)
        requires
            queue_family_index <= u32::MAX,
            queue_index <= u32::MAX,
        ensures
            r == (NativeCall::GetDeviceQueue {
                pfn: self.dispatch_loader.vk_get_device_queue,
                device: self.handle,
                queue_family_index: queue_family_index as u32,
                queue_index: queue_index as u32,
            }),
    {
        NativeCall::GetDeviceQueue {
            pfn: self.dispatch_loader.vk_get_device_queue,
            device: self.handle,
            queue_family_index: queue_family_index as u32,
            queue_index: queue_index as u32,
        }
    }

    /// Reads the answer of the queue retrieval. A null handle is no error:
    /// there is no queue of that family and index.
    pub fn get_queue(&self, raw: u64) -> (r: Option<Queue<'_>>)
        ensures
            r is None <==> raw == 0,
            r matches Some(queue) ==> queue.handle == Handle::of(raw) && queue.device == self,
    {
        match Handle::new(raw) {
            Some(handle) => Some(Queue { handle, device: self }),
            None => None,
        }
    }

    /// The call that creates a command pool for a queue family.
    pub fn create_command_pool_call(&self, queue_family_index: usize) -> (r: NativeCall<'static>)
        requires
            queue_family_index <= u32::MAX,
        ensures
            r == (NativeCall::CreateCommandPool {
                pfn: self.dispatch_loader.vk_create_command_pool,
                device: self.handle,
                info: native::CommandPoolCreateInfo {
                    s_type: StructureType::CommandPoolCreateInfo,
                    flags: 0,
                    queue_family_index: queue_family_index as u32,
                },
            }),
    {
        NativeCall::CreateCommandPool {
            pfn: self.dispatch_loader.vk_create_command_pool,
            device: self.handle,
            info: native::CommandPoolCreateInfo {
                s_type: StructureType::CommandPoolCreateInfo,
                flags: 0,
                queue_family_index: queue_family_index as u32,
            },
        }
    }

    /// Reads the answer of the command pool creation.
    pub fn create_command_pool(&self, code: i32, raw: u64) -> (r: Result<CommandPool<'_>, Error>)
        requires
            creation_reply_expected(code as int, raw),
        ensures
            match spec_created(code as int, raw) {
                Err(e) => r == Err::<CommandPool<'_>, Error>(e),
                Ok(handle) => r matches Ok(pool) && pool.handle == handle && pool.device == self,
            },
    {
        match created(code, raw) {
            Err(e) => Err(e),
            Ok(handle) => Ok(CommandPool { handle, device: self }),
        }
    }

    /// The call that creates a semaphore.
    pub fn create_semaphore_call(&self) -> (r: NativeCall<'static>)
        ensures
            r == (NativeCall::CreateSemaphore {
                pfn: self.dispatch_loader.vk_create_semaphore,
                device: self.handle,
                info: native::SemaphoreCreateInfo {
                    s_type: StructureType::SemaphoreCreateInfo,
                    flags: 0,
                },
            }),
    {
        NativeCall::CreateSemaphore {
            pfn: self.dispatch_loader.vk_create_semaphore,
            device: self.handle,
            info: native::SemaphoreCreateInfo {
                s_type: StructureType::SemaphoreCreateInfo,
                flags: 0,
            },
        }
    }

    /// Reads the answer of the semaphore creation.
    pub fn create_semaphore(&self, code: i32, raw: u64) -> (r: Result<Semaphore<'_>, Error>)
        requires
            creation_reply_expected(code as int, raw),
        ensures
            match spec_created(code as int, raw) {
                Err(e) => r == Err::<Semaphore<'_>, Error>(e),
                Ok(handle) => r matches Ok(semaphore) && semaphore.handle == handle
                    && semaphore.device == self,
            },
    {
        match created(code, raw) {
            Err(e) => Err(e),
            Ok(handle) => Ok(Semaphore { handle, device: self }),
        }
    }

    /// The call that enumerates the images of the swap-chain `swapchain`;
    /// none where the command is absent.
    pub open spec fn spec_get_swapchain_images_khr_call(
        &self,
        swapchain: Handle,
        capacity: Option<u32>,
    ) -> Option<NativeCall<'static>> {
        match self.dispatch_loader.vk_get_swapchain_images_khr {
            Some(pfn) => Some(
                NativeCall::GetSwapchainImages { pfn, device: self.handle, swapchain, capacity },
            ),
            None => None,
        }
    }

    /// The call that enumerates the images of `swapchain`, without a buffer
    /// or with one of `capacity` slots. There is none where the command is
    /// absent.
    pub fn get_swapchain_images_khr_call(&self, swapchain: &SwapchainKhr, capacity: Option<u32>) -> (r:
        Option<NativeCall<'static>>)
        ensures
            r == self.spec_get_swapchain_images_khr_call(swapchain.handle, capacity),
    {
        match self.dispatch_loader.vk_get_swapchain_images_khr {
            Some(pfn) => Some(
                NativeCall::GetSwapchainImages {
                    pfn,
                    device: self.handle,
                    swapchain: swapchain.handle,
                    capacity,
                },
            ),
            None => None,
        }
    }

    /// Reads the answer of the image enumeration. An error code gives its
    /// error, whatever the buffer holds. Otherwise the images are the first
    /// `count` handles of the buffer, in the buffer's order. Nothing is read
    /// where the command is absent.
    pub fn get_swapchain_images_khr(&self, code: i32, count: u32, buffer: &[u64]) -> (r: Option<
        Result<Vec<Image<'_>>, Error>,
    >)
        requires
            is_enumeration_code(code as int),
            Error::spec_from_code(code as int) is None ==> Instance::spec_all_objects(
                buffer@,
                count as int,
            ),
        ensures
            r is None <==> self.dispatch_loader.vk_get_swapchain_images_khr is None,
            r matches Some(answer) ==> match Error::spec_from_code(code as int) {
                Some(e) => answer == Err::<Vec<Image<'_>>, Error>(e),
                None => {
                    &&& answer matches Ok(images)
                    &&& images@.len() == spec_item_count(count, buffer@.len() as int)
                    &&& forall|i: int|
                        0 <= i < images@.len() ==> (#[trigger] images@[i]).handle == Handle::of(
                            buffer@[i],
                        ) && images@[i].device == self
                },
            },
    {
        if self.dispatch_loader.vk_get_swapchain_images_khr.is_none() {
            return None;
        }
        match Error::from_code(code) {
            Some(e) => Some(Err(e)),
            None => {
                let n: usize = if (count as usize) < buffer.len() {
                    count as usize
                } else {
                    buffer.len()
                };
                let mut images: Vec<Image<'_>> = Vec::new();
                let mut i: usize = 0;
                while i < n
                    invariant
                        i <= n,
                        n == spec_item_count(count, buffer@.len() as int),
                        Instance::spec_all_objects(buffer@, count as int),
                        images@.len() == i,
                        forall|j: int|
                            0 <= j < i ==> (#[trigger] images@[j]).handle == Handle::of(buffer@[j])
                                && images@[j].device == self,
                    decreases n - i,
                {
                    let handle = Handle::new(buffer[i]).unwrap();
                    images.push(Image { handle, device: self });
                    i = i + 1;
                }
                Some(Ok(images))
            },
        }
    }

    /// The call that creates a shader module from `code`, which is opaque
    /// and handed over as it is, with its length in bytes.
    pub fn create_shader_module_call<'b>(&self, code: &'b [u8]) -> (r: NativeCall<'b>)
        ensures
            r == (NativeCall::CreateShaderModule {
                pfn: self.dispatch_loader.vk_create_shader_module,
                device: self.handle,
                info: native::ShaderModuleCreateInfo {
                    s_type: StructureType::ShaderModuleCreateInfo,
                    flags: 0,
                    code_size: code@.len() as usize,
                    code,
                },
            }),
    {
        NativeCall::CreateShaderModule {
            pfn: self.dispatch_loader.vk_create_shader_module,
            device: self.handle,
            info: native::ShaderModuleCreateInfo {
                s_type: StructureType::ShaderModuleCreateInfo,
                flags: 0,
                code_size: code.len(),
                code,
            },
        }
    }

    /// Reads the answer of the shader module creation.
    pub fn create_shader_module(&self, code: i32, raw: u64) -> (r: Result<ShaderModule<'_>, Error>)
        requires
            creation_reply_expected(code as int, raw),
        ensures
            match spec_created(code as int, raw) {
                Err(e) => r == Err::<ShaderModule<'_>, Error>(e),
                Ok(handle) => r matches Ok(module) && module.handle == handle && module.device
                    == self,
            },
    {
        match created(code, raw) {
            Err(e) => Err(e),
            Ok(handle) => Ok(ShaderModule { handle, device: self }),
        }
    }

    /// The call that destroys the device.
    pub fn destroy_call(&self) -> (r: DestroyCall)
        ensures
            r == (DestroyCall {
                command: Command::DestroyDevice,
                pfn: self.dispatch_loader.vk_destroy_device,
                parent: None,
                object: self.handle,
            }),
    {
        DestroyCall {
            command: Command::DestroyDevice,
            pfn: self.dispatch_loader.vk_destroy_device,
            parent: None,
            object: self.handle,
        }
    }
}

/// Whether `symbols` holds none of the surface queries of an adapter, as
/// when the surface extension was not enabled for the context.
pub open spec fn spec_surface_queries_absent(symbols: ResolvedCommands) -> bool {
    &&& symbols.spec_get(Command::GetPhysicalDeviceSurfaceCapabilitiesKhr) is None
    &&& symbols.spec_get(Command::GetPhysicalDeviceSurfaceFormatsKhr) is None
    &&& symbols.spec_get(Command::GetPhysicalDeviceSurfacePresentModesKhr) is None
}

/// Gating of the surface queries: on an adapter whose table was made from
/// answers of the resolver that hold none of them, no surface query gives
/// a call. Each reports that the operation is unsupported.
pub proof fn lemma_surface_queries_gated(
    symbols: ResolvedCommands,
    adapter: &PhysicalDevice<'_>,
    surface: Handle,
    capacity: Option<u32>,
)
    requires
        adapter.dispatch_loader.spec_made_from(symbols),
        spec_surface_queries_absent(symbols),
    ensures
        adapter.spec_get_surface_capabilities_khr_call(surface) is None,
        adapter.spec_get_surface_formats_khr_call(surface, capacity) is None,
        adapter.spec_get_surface_present_modes_khr_call(surface, capacity) is None,
{
    let table = adapter.dispatch_loader;
    assert(table.spec_entry(Command::GetPhysicalDeviceSurfaceCapabilitiesKhr) is None);
    assert(table.spec_entry(Command::GetPhysicalDeviceSurfaceFormatsKhr) is None);
    assert(table.spec_entry(Command::GetPhysicalDeviceSurfacePresentModesKhr) is None);
}

} // verus!
