//! Command pools and the command buffers allocated from them.

use vstd::prelude::*;
use crate::command::Command;
use crate::common::{is_result_code, Error, SUCCESS};
use crate::device::Device;
use crate::handle::Handle;
use crate::init::Instance;
use crate::native;
use crate::native::{CommandBufferLevel, DestroyCall, NativeCall, StructureType};

verus! {

/// A command buffer. It belongs to its pool and goes with it.
#[derive(Debug)]
pub struct CommandBuffer<'a> {
    pub handle: Handle,
    pub pool: &'a CommandPool<'a>,
}

/// A pool that command buffers are allocated from.
#[derive(Debug)]
pub struct CommandPool<'a> {
    pub handle: Handle,
    pub device: &'a Device<'a>,
}

impl<'a> CommandPool<'a> {
    /// The call that allocates `buffer_count` primary command buffers.
    pub fn allocate_command_buffers_call(&self, buffer_count: usize) -> (r: NativeCall<'static>)
        requires
            buffer_count <= u32::MAX,
        ensures
            r == (NativeCall::AllocateCommandBuffers {
                pfn: self.device.dispatch_loader.vk_allocate_command_buffers,
                device: self.device.handle,
                info: native::CommandBufferAllocateInfo {
                    s_type: StructureType::CommandBufferAllocateInfo,
                    command_pool: self.handle,
                    level: CommandBufferLevel::Primary,
                    command_buffer_count: buffer_count as u32,
                },
            }),
    {
        NativeCall::AllocateCommandBuffers {
            pfn: self.device.dispatch_loader.vk_allocate_command_buffers,
            device: self.device.handle,
            info: native::CommandBufferAllocateInfo {
                s_type: StructureType::CommandBufferAllocateInfo,
                command_pool: self.handle,
                level: CommandBufferLevel::Primary,
                command_buffer_count: buffer_count as u32,
            },
        }
    }

    /// Reads the answer of the allocation: on success the command buffers
    /// are the handles of the buffer, in the buffer's order.
    pub fn allocate_command_buffers(&self, code: i32, buffer: &[u64]) -> (r: Result<
        Vec<CommandBuffer<'_>>,
        Error,
    >)
        requires
            is_result_code(code as int),
            code == SUCCESS ==> Instance::spec_all_objects(buffer@, buffer@.len() as int),
        ensures
            match Error::spec_from_code(code as int) {
                Some(e) => r == Err::<Vec<CommandBuffer<'_>>, Error>(e),
                None => {
                    &&& r matches Ok(buffers)
                    &&& buffers@.len() == buffer@.len()
                    &&& forall|i: int|
                        0 <= i < buffers@.len() ==> (#[trigger] buffers@[i]).handle == Handle::of(
                            buffer@[i],
                        ) && buffers@[i].pool == self
                },
            },
    {
        match Error::from_code(code) {
            Some(e) => Err(e),
            None => {
                let mut buffers: Vec<CommandBuffer<'_>> = Vec::new();
                let mut i: usize = 0;
                while i < buffer.len()
                    invariant
                        i <= buffer@.len(),
                        Instance::spec_all_objects(buffer@, buffer@.len() as int),
                        buffers@.len() == i,
                        forall|j: int|
                            0 <= j < i ==> (#[trigger] buffers@[j]).handle == Handle::of(buffer@[j])
                                && buffers@[j].pool == self,
                    decreases buffer@.len() - i,
                {
                    let handle = Handle::new(buffer[i]).unwrap();
                    buffers.push(CommandBuffer { handle, pool: self });
                    i = i + 1;
                }
                Ok(buffers)
            },
        }
    }

    /// The call that destroys the pool, through the table of the device
    /// that made it.
    pub fn destroy_call(&self) -> (r: DestroyCall)
        ensures
            r == (DestroyCall {
                command: Command::DestroyCommandPool,
                pfn: self.device.dispatch_loader.vk_destroy_command_pool,
                parent: Some(self.device.handle),
                object: self.handle,
            }),
    {
        DestroyCall {
            command: Command::DestroyCommandPool,
            pfn: self.device.dispatch_loader.vk_destroy_command_pool,
            parent: Some(self.device.handle),
            object: self.handle,
        }
    }
}

} // verus!
