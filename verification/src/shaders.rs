//! Shader modules.

use vstd::prelude::*;
use crate::command::Command;
use crate::device::Device;
use crate::handle::Handle;
use crate::native::DestroyCall;

verus! {

/// A shader module of a logical device.
#[derive(Debug)]
pub struct ShaderModule<'a> {
    pub handle: Handle,
    pub device: &'a Device<'a>,
}

impl<'a> ShaderModule<'a> {
    /// The call that destroys the module, through the table of the device
    /// that made it.
    pub fn destroy_call(&self) -> (r: DestroyCall)
        ensures
            r == (DestroyCall {
                command: Command::DestroyShaderModule,
                pfn: self.device.dispatch_loader.vk_destroy_shader_module,
                parent: Some(self.device.handle),
                object: self.handle,
            }),
    {
        DestroyCall {
            command: Command::DestroyShaderModule,
            pfn: self.device.dispatch_loader.vk_destroy_shader_module,
            parent: Some(self.device.handle),
            object: self.handle,
        }
    }
}

} // verus!
