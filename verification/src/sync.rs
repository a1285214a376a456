//! Synchronization primitives.

use vstd::prelude::*;
use crate::command::Command;
use crate::device::Device;
use crate::handle::Handle;
use crate::native::DestroyCall;

verus! {

/// A semaphore of a logical device.
#[derive(Debug)]
pub struct Semaphore<'a> {
    pub handle: Handle,
    pub device: &'a Device<'a>,
}

impl<'a> Semaphore<'a> {
    /// The call that destroys the semaphore, through the table of the
    /// device that made it.
    pub fn destroy_call(&self) -> (r: DestroyCall)
        ensures
            r == (DestroyCall {
                command: Command::DestroySemaphore,
                pfn: self.device.dispatch_loader.vk_destroy_semaphore,
                parent: Some(self.device.handle),
                object: self.handle,
            }),
    {
        DestroyCall {
            command: Command::DestroySemaphore,
            pfn: self.device.dispatch_loader.vk_destroy_semaphore,
            parent: Some(self.device.handle),
            object: self.handle,
        }
    }
}

} // verus!
