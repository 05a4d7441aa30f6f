//! The backend for AMD GPUs. It is a placeholder: it is there so that the
//! rest of the service can be built against it, and every operation reports
//! that it is not implemented.

use crate::adapter::{GpuVendor, SystemType, VibranceAdapter};
use crate::error::{VividError, VividResult};
use vstd::prelude::*;

verus! {

#[derive(Debug)]
pub struct Amd {}

impl Amd {
    pub fn new() -> (adapter: VividResult<Self>)
        ensures
            adapter matches Err(error) && error == VividError::Unimplemented,
    {
        Err(VividError::Unimplemented)
    }
}

impl VibranceAdapter for Amd {
    open spec fn answers_set_vibrance(&self, vibrance: u8, answer: VividResult<u8>) -> bool {
        answer == Err::<u8, VividError>(VividError::Unimplemented)
    }

    open spec fn answers_get_vibrance(&self, answer: VividResult<u8>) -> bool {
        answer == Err::<u8, VividError>(VividError::Unimplemented)
    }

    open spec fn answers_get_sku(&self, answer: VividResult<String>) -> bool {
        answer == Err::<String, VividError>(VividError::Unimplemented)
    }

    open spec fn answers_get_vendor(&self, answer: VividResult<GpuVendor>) -> bool {
        answer == Err::<GpuVendor, VividError>(VividError::Unimplemented)
    }

    open spec fn answers_get_system_type(&self, answer: VividResult<SystemType>) -> bool {
        answer == Err::<SystemType, VividError>(VividError::Unimplemented)
    }

    fn set_vibrance(&mut self, _vibrance: u8) -> (applied: VividResult<u8>)
        ensures
            applied == Err::<u8, VividError>(VividError::Unimplemented),
    {
        Err(VividError::Unimplemented)
    }

    fn get_vibrance(&mut self) -> (vibrance: VividResult<u8>)
        ensures
            vibrance == Err::<u8, VividError>(VividError::Unimplemented),
    {
        Err(VividError::Unimplemented)
    }

    fn get_sku(&mut self) -> (sku: VividResult<String>)
        ensures
            sku == Err::<String, VividError>(VividError::Unimplemented),
    {
        Err(VividError::Unimplemented)
    }

    fn get_vendor(&mut self) -> (vendor: VividResult<GpuVendor>)
        ensures
            vendor == Err::<GpuVendor, VividError>(VividError::Unimplemented),
    {
        Err(VividError::Unimplemented)
    }

    fn get_system_type(&mut self) -> (system_type: VividResult<SystemType>)
        ensures
            system_type == Err::<SystemType, VividError>(VividError::Unimplemented),
    {
        Err(VividError::Unimplemented)
    }
}

} // verus!
