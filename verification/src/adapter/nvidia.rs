//! The decisions of the backend for Nvidia GPUs: which GPU it adopts, which
//! display it drives, and what it makes of the system type the driver
//! reports.

use crate::adapter::SystemType;
use crate::error::{VividError, VividResult};
use crate::names::{first_named, names_of, position};
use vstd::prelude::*;

verus! {

/// The system type as the driver reports it.
#[derive(Debug, Clone, Copy, PartialEq, Eq, Structural)]
pub enum ReportedSystemType {
    Unknown,
    Laptop,
    Desktop,
}

impl ReportedSystemType {
    /// The kind of machine that goes with what the driver reports. A machine
    /// of unknown type counts as a desktop.
    pub open spec fn spec_system_type(self) -> SystemType {
        match self {
            ReportedSystemType::Laptop => SystemType::Laptop,
            ReportedSystemType::Desktop | ReportedSystemType::Unknown => SystemType::Desktop,
        }
    }

    #[verifier::when_used_as_spec(spec_system_type)]
    pub fn system_type(self) -> (system_type: SystemType)
        ensures
            system_type == self.spec_system_type(),
    {
        match self {
            ReportedSystemType::Laptop => SystemType::Laptop,
            ReportedSystemType::Desktop | ReportedSystemType::Unknown => SystemType::Desktop,
        }
    }
}

/// The GPU that the backend adopts: the first one of those the driver
/// lists, whatever the others are.
pub fn first_gpu<T>(gpus: Vec<T>) -> (gpu: VividResult<T>)
    ensures
        gpus@.len() > 0 ==> gpu == Ok::<T, VividError>(gpus@[0]),
        gpus@.len() == 0 ==> gpu == Err::<T, VividError>(VividError::NoGpuDetected),
{
    let mut gpus = gpus;
    if gpus.len() == 0 {
        Err(VividError::NoGpuDetected)
    } else {
        Ok(gpus.swap_remove(0))
    }
}

/// The index of the display that the backend drives: the first of the
/// connected displays, whose names are `display_names`, that is named as the
/// primary monitor is.
pub fn target_display(display_names: &Vec<String>, primary_monitor: &str) -> (display: VividResult<
    usize,
>)
    ensures
        match first_named(names_of(display_names@), primary_monitor@) {
            Some(i) => display == Ok::<usize, VividError>(i as usize) && i < display_names@.len(),
            None => display == Err::<usize, VividError>(VividError::NoDisplayDetected),
        },
{
    match position(display_names, primary_monitor) {
        Some(index) => Ok(index),
        None => Err(VividError::NoDisplayDetected),
    }
}

} // verus!
