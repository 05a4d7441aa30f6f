//! The GPU controller and the vendor backends behind it.

pub mod amd;
pub mod monitor;
pub mod nvidia;

use crate::adapter::amd::Amd;
use crate::error::{VividError, VividResult};
use vstd::prelude::*;

verus! {

/// The vendor of a GPU, or why none could be chosen.
#[derive(Debug, Clone, Copy, PartialEq, Eq, Structural)]
pub enum GpuVendor {
    Nvidia,
    Amd,
    /// Both vendors' drivers are present.
    Ambiguous,
    /// No vendor's driver is present.
    Nothing,
}

/// The kind of machine the GPU sits in.
#[derive(Debug, Clone, Copy, PartialEq, Eq, Structural)]
pub enum SystemType {
    Desktop,
    Laptop,
}

/// What a vendor backend offers. A backend owns its driver session, and
/// finds the display to drive anew on every call.
///
/// What a backend answers is its own affair: the trait promises nothing of
/// it. Each operation comes with a predicate that says which answers the
/// backend gives to that request in the state it is in. A backend that
/// defines none leaves every answer open. The predicates let a caller say
/// that an answer it passes on is the backend's answer, to the request it
/// made.
pub trait VibranceAdapter: Send + Sync {
    /// Whether `answer` is an answer of this backend to the request to set
    /// the vibrance to `vibrance`.
    open spec fn answers_set_vibrance(&self, vibrance: u8, answer: VividResult<u8>) -> bool {
        true
    }

    /// Whether `answer` is an answer of this backend to the request for the
    /// vibrance.
    open spec fn answers_get_vibrance(&self, answer: VividResult<u8>) -> bool {
        true
    }

    /// Whether `answer` is an answer of this backend to the request for the
    /// name of the GPU.
    open spec fn answers_get_sku(&self, answer: VividResult<String>) -> bool {
        true
    }

    /// Whether `answer` is an answer of this backend to the request for the
    /// vendor of the GPU.
    open spec fn answers_get_vendor(&self, answer: VividResult<GpuVendor>) -> bool {
        true
    }

    /// Whether `answer` is an answer of this backend to the request for the
    /// system type.
    open spec fn answers_get_system_type(&self, answer: VividResult<SystemType>) -> bool {
        true
    }

    /// Sets the vibrance of the target display, in percent, and returns the
    /// value the driver gives back.
    fn set_vibrance(&mut self, vibrance: u8) -> (answer: VividResult<u8>)
        ensures
            old(self).answers_set_vibrance(vibrance, answer),
    ;

    /// The vibrance of the target display, in percent.
    fn get_vibrance(&mut self) -> (answer: VividResult<u8>)
        ensures
            old(self).answers_get_vibrance(answer),
    ;

    /// The name of the GPU.
    fn get_sku(&mut self) -> (answer: VividResult<String>)
        ensures
            old(self).answers_get_sku(answer),
    ;

    /// The vendor of the GPU.
    fn get_vendor(&mut self) -> (answer: VividResult<GpuVendor>)
        ensures
            old(self).answers_get_vendor(answer),
    ;

    /// The kind of machine the GPU sits in.
    fn get_system_type(&mut self) -> (answer: VividResult<SystemType>)
        ensures
            old(self).answers_get_system_type(answer),
    ;
}

/// The GPU that the service controls: what identifies it, and the backend
/// that drives it.
pub struct Gpu {
    pub sku: String,
    pub vendor: GpuVendor,
    pub system_type: SystemType,
    pub adapter: Box<dyn VibranceAdapter>,
}

impl GpuVendor {
    /// The vendor that the presence of the two vendors' driver libraries
    /// points to.
    pub open spec fn spec_detect(nvidia_present: bool, amd_present: bool) -> GpuVendor {
        if nvidia_present && amd_present {
            GpuVendor::Ambiguous
        } else if nvidia_present {
            GpuVendor::Nvidia
        } else if amd_present {
            GpuVendor::Amd
        } else {
            GpuVendor::Nothing
        }
    }

    /// Classifies the machine by which vendors' driver libraries are present
    /// on it.
    #[verifier::when_used_as_spec(spec_detect)]
    pub fn detect(nvidia_present: bool, amd_present: bool) -> (vendor: GpuVendor)
        ensures
            vendor == Self::spec_detect(nvidia_present, amd_present),
    {
        if nvidia_present && amd_present {
            GpuVendor::Ambiguous
        } else if nvidia_present {
            GpuVendor::Nvidia
        } else if amd_present {
            GpuVendor::Amd
        } else {
            GpuVendor::Nothing
        }
    }
}

/// Whether a vendor's driver library is present, from what the loader
/// answered when it was asked to load the library as data: the handle of the
/// module, which is 0 where there is no such library, or `None` where the
/// loader could not be asked at all. A probe that fails counts as a library
/// that is not there.
pub fn dll_exists(module: Option<isize>) -> (present: bool)
    ensures
        present <==> (module matches Some(handle) && handle != 0),
{
    match module {
        Some(handle) => handle != 0,
        None => false,
    }
}

impl Gpu {
    /// What the detection of the vendor comes to.
    pub open spec fn detection(nvidia_present: bool, amd_present: bool) -> VividResult<GpuVendor> {
        match GpuVendor::spec_detect(nvidia_present, amd_present) {
            GpuVendor::Ambiguous => Err(VividError::DualDriversDetected),
            GpuVendor::Nothing => Err(VividError::NoGpuDetected),
            vendor => Ok(vendor),
        }
    }

    /// Chooses the vendor whose backend is to drive the GPU, from which
    /// vendors' driver libraries are present on the machine. With both
    /// present the choice is not made silently: it fails, and so it does with
    /// none.
    pub fn detect_gpu(nvidia_present: bool, amd_present: bool) -> (vendor: VividResult<GpuVendor>)
        ensures
            vendor == Self::detection(nvidia_present, amd_present),
            nvidia_present && amd_present ==> vendor == Err::<GpuVendor, VividError>(
                VividError::DualDriversDetected,
            ),
            !nvidia_present && !amd_present ==> vendor == Err::<GpuVendor, VividError>(
                VividError::NoGpuDetected,
            ),
            nvidia_present && !amd_present ==> vendor == Ok::<GpuVendor, VividError>(
                GpuVendor::Nvidia,
            ),
            !nvidia_present && amd_present ==> vendor == Ok::<GpuVendor, VividError>(GpuVendor::Amd),
    {
        match GpuVendor::detect(nvidia_present, amd_present) {
            GpuVendor::Nvidia => Ok(GpuVendor::Nvidia),
            GpuVendor::Amd => Ok(GpuVendor::Amd),
            GpuVendor::Ambiguous => Err(VividError::DualDriversDetected),
            GpuVendor::Nothing => Err(VividError::NoGpuDetected),
        }
    }

    /// The controller of an AMD GPU.
    pub fn new_amd() -> (gpu: VividResult<Self>)
        ensures
            gpu matches Err(error) && error == VividError::Unimplemented,
    {
        match Amd::new() {
            Ok(adapter) => Self::new_with_adapter(Box::new(adapter)),
            Err(error) => Err(error),
        }
    }

    /// What identifies the GPU, from the backend's answers to the requests
    /// for its name, vendor and system type: of several failures the first
    /// one counts, in this order.
    pub open spec fn identity(
        sku: VividResult<String>,
        vendor: VividResult<GpuVendor>,
        system_type: VividResult<SystemType>,
    ) -> VividResult<(String, GpuVendor, SystemType)> {
        match (sku, vendor, system_type) {
            (Ok(sku), Ok(vendor), Ok(system_type)) => Ok((sku, vendor, system_type)),
            (Err(error), _, _) => Err(error),
            (Ok(_), Err(error), _) => Err(error),
            (Ok(_), Ok(_), Err(error)) => Err(error),
        }
    }

    /// Whether `gpu` is what these answers of the backend come to: a
    /// controller that holds them or, where one of them is a failure, the
    /// first failure.
    pub open spec fn made_of(
        gpu: VividResult<Gpu>,
        sku: VividResult<String>,
        vendor: VividResult<GpuVendor>,
        system_type: VividResult<SystemType>,
    ) -> bool {
        match Self::identity(sku, vendor, system_type) {
            Ok(identity) => {
                &&& gpu matches Ok(gpu)
                &&& gpu.sku == identity.0
                &&& gpu.vendor == identity.1
                &&& gpu.system_type == identity.2
            },
            Err(error) => gpu matches Err(e) && e == error,
        }
    }

    /// The controller of the GPU behind `adapter`, from what the backend
    /// answered when asked for the GPU's name, vendor and system type. Of
    /// several failures the first one in this order is returned.
    pub fn assemble(
        sku: VividResult<String>,
        vendor: VividResult<GpuVendor>,
        system_type: VividResult<SystemType>,
        adapter: Box<dyn VibranceAdapter>,
    ) -> (gpu: VividResult<Self>)
        ensures
            Self::made_of(gpu, sku, vendor, system_type),
            gpu matches Ok(gpu) ==> gpu == (Gpu {
                sku: gpu.sku,
                vendor: gpu.vendor,
                system_type: gpu.system_type,
                adapter,
            }),
    {
        let sku = sku?;
        let vendor = vendor?;
        let system_type = system_type?;
        Ok(Self { sku, vendor, system_type, adapter })
    }

    /// The controller of the GPU behind `adapter`. It asks the backend for
    /// the GPU's name, vendor and system type once, right away and in this
    /// order, so that a broken driver shows here and not at the first use, and
    /// hands the answers to `assemble`.
    ///
    /// What comes back is made of three answers: the name is an answer of
    /// the backend as it was handed in, and the vendor and the system type
    /// are answers of the backend as the requests before them left it. Of
    /// those later states, `second` and `third`, nothing else is said.
    pub fn new_with_adapter(adapter: Box<dyn VibranceAdapter>) -> (gpu: VividResult<Self>)
        ensures
            exists|
                sku: VividResult<String>,
                vendor: VividResult<GpuVendor>,
                system_type: VividResult<SystemType>,
                second: Box<dyn VibranceAdapter>,
                third: Box<dyn VibranceAdapter>,
            |
                #![trigger
                    adapter.answers_get_sku(sku),
                    second.answers_get_vendor(vendor),
                    third.answers_get_system_type(system_type),
                ]
                {
                    &&& adapter.answers_get_sku(sku)
                    &&& second.answers_get_vendor(vendor)
                    &&& third.answers_get_system_type(system_type)
                    &&& Self::made_of(gpu, sku, vendor, system_type)
                },
    {
        let mut adapter = adapter;
        let ghost first = adapter;
        let sku = adapter.get_sku();
        let ghost second = adapter;
        let vendor = adapter.get_vendor();
        let ghost third = adapter;
        let system_type = adapter.get_system_type();
        let gpu = Self::assemble(sku, vendor, system_type, adapter);
        assert(first.answers_get_sku(sku) && second.answers_get_vendor(vendor)
            && third.answers_get_system_type(system_type) && Self::made_of(
            gpu,
            sku,
            vendor,
            system_type,
        ));
        gpu
    }

    /// Has the backend set the vibrance to `vibrance`, and returns what the
    /// backend answers. What identifies the GPU stays as it is.
    pub fn set_vibrance(&mut self, vibrance: u8) -> (applied: VividResult<u8>)
        ensures
            old(self).adapter.answers_set_vibrance(vibrance, applied),
            final(self).sku == old(self).sku,
            final(self).vendor == old(self).vendor,
            final(self).system_type == old(self).system_type,
    {
        self.adapter.set_vibrance(vibrance)
    }

    /// Asks the backend for the vibrance, and returns what the backend
    /// answers. What identifies the GPU stays as it is.
    pub fn get_vibrance(&mut self) -> (vibrance: VividResult<u8>)
        ensures
            old(self).adapter.answers_get_vibrance(vibrance),
            final(self).sku == old(self).sku,
            final(self).vendor == old(self).vendor,
            final(self).system_type == old(self).system_type,
    {
        self.adapter.get_vibrance()
    }
}

} // verus!
