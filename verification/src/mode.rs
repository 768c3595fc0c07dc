//! The culling strategy and data that depends on it.

use vstd::prelude::*;

verus! {

/// Where culling runs. A renderer picks one strategy when it is built and
/// keeps it for its lifetime.
#[derive(Clone, Copy, Debug, PartialEq, Eq, Structural)]
pub enum RendererMode {
    /// Visibility and draw calls are computed on the host.
    CPUPowered,
    /// Visibility and indirect draw arguments are computed on the device.
    GPUPowered,
}

/// A value that exists in exactly one of two shapes, one per strategy.
#[derive(Debug, PartialEq, Eq)]
pub enum ModeData<C, G> {
    /// The host strategy's data.
    CPU(C),
    /// The device strategy's data.
    GPU(G),
}

impl<C, G> ModeData<C, G> {
    /// The strategy that this value is tagged with.
    pub open spec fn spec_mode(&self) -> RendererMode {
        match self {
            ModeData::CPU(_) => RendererMode::CPUPowered,
            ModeData::GPU(_) => RendererMode::GPUPowered,
        }
    }

    /// The strategy that this value is tagged with.
    #[verifier::when_used_as_spec(spec_mode)]
    pub fn mode(&self) -> (mode: RendererMode)
        ensures
            mode == self.spec_mode(),
    {
        match self {
            ModeData::CPU(_) => RendererMode::CPUPowered,
            ModeData::GPU(_) => RendererMode::GPUPowered,
        }
    }

    /// The host strategy's data. The value must be tagged for the host.
    pub fn as_cpu(&self) -> (data: &C)
        requires
            self is CPU,
        ensures
            *self == ModeData::<C, G>::CPU(*data),
    {
        match self {
            ModeData::CPU(data) => data,
            ModeData::GPU(_) => vstd::pervasive::unreached(),
        }
    }

    /// The device strategy's data. The value must be tagged for the device.
    pub fn as_gpu(&self) -> (data: &G)
        requires
            self is GPU,
        ensures
            *self == ModeData::<C, G>::GPU(*data),
    {
        match self {
            ModeData::CPU(_) => vstd::pervasive::unreached(),
            ModeData::GPU(data) => data,
        }
    }
}

} // verus!
