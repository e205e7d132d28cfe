use vstd::prelude::*;

verus! {

/// A graphics API version, as `major.minor`.
#[derive(Clone, Copy, Debug, PartialEq, Eq, Structural)]
pub struct Version {
    pub major: u32,
    pub minor: u32,
}

/// The kind of a graphics adapter, from least to most preferred.
#[derive(Clone, Copy, Debug, PartialEq, Eq, Structural)]
pub enum AdapterType {
    Unknown,
    Software,
    Integrated,
    Discrete,
}

impl AdapterType {
    /// The preference rank of an adapter kind: a discrete adapter is preferred
    /// over an integrated one, and an integrated one over a software one.
    pub open spec fn spec_rank(self) -> int {
        match self {
            AdapterType::Unknown => 0,
            AdapterType::Software => 1,
            AdapterType::Integrated => 2,
            AdapterType::Discrete => 3,
        }
    }

    pub fn rank(&self) -> (r: u8)
        ensures
            r as int == self.spec_rank(),
    {
        match self {
            AdapterType::Unknown => 0,
            AdapterType::Software => 1,
            AdapterType::Integrated => 2,
            AdapterType::Discrete => 3,
        }
    }
}

/// The memory an adapter reports, in bytes.
#[derive(Clone, Copy, Debug, PartialEq, Eq, Structural)]
pub struct AdapterMemoryInfo {
    pub local_memory: u64,
    pub host_visible_memory: u64,
    pub unified_memory: u64,
}

impl AdapterMemoryInfo {
    pub open spec fn spec_total(self) -> int {
        self.local_memory + self.host_visible_memory + self.unified_memory
    }

    /// Local, host-visible and unified memory together.
    pub fn total(&self) -> (r: u128)
        ensures
            r as int == self.spec_total(),
    {
        self.local_memory as u128 + self.host_visible_memory as u128 + self.unified_memory as u128
    }
}

/// What the engine reports of one graphics adapter.
#[derive(Clone, Debug)]
pub struct GraphicsAdapterInfo {
    pub description: String,
    pub adapter_type: AdapterType,
    pub vendor_id: u32,
    pub device_id: u32,
    pub memory: AdapterMemoryInfo,
}

/// The rendering backends of the engine.
#[derive(Clone, Copy, Debug, PartialEq, Eq, Structural)]
pub enum RenderDeviceType {
    D3D11,
    D3D12,
    GL,
    GLES,
    VULKAN,
    METAL,
    WEBGPU,
}

} // verus!
