//! Descriptions of GPU resources and the plain decisions made about them:
//! memory requests, shader code, debug message levels.

use crate::error::GpuError;
use vstd::prelude::*;

verus! {

/// How the GPU context is set up.
#[derive(Clone, Copy, Debug, Default, PartialEq, Eq, Structural)]
pub struct ContextOptions {
    /// Enables the validation layer and the debug messenger.
    pub enable_debug: bool,
}

/// Where a buffer's memory lives.
#[derive(Clone, Copy, Debug, PartialEq, Eq, Structural)]
pub enum MemoryType {
    DeviceLocal,
    HostVisible,
}

#[derive(Clone, Copy, Debug, PartialEq, Eq, Structural)]
pub struct BufferDescriptor {
    pub memory_type: MemoryType,
    pub size: u64,
    pub usage_flags: u64,
}

/// The memory property bits Vulkan uses for device-local memory.
pub const MEMORY_PROPERTY_DEVICE_LOCAL: u32 = 0x1;

/// The memory property bits Vulkan uses for host-visible memory.
pub const MEMORY_PROPERTY_HOST_VISIBLE: u32 = 0x2;

pub open spec fn property_bits(memory_type: MemoryType) -> u32 {
    match memory_type {
        MemoryType::DeviceLocal => MEMORY_PROPERTY_DEVICE_LOCAL,
        MemoryType::HostVisible => MEMORY_PROPERTY_HOST_VISIBLE,
    }
}

/// A request to the memory allocator: the size, the alignment mask, and the
/// memory property bits asked for.
#[derive(Clone, Copy, Debug, PartialEq, Eq, Structural)]
pub struct AllocationRequest {
    pub size: u64,
    pub align_mask: u64,
    pub memory_types: u32,
}

/// The allocation a buffer of `desc` needs: its size, no alignment beyond
/// the allocator's own, and the memory properties of its memory type.
pub fn allocation_request(desc: &BufferDescriptor) -> (r: AllocationRequest)
    ensures
        r == (AllocationRequest {
            size: desc.size,
            align_mask: 0,
            memory_types: property_bits(desc.memory_type),
        }),
{
    let memory_types = match desc.memory_type {
        MemoryType::DeviceLocal => MEMORY_PROPERTY_DEVICE_LOCAL,
        MemoryType::HostVisible => MEMORY_PROPERTY_HOST_VISIBLE,
    };
    AllocationRequest { size: desc.size, align_mask: 0, memory_types }
}

/// The compiled shaders of a graphics pipeline, as SPIR-V bytes.
#[derive(Clone, Debug)]
pub struct PipelineDescriptor {
    pub vertex_shader: Vec<u8>,
    pub fragment_shader: Vec<u8>,
}

/// Relies on `bytemuck::cast`: it reinterprets four bytes as one word, in
/// the machine's byte order, so nothing is stated of the value.
#[verifier::external_body]
fn word_of(bytes: [u8; 4]) -> u32 {
    bytemuck::cast::<[u8; 4], u32>(bytes)
}

/// SPIR-V code as the 32-bit words a shader module is made of. Code that is
/// empty or not a whole number of words cannot make a shader module.
pub fn spirv_words(bytes: &[u8]) -> (r: Result<Vec<u32>, GpuError>)
    ensures
        r is Ok <==> bytes@.len() > 0 && bytes@.len() % 4 == 0,
        r matches Ok(words) ==> words@.len() * 4 == bytes@.len(),
        r matches Err(e) ==> e == GpuError::CreationFailure,
{
    if bytes.len() == 0 || bytes.len() % 4 != 0 {
        return Err(GpuError::CreationFailure);
    }
    let mut words: Vec<u32> = Vec::new();
    let mut i: usize = 0;
    while i < bytes.len()
        invariant
            i % 4 == 0,
            i <= bytes@.len(),
            bytes@.len() % 4 == 0,
            words@.len() * 4 == i,
        decreases bytes@.len() - i,
    {
        words.push(word_of([bytes[i], bytes[i + 1], bytes[i + 2], bytes[i + 3]]));
        i = i + 4;
    }
    Ok(words)
}

/// How loud a driver debug message is.
#[derive(Clone, Copy, Debug, PartialEq, Eq, Structural)]
pub enum MessageLevel {
    Error,
    Warn,
    Info,
    Debug,
}

/// The severity bits of a debug-utils message, as Vulkan numbers them.
pub const SEVERITY_VERBOSE: u32 = 0x1;

pub const SEVERITY_INFO: u32 = 0x10;

pub const SEVERITY_WARNING: u32 = 0x100;

pub const SEVERITY_ERROR: u32 = 0x1000;

pub open spec fn has_bit(bits: u32, bit: u32) -> bool {
    bits & bit == bit
}

/// The level a driver message is logged at: the most severe bit it carries,
/// verbose messages at debug level, and messages without a known bit at
/// info level.
pub fn message_level(severity: u32) -> (r: MessageLevel)
    ensures
        r == (if has_bit(severity, SEVERITY_ERROR) {
            MessageLevel::Error
        } else if has_bit(severity, SEVERITY_WARNING) {
            MessageLevel::Warn
        } else if has_bit(severity, SEVERITY_INFO) {
            MessageLevel::Info
        } else if has_bit(severity, SEVERITY_VERBOSE) {
            MessageLevel::Debug
        } else {
            MessageLevel::Info
        }),
{
    if severity & SEVERITY_ERROR == SEVERITY_ERROR {
        MessageLevel::Error
    } else if severity & SEVERITY_WARNING == SEVERITY_WARNING {
        MessageLevel::Warn
    } else if severity & SEVERITY_INFO == SEVERITY_INFO {
        MessageLevel::Info
    } else if severity & SEVERITY_VERBOSE == SEVERITY_VERBOSE {
        MessageLevel::Debug
    } else {
        MessageLevel::Info
    }
}

} // verus!
