use vstd::prelude::*;

use crate::graphics_types::{GraphicsAdapterInfo, Version};

verus! {

/// The adapter id that lets the engine pick the adapter itself.
pub const DEFAULT_ADAPTER_ID: u32 = 0xFFFF_FFFF;

/// No validation flag set.
pub const VALIDATION_FLAG_NONE: u32 = 0;

/// Asks the engine to size its shader compilation thread pool itself.
pub const AUTO_ASYNC_SHADER_COMPILATION_THREADS: u32 = 0xFFFF_FFFF;

/// The attributes that a device and its contexts are created with.
pub struct EngineCreateInfo {
    engine_api_version: i32,
    adapter_id: u32,
    pub graphics_api_version: Version,
    pub num_immediate_contexts: u32,
    pub num_deferred_contexts: u32,
    enable_validation: bool,
    validation_flags: u32,
    num_async_shader_compilation_threads: u32,
    padding: u32,
}

impl EngineCreateInfo {
    pub closed spec fn spec_engine_api_version(&self) -> i32 {
        self.engine_api_version
    }

    pub closed spec fn spec_adapter_id(&self) -> u32 {
        self.adapter_id
    }

    pub closed spec fn spec_graphics_api_version(&self) -> Version {
        self.graphics_api_version
    }

    pub closed spec fn spec_num_immediate_contexts(&self) -> u32 {
        self.num_immediate_contexts
    }

    pub closed spec fn spec_num_deferred_contexts(&self) -> u32 {
        self.num_deferred_contexts
    }

    pub closed spec fn spec_enable_validation(&self) -> bool {
        self.enable_validation
    }

    pub closed spec fn spec_validation_flags(&self) -> u32 {
        self.validation_flags
    }

    pub closed spec fn spec_num_async_shader_compilation_threads(&self) -> u32 {
        self.num_async_shader_compilation_threads
    }

    pub closed spec fn spec_padding(&self) -> u32 {
        self.padding
    }

    /// The two hold the same attributes, but perhaps for the adapter.
    pub open spec fn same_except_adapter(&self, other: EngineCreateInfo) -> bool {
        &&& self.spec_engine_api_version() == other.spec_engine_api_version()
        &&& self.spec_graphics_api_version() == other.spec_graphics_api_version()
        &&& self.spec_num_immediate_contexts() == other.spec_num_immediate_contexts()
        &&& self.spec_num_deferred_contexts() == other.spec_num_deferred_contexts()
        &&& self.spec_enable_validation() == other.spec_enable_validation()
        &&& self.spec_validation_flags() == other.spec_validation_flags()
        &&& self.spec_num_async_shader_compilation_threads()
            == other.spec_num_async_shader_compilation_threads()
        &&& self.spec_padding() == other.spec_padding()
    }

    /// The adapter that the device is to be created on; `None` leaves the
    /// choice to the engine.
    pub open spec fn spec_adapter_index(&self) -> Option<int> {
        if self.spec_adapter_id() == DEFAULT_ADAPTER_ID {
            None
        } else {
            Some(self.spec_adapter_id() as int)
        }
    }

    /// The default attributes for an engine of interface version
    /// `engine_api_version`: the default adapter, no API version requirement,
    /// no extra contexts, no validation flags, and an automatically sized
    /// shader compilation pool. Validation is on where `enable_validation` is.
    pub fn new(engine_api_version: i32, enable_validation: bool) -> (r: EngineCreateInfo)
        ensures
            r.spec_engine_api_version() == engine_api_version,
            r.spec_adapter_id() == DEFAULT_ADAPTER_ID,
            r.spec_adapter_index() is None,
            r.spec_graphics_api_version() == (Version { major: 0, minor: 0 }),
            r.spec_num_immediate_contexts() == 0,
            r.spec_num_deferred_contexts() == 0,
            r.spec_enable_validation() == enable_validation,
            r.spec_validation_flags() == VALIDATION_FLAG_NONE,
            r.spec_num_async_shader_compilation_threads() == AUTO_ASYNC_SHADER_COMPILATION_THREADS,
            r.spec_padding() == 0,
    {
        EngineCreateInfo {
            engine_api_version,
            adapter_id: DEFAULT_ADAPTER_ID,
            graphics_api_version: Version { major: 0, minor: 0 },
            num_immediate_contexts: 0,
            num_deferred_contexts: 0,
            enable_validation,
            validation_flags: VALIDATION_FLAG_NONE,
            num_async_shader_compilation_threads: AUTO_ASYNC_SHADER_COMPILATION_THREADS,
            padding: 0,
        }
    }

    pub fn engine_api_version(&self) -> (r: i32)
        ensures
            r == self.spec_engine_api_version(),
    {
        self.engine_api_version
    }

    pub fn adapter_id(&self) -> (r: u32)
        ensures
            r == self.spec_adapter_id(),
    {
        self.adapter_id
    }

    pub fn enable_validation(&self) -> (r: bool)
        ensures
            r == self.spec_enable_validation(),
    {
        self.enable_validation
    }

    pub fn validation_flags(&self) -> (r: u32)
        ensures
            r == self.spec_validation_flags(),
    {
        self.validation_flags
    }

    pub fn num_async_shader_compilation_threads(&self) -> (r: u32)
        ensures
            r == self.spec_num_async_shader_compilation_threads(),
    {
        self.num_async_shader_compilation_threads
    }

    pub fn padding(&self) -> (r: u32)
        ensures
            r == self.spec_padding(),
    {
        self.padding
    }

    /// The adapter that the device is to be created on, if one was chosen.
    pub fn adapter_index(&self) -> (r: Option<usize>)
        ensures
            match r {
                Some(i) => self.spec_adapter_index() == Some(i as int),
                None => self.spec_adapter_index() is None,
            },
    {
        if self.adapter_id == DEFAULT_ADAPTER_ID {
            None
        } else {
            Some(self.adapter_id as usize)
        }
    }

    /// Chooses the adapter at `index`. An index that the engine's adapter id
    /// cannot hold is refused (`false`), and nothing changes.
    pub fn set_adapter_index(&mut self, index: usize) -> (ok: bool)
        ensures
            ok == (index < DEFAULT_ADAPTER_ID),
            ok ==> final(self).spec_adapter_index() == Some(index as int),
            ok ==> final(self).spec_adapter_id() == index as u32,
            !ok ==> *final(self) == *old(self),
            final(self).same_except_adapter(*old(self)),
    {
        if index < DEFAULT_ADAPTER_ID as usize {
            self.adapter_id = index as u32;
            true
        } else {
            false
        }
    }
}

/// A factory of devices, contexts and swap chains for one backend, as far as
/// the sample harness reads it: the adapters the engine enumerated, and
/// whether the engine breaks into the debugger on an error.
pub struct EngineFactory {
    adapters: Vec<GraphicsAdapterInfo>,
    break_on_error: bool,
}

/// Gives access to the backend-independent part of a backend's factory.
pub trait AsEngineFactory {
    fn as_engine_factory(&self) -> &EngineFactory;
}

impl AsEngineFactory for EngineFactory {
    fn as_engine_factory(&self) -> &EngineFactory {
        self
    }
}

impl EngineFactory {
    pub closed spec fn spec_adapters(&self) -> Seq<GraphicsAdapterInfo> {
        self.adapters@
    }

    pub closed spec fn spec_break_on_error(&self) -> bool {
        self.break_on_error
    }

    /// A factory whose engine reported `adapters`; it does not break on errors.
    pub fn new(adapters: Vec<GraphicsAdapterInfo>) -> (r: EngineFactory)
        ensures
            r.spec_adapters() == adapters@,
            !r.spec_break_on_error(),
    {
        EngineFactory { adapters, break_on_error: false }
    }

    /// The adapters of the system that the engine can use, in its order.
    pub fn enumerate_adapters(&self) -> (r: &Vec<GraphicsAdapterInfo>)
        ensures
            r@ == self.spec_adapters(),
    {
        &self.adapters
    }

    pub fn break_on_error(&self) -> (r: bool)
        ensures
            r == self.spec_break_on_error(),
    {
        self.break_on_error
    }

    pub fn set_break_on_error(&mut self, break_on_error: bool)
        ensures
            final(self).spec_break_on_error() == break_on_error,
            final(self).spec_adapters() == old(self).spec_adapters(),
    {
        self.break_on_error = break_on_error;
    }
}

} // verus!
