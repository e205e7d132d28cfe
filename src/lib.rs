//! Engine-side descriptors and the decision logic of the sample harness,
//! with their contracts proved by Verus.

pub mod engine_factory;
pub mod graphics_types;
pub mod native_app;
pub mod sample_app;
pub mod shader_resource_binding;
