use diligent::engine_factory::{
    AsEngineFactory, EngineCreateInfo, EngineFactory, AUTO_ASYNC_SHADER_COMPILATION_THREADS,
    DEFAULT_ADAPTER_ID, VALIDATION_FLAG_NONE,
};
use diligent::graphics_types::{AdapterMemoryInfo, AdapterType, GraphicsAdapterInfo, Version};

#[test]
fn new_sets_defaults() {
    let ci = EngineCreateInfo::new(256006, true);
    assert_eq!(ci.engine_api_version(), 256006);
    assert_eq!(ci.adapter_id(), 0xFFFF_FFFF);
    assert_eq!(ci.adapter_index(), None);
    assert_eq!(ci.graphics_api_version, Version { major: 0, minor: 0 });
    assert_eq!(ci.num_immediate_contexts, 0);
    assert_eq!(ci.num_deferred_contexts, 0);
    assert!(ci.enable_validation());
    assert_eq!(ci.validation_flags(), VALIDATION_FLAG_NONE);
    assert_eq!(ci.num_async_shader_compilation_threads(), AUTO_ASYNC_SHADER_COMPILATION_THREADS);
    assert_eq!(ci.padding(), 0);
    assert!(!EngineCreateInfo::new(1, false).enable_validation());
}

#[test]
fn set_adapter_index_within_range() {
    let mut ci = EngineCreateInfo::new(1, false);
    ci.num_deferred_contexts = 2;
    assert!(ci.set_adapter_index(4));
    assert_eq!(ci.adapter_index(), Some(4));
    assert_eq!(ci.adapter_id(), 4);
    assert_eq!(ci.num_deferred_contexts, 2);
    assert!(ci.set_adapter_index(0));
    assert_eq!(ci.adapter_index(), Some(0));
}

#[test]
fn set_adapter_index_refuses_default_id() {
    let mut ci = EngineCreateInfo::new(1, false);
    assert!(ci.set_adapter_index(3));
    assert!(!ci.set_adapter_index(DEFAULT_ADAPTER_ID as usize));
    assert_eq!(ci.adapter_index(), Some(3));
    assert!(ci.set_adapter_index(DEFAULT_ADAPTER_ID as usize - 1));
    assert_eq!(ci.adapter_id(), 0xFFFF_FFFE);
}

#[test]
fn factory_reports_its_adapters() {
    let adapters = vec![GraphicsAdapterInfo {
        description: "gpu".to_string(),
        adapter_type: AdapterType::Discrete,
        vendor_id: 0x10de,
        device_id: 0x2204,
        memory: AdapterMemoryInfo { local_memory: 1, host_visible_memory: 2, unified_memory: 3 },
    }];
    let mut factory = EngineFactory::new(adapters);
    assert_eq!(factory.enumerate_adapters().len(), 1);
    assert_eq!(factory.enumerate_adapters()[0].description, "gpu");
    assert_eq!(factory.enumerate_adapters()[0].memory.total(), 6);
    assert!(!factory.break_on_error());
    factory.set_break_on_error(true);
    assert!(factory.break_on_error());
    assert_eq!(factory.as_engine_factory().enumerate_adapters().len(), 1);
}

#[test]
fn adapter_rank_orders_kinds() {
    assert_eq!(AdapterType::Unknown.rank(), 0);
    assert_eq!(AdapterType::Software.rank(), 1);
    assert_eq!(AdapterType::Integrated.rank(), 2);
    assert_eq!(AdapterType::Discrete.rank(), 3);
}
