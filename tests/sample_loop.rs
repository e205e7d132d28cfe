use diligent::graphics_types::RenderDeviceType;
use diligent::native_app::GoldenImageMode;
use diligent::sample_app::{
    adapters_window_layout, dispatch_event, is_supported_device_type, EventAction, EventResult,
    SampleAppState, WindowLayout,
};

#[test]
fn new_state_has_defaults() {
    let state = SampleAppState::new("Tutorial".to_string(), 1280, 720);
    assert_eq!(state.get_title(), "Tutorial");
    assert_eq!(state.golden_image_mode(), GoldenImageMode::Off);
    assert_eq!(state.golden_pixel_tolerance(), 0);
    assert!(!state.vsync());
    assert_eq!(state.width(), 1280);
    assert_eq!(state.height(), 720);
}

#[test]
fn sync_interval_follows_vsync() {
    let mut state = SampleAppState::new(String::new(), 1, 1);
    assert_eq!(state.sync_interval(), 0);
    state.set_vsync(true);
    assert!(state.vsync());
    assert_eq!(state.sync_interval(), 1);
    state.set_vsync(false);
    assert_eq!(state.sync_interval(), 0);
}

#[test]
fn events_map_to_actions() {
    assert_eq!(dispatch_event(EventResult::Quit), EventAction::Quit);
    assert_eq!(dispatch_event(EventResult::Continue), EventAction::Forward);
    assert_eq!(
        dispatch_event(EventResult::Resize { width: 800, height: 600 }),
        EventAction::ResizeAndForward { width: 800, height: 600 }
    );
    assert_eq!(
        dispatch_event(EventResult::Resize { width: u16::MAX, height: 0 }),
        EventAction::ResizeAndForward { width: 65535, height: 0 }
    );
}

#[test]
fn adapters_window_in_wide_swap_chain() {
    assert_eq!(adapters_window_layout(1280), WindowLayout { x: 940, y: 10, width: 330 });
    assert_eq!(adapters_window_layout(330 + 11), WindowLayout { x: 1, y: 10, width: 330 });
}

#[test]
fn adapters_window_in_narrow_swap_chain() {
    assert_eq!(adapters_window_layout(200), WindowLayout { x: 0, y: 10, width: 200 });
    assert_eq!(adapters_window_layout(340), WindowLayout { x: 0, y: 10, width: 330 });
    assert_eq!(adapters_window_layout(0), WindowLayout { x: 0, y: 10, width: 0 });
    assert_eq!(adapters_window_layout(u32::MAX), WindowLayout { x: u32::MAX - 340, y: 10, width: 330 });
}

#[test]
fn only_vulkan_is_supported() {
    assert!(is_supported_device_type(RenderDeviceType::VULKAN));
    assert!(!is_supported_device_type(RenderDeviceType::D3D11));
    assert!(!is_supported_device_type(RenderDeviceType::D3D12));
    assert!(!is_supported_device_type(RenderDeviceType::GL));
    assert!(!is_supported_device_type(RenderDeviceType::GLES));
    assert!(!is_supported_device_type(RenderDeviceType::METAL));
    assert!(!is_supported_device_type(RenderDeviceType::WEBGPU));
}
