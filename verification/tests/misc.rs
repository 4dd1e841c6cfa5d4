use nelly::config::Config;
use nelly::pool::{after_failure, pool_size, ShmFailure, ShmRetry, ShmSource};
use nelly::seat::util::{
    Axis, AxisFrame, AxisRelativeDirection, AxisScroll, AxisSource, ButtonState, KeyState,
    ScrollDevice, SerialCounter,
};
use nelly::shell::compositor::Size;
use nelly::shell::xdg::window::{
    configured_size, decoration_request, physical_size, suggested_bounds, suggested_dimension,
    DecorationMode, DecorationRequest, WindowConfigure, WindowDecorations,
    WindowManagerCapabilities, WindowState,
};
use nelly::shell::{attach, supported, Attach, Unsupported, OFFSET_SINCE, SCALE_SINCE, TRANSFORM_SINCE};

fn no_state() -> WindowState {
    WindowState {
        maximized: false,
        fullscreen: false,
        resizing: false,
        activated: false,
        tiled_left: false,
        tiled_right: false,
        tiled_top: false,
        tiled_bottom: false,
        suspended: false,
    }
}

#[test]
fn config_loads() {
    assert_eq!(Config::load(), Config {});
}

#[test]
fn serials_start_at_one() {
    let mut counter = SerialCounter::new();
    assert_eq!(counter.next_serial(), 1);
    assert_eq!(counter.next_serial(), 2);
    let mut other = SerialCounter::default();
    assert_eq!(other.next_serial(), 1);
}

#[test]
fn serials_rise_without_repeating() {
    let mut counter = SerialCounter::new();
    let mut last = 0;
    for _ in 0..1000 {
        let serial = counter.next_serial();
        assert!(serial > last);
        last = serial;
    }
}

#[test]
fn small_enums_compare() {
    assert_ne!(KeyState::Pressed, KeyState::Released);
    assert_ne!(ButtonState::Pressed, ButtonState::Released);
    assert_ne!(Axis::Vertical, Axis::Horizontal);
    assert_ne!(AxisRelativeDirection::Identical, AxisRelativeDirection::Inverted);
    assert_ne!(WindowDecorations::ServerDefault, WindowDecorations::ClientOnly);
    assert_ne!(WindowDecorations::RequestServer, WindowDecorations::RequestClient);
    assert_eq!(WindowDecorations::Undecorated, WindowDecorations::Undecorated);
}

#[test]
fn scroll_sources_map_to_devices() {
    assert_eq!(AxisSource::Finger.device(), ScrollDevice::Trackpad);
    assert_eq!(AxisSource::Continuous.device(), ScrollDevice::Trackpad);
    assert_eq!(AxisSource::Wheel.device(), ScrollDevice::Mouse);
    assert_eq!(AxisSource::WheelTilt.device(), ScrollDevice::Mouse);
}

#[test]
fn axis_frame_keeps_its_first_time() {
    let mut frame = AxisFrame::default();
    assert_eq!(frame.time, 0);
    assert_eq!(frame.source, AxisSource::Wheel);
    frame.time(17);
    frame.time(99);
    assert_eq!(frame.time, 17);
}

#[test]
fn axis_frame_is_taken_once() {
    let mut frame = AxisFrame::default();
    assert_eq!(frame.take(), None);
    let scroll = AxisScroll {
        absolute: 15.0f64.to_bits(),
        v120: 120,
        relative_direction: AxisRelativeDirection::Inverted,
    };
    frame.set_axis(Axis::Vertical, scroll);
    frame.time(5);
    assert_eq!(frame.axis(Axis::Vertical), scroll);
    assert_eq!(frame.axis(Axis::Horizontal), AxisFrame::default().horizontal);
    let taken = frame.take().unwrap();
    assert_eq!(taken.vertical, scroll);
    assert_eq!(taken.time, 5);
    assert_eq!(frame, AxisFrame::default());
    assert_eq!(frame.take(), None);
}

#[test]
fn horizontal_axis_is_set() {
    let mut frame = AxisFrame::default();
    let scroll = AxisScroll {
        absolute: 1.0f64.to_bits(),
        v120: -120,
        relative_direction: AxisRelativeDirection::Identical,
    };
    frame.set_axis(Axis::Horizontal, scroll);
    assert_eq!(frame.horizontal, scroll);
    assert_eq!(frame.vertical, AxisFrame::default().vertical);
}

#[test]
fn offsets_go_with_the_attach_before_version_five() {
    assert_eq!(
        attach(4, 3, 9),
        Attach { x: 3, y: 9, send_offset: false, offset_x: 3, offset_y: 9 }
    );
    assert_eq!(
        attach(5, 3, 9),
        Attach { x: 0, y: 0, send_offset: true, offset_x: 3, offset_y: 9 }
    );
}

#[test]
fn requests_need_their_version() {
    assert_eq!(supported(1, TRANSFORM_SINCE), Err(Unsupported));
    assert_eq!(supported(2, TRANSFORM_SINCE), Ok(()));
    assert_eq!(supported(2, SCALE_SINCE), Err(Unsupported));
    assert_eq!(supported(3, SCALE_SINCE), Ok(()));
    assert_eq!(supported(4, OFFSET_SINCE), Err(Unsupported));
    assert_eq!(supported(6, OFFSET_SINCE), Ok(()));
}

#[test]
fn decoration_requests() {
    assert_eq!(decoration_request(Some(DecorationMode::Client)), DecorationRequest::ClientSide);
    assert_eq!(decoration_request(Some(DecorationMode::Server)), DecorationRequest::ServerSide);
    assert_eq!(decoration_request(None), DecorationRequest::Unset);
}

#[test]
fn window_states_are_read_from_four_byte_numbers() {
    let mut bytes = Vec::new();
    for code in [1u32, 4, 8] {
        bytes.extend(code.to_le_bytes());
    }
    let state = WindowState::decode(&bytes);
    assert_eq!(
        state,
        WindowState { maximized: true, activated: true, tiled_bottom: true, ..no_state() }
    );
    assert!(state.is_maximized());
    assert!(state.is_activated());
    assert!(!state.is_fullscreen());
    assert!(!state.is_resizing());
    assert!(!state.is_tiled());
}

#[test]
fn unknown_states_and_stray_bytes_are_passed_over() {
    let mut bytes = Vec::new();
    for code in [0u32, 77, 2, 9, 0x0100_0003] {
        bytes.extend(code.to_le_bytes());
    }
    bytes.extend([3u8, 0, 0]);
    assert_eq!(
        WindowState::decode(&bytes),
        WindowState { fullscreen: true, suspended: true, ..no_state() }
    );
    assert_eq!(WindowState::decode(&[]), no_state());
    assert_eq!(WindowState::decode(&[1, 0, 0]), no_state());
}

#[test]
fn tiled_on_all_sides() {
    let mut bytes = Vec::new();
    for code in [5u32, 6, 7, 8, 3] {
        bytes.extend(code.to_le_bytes());
    }
    let state = WindowState::decode(&bytes);
    assert!(state.is_tiled());
    assert!(state.is_resizing());
}

#[test]
fn suggested_dimensions() {
    assert_eq!(suggested_dimension(640), Some(640));
    assert_eq!(suggested_dimension(0), None);
    assert_eq!(suggested_dimension(-5), None);
    assert_eq!(suggested_dimension(i32::MAX), Some(i32::MAX as u32));
    assert_eq!(suggested_bounds(0, 0), None);
    assert_eq!(suggested_bounds(1920, 1080), Some((1920, 1080)));
    assert_eq!(suggested_bounds(0, 1080), Some((0, 1080)));
}

#[test]
fn configured_size_falls_back() {
    assert_eq!(configured_size(None, None, None), Size { width: 800, height: 600 });
    assert_eq!(configured_size(None, Some(1024), None), Size { width: 1024, height: 600 });
    let previous = Some(Size { width: 300, height: 200 });
    assert_eq!(configured_size(previous, None, None), Size { width: 300, height: 200 });
    assert_eq!(configured_size(previous, None, Some(50)), Size { width: 300, height: 50 });
    assert_eq!(configured_size(previous, Some(7), Some(8)), Size { width: 7, height: 8 });
}

#[test]
fn physical_size_rounds_to_nearest() {
    assert_eq!(
        physical_size((800.0f64 * 1.25).to_bits(), (601.0f64 * 1.25).to_bits()),
        Size { width: 1000, height: 751 }
    );
    assert_eq!(
        physical_size((-1.0f64).to_bits(), 1e20f64.to_bits()),
        Size { width: 0, height: u32::MAX }
    );
}

#[test]
fn pool_sizes() {
    assert_eq!(pool_size(3200, 600), Some(1_920_000));
    assert_eq!(pool_size(0, 600), Some(0));
    assert_eq!(pool_size(65536, 32768), None);
    assert_eq!(pool_size(65536, 32767), Some(2147418112));
    assert_eq!(pool_size(-4, 10), None);
    assert_eq!(pool_size(-4, -10), Some(40));
    assert_eq!(pool_size(i32::MIN, i32::MIN), None);
}

#[test]
fn shared_memory_retries() {
    assert_eq!(after_failure(ShmSource::Memfd, ShmFailure::Interrupted), ShmRetry::Again);
    assert_eq!(after_failure(ShmSource::Named, ShmFailure::Interrupted), ShmRetry::Again);
    assert_eq!(after_failure(ShmSource::Memfd, ShmFailure::NotSupported), ShmRetry::Fallback);
    assert_eq!(after_failure(ShmSource::Named, ShmFailure::NotSupported), ShmRetry::GiveUp);
    assert_eq!(after_failure(ShmSource::Named, ShmFailure::Exists), ShmRetry::Rename);
    assert_eq!(after_failure(ShmSource::Memfd, ShmFailure::Exists), ShmRetry::GiveUp);
    assert_eq!(after_failure(ShmSource::Memfd, ShmFailure::Other), ShmRetry::GiveUp);
    assert_eq!(after_failure(ShmSource::Named, ShmFailure::Other), ShmRetry::GiveUp);
}

fn no_capabilities() -> WindowManagerCapabilities {
    WindowManagerCapabilities { window_menu: false, maximize: false, fullscreen: false, minimize: false }
}

#[test]
fn capabilities_are_read_from_four_byte_numbers() {
    let mut bytes = Vec::new();
    for code in [4u32, 1, 9, 0] {
        bytes.extend(code.to_le_bytes());
    }
    bytes.push(2);
    assert_eq!(
        WindowManagerCapabilities::decode(&bytes),
        WindowManagerCapabilities { window_menu: true, minimize: true, ..no_capabilities() }
    );
    let mut bytes = Vec::new();
    for code in [2u32, 3] {
        bytes.extend(code.to_le_bytes());
    }
    assert_eq!(
        WindowManagerCapabilities::decode(&bytes),
        WindowManagerCapabilities { maximize: true, fullscreen: true, ..no_capabilities() }
    );
    assert_eq!(WindowManagerCapabilities::decode(&[]), no_capabilities());
}

#[test]
fn window_configure_gathers_events() {
    let mut configure = WindowConfigure {
        new_size: (None, None),
        suggested_bounds: None,
        decoration_mode: DecorationMode::Client,
        state: no_state(),
        capabilities: no_capabilities(),
    };
    let mut states = Vec::new();
    for code in [2u32, 5, 6, 7, 8] {
        states.extend(code.to_le_bytes());
    }
    configure.configure(1280, 0, &states);
    assert_eq!(configure.new_size, (Some(1280), None));
    assert!(configure.is_fullscreen());
    assert!(configure.is_tiled());
    assert!(configure.is_tiled_left());
    assert!(configure.is_tiled_right());
    assert!(configure.is_tiled_top());
    assert!(configure.is_tiled_bottom());
    assert!(!configure.is_maximized());
    assert!(!configure.is_resizing());
    assert!(!configure.is_activated());
    configure.configure_bounds(1920, 1080);
    assert_eq!(configure.suggested_bounds, Some((1920, 1080)));
    configure.wm_capabilities(&2u32.to_le_bytes());
    assert!(configure.capabilities.maximize);
    assert_eq!(configure.new_size, (Some(1280), None));
    configure.configure(-1, 720, &[]);
    assert_eq!(configure.new_size, (None, Some(720)));
    assert_eq!(configure.state, no_state());
    configure.configure_bounds(0, 0);
    assert_eq!(configure.suggested_bounds, None);
    assert_eq!(configure.decoration_mode, DecorationMode::Client);
}
