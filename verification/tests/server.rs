use lamco_rdp_server::egfx::handler::{CapabilitySet, LamcoGraphicsHandler};
use lamco_rdp_server::server::display_handler::{
    convert_to_iron_format, stream_configs, stream_opened, BitmapData, BitmapUpdate, CaptureFormat,
    CaptureStart, ClientMonitor, DesktopSize, IronPixelFormat, LamcoDisplayHandler, LayoutDecision, RdpPixelFormat, Rectangle,
    ResizeRequest, StreamReply,
};
use lamco_rdp_server::config::DisplayConfig;
use lamco_rdp_server::server::egfx_sender::{
    damage_regions_to_avc420, dump_path, Avc420Region, DamageRegion, Delivery, EgfxFrameSender,
    FrameRequest, PlanarError, SendError, ServerReply,
};
use lamco_rdp_server::server::gfx_factory::{
    retry_pause, CompressionMode, HandlerState, LamcoGfxFactory, RetryPause,
};
use lamco_rdp_server::server::input_handler::{
    handle_keyboard_event, handle_mouse_event, is_power_of_two, key_translated, move_translated,
    portal_err, unicode_to_evdev, unicode_to_keysym, Float64, InjectionNotice, InputError,
    InputEvent, KeyInjection, KeyboardEvent, KeyboardStep, LamcoInputHandler, MouseButton,
    MouseEvent, MouseStep, TranslatedKey, TranslatedMove,
};
use lamco_rdp_server::server::nal::{nal_summary, nal_units};
use lamco_rdp_server::server::padding::{align_to_16, pad_frame_to_aligned};
use lamco_rdp_server::session::strategy::StreamInfo;

#[test]
fn unicode_to_keysym_maps_bmp_cjk_to_xkb_unicode_keysym() {
    assert_eq!(unicode_to_keysym('中' as u16), Some(0x0100_4E2D));
    assert_eq!(unicode_to_keysym('文' as u16), Some(0x0100_6587));
}

#[test]
fn unicode_to_keysym_keeps_latin1_keysyms_direct() {
    assert_eq!(unicode_to_keysym('é' as u16), Some(0x00E9));
}

#[test]
fn unicode_to_keysym_rejects_surrogate_code_units() {
    assert_eq!(unicode_to_keysym(0xD83D), None);
    assert_eq!(unicode_to_keysym(0xDE00), None);
}

#[test]
fn test_input_handler_clone() {
    let mut handler = LamcoInputHandler::new(7, 100);
    handler.receive(InputEvent::Mouse(MouseEvent::LeftPressed));
    let copy = handler.clone();
    assert_eq!(copy.mouse_batch, handler.mouse_batch);
    assert_eq!(copy.primary_stream_id, 7);
    assert_eq!(copy.flush_due_at(), 110);
}

#[test]
fn control_characters_have_no_keysym() {
    assert_eq!(unicode_to_keysym(0x1F), None);
    assert_eq!(unicode_to_keysym(0x7F), None);
    assert_eq!(unicode_to_keysym(0x9F), None);
    assert_eq!(unicode_to_keysym(0x20), Some(0x20));
    assert_eq!(unicode_to_keysym(0xA0), Some(0xA0));
    assert_eq!(unicode_to_keysym(0x100), Some(0x0100_0100));
}

#[test]
fn characters_are_typed_on_the_us_layout() {
    assert_eq!(unicode_to_evdev('a' as u16), Some((30, false)));
    assert_eq!(unicode_to_evdev('A' as u16), Some((30, true)));
    assert_eq!(unicode_to_evdev('z' as u16), Some((44, false)));
    assert_eq!(unicode_to_evdev('0' as u16), Some((11, false)));
    assert_eq!(unicode_to_evdev(')' as u16), Some((11, true)));
    assert_eq!(unicode_to_evdev('\\' as u16), Some((43, false)));
    assert_eq!(unicode_to_evdev('"' as u16), Some((40, true)));
    assert_eq!(unicode_to_evdev('~' as u16), Some((41, true)));
    assert_eq!(unicode_to_evdev('?' as u16), Some((53, true)));
    assert_eq!(unicode_to_evdev(' ' as u16), Some((57, false)));
    assert_eq!(unicode_to_evdev(0x09), Some((15, false)));
    assert_eq!(unicode_to_evdev(0x0A), Some((28, false)));
    assert_eq!(unicode_to_evdev(0x0D), Some((28, false)));
    assert_eq!(unicode_to_evdev('é' as u16), None);
    assert_eq!(unicode_to_evdev(0x1B), None);
}

#[test]
fn every_ascii_character_has_its_own_key() {
    let mut seen: Vec<(u32, bool)> = Vec::new();
    for cp in 0x20u16..=0x7E {
        let key = unicode_to_evdev(cp).expect("printable characters have a key");
        assert!(!seen.contains(&key));
        seen.push(key);
    }
    assert_eq!(seen.len(), 95);
}

fn injected(step: KeyboardStep) -> Vec<KeyInjection> {
    match step {
        KeyboardStep::Inject(keys) => keys,
        KeyboardStep::Translate { .. } => panic!("nothing to translate"),
    }
}

#[test]
fn shift_is_held_round_a_key() {
    let pressed = injected(handle_keyboard_event(KeyboardEvent::UnicodePressed('A' as u16)));
    let released = injected(handle_keyboard_event(KeyboardEvent::UnicodeReleased('A' as u16)));
    assert_eq!(
        pressed,
        vec![
            KeyInjection::Keycode { code: 42, pressed: true },
            KeyInjection::Keycode { code: 30, pressed: true },
        ]
    );
    assert_eq!(
        released,
        vec![
            KeyInjection::Keycode { code: 30, pressed: false },
            KeyInjection::Keycode { code: 42, pressed: false },
        ]
    );
}

#[test]
fn other_characters_go_by_keysym_or_not_at_all() {
    assert_eq!(
        injected(handle_keyboard_event(KeyboardEvent::UnicodePressed('中' as u16))),
        vec![KeyInjection::Keysym { sym: 0x0100_4E2D, pressed: true }]
    );
    assert!(injected(handle_keyboard_event(KeyboardEvent::UnicodePressed(0xD83D))).is_empty());
    assert!(injected(handle_keyboard_event(KeyboardEvent::Synchronize(3))).is_empty());
}

#[test]
fn scan_codes_go_to_the_translator() {
    match handle_keyboard_event(KeyboardEvent::Pressed { code: 0x2F, extended: true }) {
        KeyboardStep::Translate { code, extended, pressed } => {
            assert_eq!((code, extended, pressed), (0x2F, true, true));
        }
        KeyboardStep::Inject(_) => panic!("a scan code is translated"),
    }
    let down = key_translated(true, Ok(TranslatedKey::KeyRepeat { keycode: 47 }));
    assert!(matches!(down, Ok(KeyInjection::Keycode { code: 47, pressed: true })));
    let odd = key_translated(true, Ok(TranslatedKey::KeyUp { keycode: 47 }));
    assert!(matches!(odd, Ok(KeyInjection::Keycode { code: 47, pressed: true })));
    let up = key_translated(false, Ok(TranslatedKey::KeyUp { keycode: 47 }));
    assert!(matches!(up, Ok(KeyInjection::Keycode { code: 47, pressed: false })));
    match key_translated(false, Ok(TranslatedKey::KeyDown { keycode: 47 })) {
        Err(InputError::InvalidKeyEvent(t)) => assert_eq!(t, "Unexpected event type"),
        _ => panic!("a release must be answered with a release"),
    }
    let refused = key_translated(false, Err(InputError::Untranslatable("no".to_string())));
    assert!(matches!(refused, Err(InputError::Untranslatable(_))));
    assert!(matches!(portal_err("x".to_string()), InputError::PortalError(t) if t == "x"));
}

#[test]
fn mouse_events_ask_for_what_they_need() {
    assert_eq!(
        handle_mouse_event(MouseEvent::Move { x: 3, y: 4 }),
        MouseStep::Locate { x: 3, y: 4 }
    );
    assert_eq!(
        handle_mouse_event(MouseEvent::RelMove { x: -3, y: 4 }),
        MouseStep::Displace { dx: -3, dy: 4 }
    );
    assert_eq!(
        handle_mouse_event(MouseEvent::Button5Released),
        MouseStep::Button { button: MouseButton::Extra2, code: 276, pressed: false }
    );
    assert_eq!(
        handle_mouse_event(MouseEvent::MiddlePressed),
        MouseStep::Button { button: MouseButton::Middle, code: 274, pressed: true }
    );
    assert_eq!(
        handle_mouse_event(MouseEvent::VerticalScroll { value: -120 }),
        MouseStep::Scroll { x: 0, y: -120 }
    );
    let at = TranslatedMove::Move { x: Float64 { bits: 1 }, y: Float64 { bits: 2 } };
    assert!(matches!(move_translated(Ok(at)), Ok((Float64 { bits: 1 }, Float64 { bits: 2 }))));
    assert!(matches!(
        move_translated(Ok(TranslatedMove::Other)),
        Err(InputError::InvalidMouseEvent(t)) if t == "Unexpected event type"
    ));
}

#[test]
fn flush_sends_keys_before_moves() {
    let mut handler = LamcoInputHandler::new(1, 0);
    let key = KeyboardEvent::Synchronize(0);
    handler.receive(InputEvent::Mouse(MouseEvent::LeftPressed));
    handler.receive(InputEvent::Keyboard(key));
    handler.receive(InputEvent::Mouse(MouseEvent::LeftReleased));
    assert_eq!(
        handler.flush(50),
        vec![
            InputEvent::Keyboard(key),
            InputEvent::Mouse(MouseEvent::LeftPressed),
            InputEvent::Mouse(MouseEvent::LeftReleased),
        ]
    );
    assert!(handler.flush(60).is_empty());
    assert_eq!(handler.flush_due_at(), 70);
}

#[test]
fn failures_are_logged_ever_more_rarely() {
    let mut handler = LamcoInputHandler::new(1, 0);
    let event = InputEvent::Mouse(MouseEvent::LeftPressed);
    let notices: Vec<InjectionNotice> = (0..5).map(|_| handler.injected(event, false)).collect();
    assert_eq!(
        notices,
        vec![
            InjectionNotice::Failed,
            InjectionNotice::StillFailing(2),
            InjectionNotice::Silent,
            InjectionNotice::StillFailing(4),
            InjectionNotice::Silent,
        ]
    );
    assert_eq!(handler.injected(event, true), InjectionNotice::Recovered(5));
    assert_eq!(handler.injected(event, true), InjectionNotice::Silent);
    assert_eq!(handler.keyboard_failures.count, 0);
    handler.keyboard_failures.count = u64::MAX;
    assert_eq!(handler.injected(event, false), InjectionNotice::Failed);
    assert!(is_power_of_two(1 << 40));
    assert!(!is_power_of_two(0));
    assert!(!is_power_of_two(6));
}

#[test]
fn test_pixel_format_conversion() {
    let formats = vec![(RdpPixelFormat::BgrX32, IronPixelFormat::BgrX32)];
    for (our_format, iron_format) in formats {
        let our_bpp = match our_format {
            RdpPixelFormat::BgrX32 => 4,
            RdpPixelFormat::Bgr24 => 3,
            RdpPixelFormat::Rgb16 => 2,
            RdpPixelFormat::Rgb15 => 2,
        };
        let iron_bpp = iron_format.bytes_per_pixel();
        assert_eq!(our_bpp, iron_bpp);
        assert_eq!(our_format.iron_format(), iron_format);
    }
}

#[test]
fn test_bitmap_data_structure() {
    let rect = Rectangle::new(0, 0, 100, 100);
    let data = BitmapData {
        rectangle: rect,
        format: RdpPixelFormat::BgrX32,
        data: vec![0u8; 100 * 100 * 4],
        compressed: false,
    };
    assert_eq!(data.rectangle.left, 0);
    assert_eq!(data.rectangle.top, 0);
    assert_eq!(data.rectangle.right, 100);
    assert_eq!(data.rectangle.bottom, 100);
    assert_eq!(data.data.len(), 100 * 100 * 4);
}

fn bitmap(left: u16, top: u16, right: u16, bottom: u16, format: RdpPixelFormat) -> BitmapData {
    BitmapData {
        rectangle: Rectangle::new(left, top, right, bottom),
        format,
        data: vec![1, 2, 3],
        compressed: false,
    }
}

#[test]
fn pictures_become_protocol_updates() {
    let update = BitmapUpdate {
        rectangles: vec![
            bitmap(10, 20, 110, 70, RdpPixelFormat::BgrX32),
            bitmap(0, 0, 1, 1, RdpPixelFormat::Bgr24),
            bitmap(0, 0, 1, 1, RdpPixelFormat::Rgb15),
        ],
    };
    let updates = convert_to_iron_format(&update).unwrap();
    assert_eq!(updates.len(), 3);
    assert_eq!((updates[0].x, updates[0].y), (10, 20));
    assert_eq!((updates[0].width, updates[0].height), (100, 50));
    assert_eq!(updates[0].stride, 400);
    assert_eq!(updates[0].data, vec![1, 2, 3]);
    assert_eq!(updates[1].format, IronPixelFormat::XBgr32);
    assert_eq!(updates[2].format, IronPixelFormat::XRgb32);
}

#[test]
fn pictures_without_pixels_are_refused() {
    let flat = BitmapUpdate { rectangles: vec![bitmap(5, 5, 9, 5, RdpPixelFormat::BgrX32)] };
    assert_eq!(convert_to_iron_format(&flat).unwrap_err(), "Invalid height: 0");
    let crossed = BitmapUpdate { rectangles: vec![bitmap(9, 5, 5, 5, RdpPixelFormat::BgrX32)] };
    assert_eq!(
        convert_to_iron_format(&crossed).unwrap_err(),
        "Invalid stride calculation: width=0"
    );
}

fn display_config(allow_resize: bool, allowed: Vec<&str>) -> DisplayConfig {
    DisplayConfig {
        allow_resize,
        allowed_resolutions: allowed.into_iter().map(|s| s.to_string()).collect(),
        dpi_aware: false,
        allow_rotation: false,
    }
}

fn monitor(is_primary: bool, width: u32, height: u32) -> ClientMonitor {
    ClientMonitor { is_primary, width, height }
}

#[test]
fn layouts_are_decided_by_the_primary_monitor() {
    let handler = display(1920, 1080);
    let config = display_config(true, vec![]);
    let both = vec![monitor(false, 800, 600), monitor(true, 1601, 900)];
    assert_eq!(
        handler.request_layout(&both, &config, true),
        LayoutDecision::Resize(ResizeRequest { width: 1600, height: 900 })
    );
    let first = vec![monitor(false, 100, 9000)];
    assert_eq!(
        handler.request_layout(&first, &config, true),
        LayoutDecision::Resize(ResizeRequest { width: 200, height: 8192 })
    );
}

#[test]
fn layouts_may_be_refused() {
    let handler = display(1920, 1080);
    let open = display_config(true, vec![]);
    let same = vec![monitor(true, 1920, 1080)];
    assert_eq!(handler.request_layout(&vec![], &open, true), LayoutDecision::Empty);
    assert_eq!(
        handler.request_layout(&same, &display_config(false, vec![]), true),
        LayoutDecision::Disabled
    );
    assert_eq!(
        handler.request_layout(&vec![monitor(true, 3842, 2400)], &open, true),
        LayoutDecision::TooLarge
    );
    assert_eq!(
        handler.request_layout(&vec![monitor(true, 3840, 2400)], &open, true),
        LayoutDecision::Resize(ResizeRequest { width: 3840, height: 2400 })
    );
    assert_eq!(handler.request_layout(&same, &open, true), LayoutDecision::Unchanged);
    assert_eq!(
        handler.request_layout(&same, &open, false),
        LayoutDecision::Resize(ResizeRequest { width: 1920, height: 1080 })
    );
    let listed = display_config(true, vec!["1280x720"]);
    assert_eq!(handler.request_layout(&same, &listed, true), LayoutDecision::NotAllowed);
    assert_eq!(
        handler.request_layout(&vec![monitor(true, 1280, 720)], &listed, true),
        LayoutDecision::Resize(ResizeRequest { width: 1280, height: 720 })
    );
}

fn stream(node_id: u32, width: u32, height: u32) -> StreamInfo {
    StreamInfo { node_id, width, height, position_x: 0, position_y: 0 }
}

fn display(width: u16, height: u16) -> LamcoDisplayHandler {
    LamcoDisplayHandler::new(width, height, Vec::new(), CaptureStart::Streams(Vec::new())).unwrap()
}

#[test]
fn displays_need_all_their_streams() {
    let no_thread = CaptureStart::NoThread("no memory".to_string());
    assert_eq!(
        LamcoDisplayHandler::new(1, 1, Vec::new(), no_thread).unwrap_err(),
        "Failed to create PipeWire thread: no memory"
    );
    let refused = CaptureStart::Streams(vec![
        StreamReply::Opened,
        StreamReply::Refused("busy".to_string()),
        StreamReply::TimedOut,
    ]);
    assert_eq!(
        LamcoDisplayHandler::new(1, 1, Vec::new(), refused).unwrap_err(),
        "Stream creation failed: busy"
    );
    let opened = CaptureStart::Streams(vec![StreamReply::Opened]);
    let display = LamcoDisplayHandler::new(3, 4, vec![stream(41, 3, 4)], opened).unwrap();
    assert_eq!((display.size.width, display.size.height), (3, 4));
    assert_eq!(display.streams.len(), 1);
    assert!(!display.direct_channel_mode && display.egfx_needs_init);
}

#[test]
fn streams_are_opened_by_monitor() {
    let configs = stream_configs(&vec![stream(41, 640, 480), stream(42, 800, 600)]);
    assert_eq!(configs[0].0, 41);
    assert_eq!(configs[1].0, 42);
    assert_eq!(configs[1].1.name, "monitor-1");
    assert_eq!(configs[1].1.width, 800);
    assert_eq!(configs[1].1.framerate, 60);
    assert_eq!(configs[1].1.buffer_count, 3);
    assert!(configs[1].1.use_dmabuf);
    assert_eq!(configs[1].1.preferred_format, CaptureFormat::BgrX);
    assert_eq!(stream_opened(&StreamReply::Opened), Ok(()));
    assert_eq!(stream_opened(&StreamReply::TimedOut), Err("Timeout creating stream".to_string()));
    assert_eq!(
        stream_opened(&StreamReply::Refused("busy".to_string())),
        Err("Stream creation failed: busy".to_string())
    );
    assert_eq!(
        stream_opened(&StreamReply::NotSent("gone".to_string())),
        Err("Failed to send create stream command: gone".to_string())
    );
}

fn ready_state() -> HandlerState {
    HandlerState {
        is_ready: true,
        is_avc420_enabled: true,
        is_avc444_enabled: true,
        needs_android_pointer_updates: false,
        primary_surface_id: Some(0),
        dvc_channel_id: 5,
    }
}

#[test]
fn display_waits_for_its_graphics_channel() {
    let mut handler = LamcoDisplayHandler::new_direct(800, 600, vec![stream(1, 800, 600)]);
    assert!(handler.direct_channel_mode);
    assert_eq!(handler.egfx_wait_reason(), "waiting for client connection");
    handler.set_server_event_sender();
    assert_eq!(handler.egfx_wait_reason(), "client connected, waiting for EGFX channel");
    handler.has_gfx_server = true;
    assert_eq!(handler.egfx_wait_reason(), "EGFX channel open, initializing handler state");
    handler.gfx_state = Some(HandlerState::default());
    assert_eq!(handler.egfx_wait_reason(), "EGFX channel open, negotiating capabilities");
    assert!(!handler.is_egfx_ready());
    handler.gfx_state = Some(HandlerState { is_avc420_enabled: false, ..ready_state() });
    assert_eq!(handler.egfx_wait_reason(), "EGFX ready, no AVC420 - using bitmap fallback");
    handler.gfx_state = Some(ready_state());
    assert_eq!(handler.egfx_wait_reason(), "ready");
    assert!(handler.is_egfx_ready());
    assert!(handler.is_avc_supported());
}

#[test]
fn returning_client_resets_the_display() {
    let mut handler = display(800, 600);
    let first = handler.updates();
    assert!(!first.reconnected);
    assert!(handler.is_client_active());
    handler.has_gfx_server = true;
    handler.gfx_state = Some(ready_state());
    handler.egfx_needs_init = false;
    handler.on_client_disconnect();
    assert!(!handler.is_client_active());
    let second = handler.updates();
    assert!(second.reconnected);
    assert_eq!(second.converter_size, DesktopSize { width: 800, height: 600 });
    assert!(handler.egfx_needs_init);
    assert!(handler.gfx_state.is_none());
    assert!(!handler.has_gfx_server);
    handler.reset_update_channel();
    assert!(!handler.updates().reconnected);
    assert_eq!(handler.update_size(1, 2), DesktopSize { width: 1, height: 2 });
    assert_eq!(handler.size, DesktopSize { width: 1, height: 2 });
}

#[test]
fn test_send_error_display() {
    assert_eq!(SendError::NotReady.to_text(), "EGFX channel not ready");
    assert_eq!(SendError::Avc420NotSupported.to_text(), "AVC420 not supported by client");
    assert_eq!(SendError::Backpressure.to_text(), "Frame dropped due to backpressure");
}

#[test]
fn other_send_errors_in_words() {
    assert_eq!(SendError::NoSurface.to_text(), "No primary surface available");
    assert_eq!(SendError::ChannelClosed.to_text(), "Server event channel closed");
    assert_eq!(SendError::LockFailed.to_text(), "Failed to acquire lock");
    assert_eq!(
        SendError::EncodingFailed("bad".to_string()).to_text(),
        "DVC encoding failed: bad"
    );
}

#[test]
fn frames_need_a_negotiated_channel() {
    let sender = EgfxFrameSender::new();
    let send = |state: Option<HandlerState>| sender.send_frame(&state, vec![1], 10, 10, 5);
    assert!(matches!(send(None), Err(SendError::NotReady)));
    assert!(matches!(
        send(Some(HandlerState { is_ready: false, ..ready_state() })),
        Err(SendError::NotReady)
    ));
    assert!(matches!(
        send(Some(HandlerState { is_avc420_enabled: false, ..ready_state() })),
        Err(SendError::Avc420NotSupported)
    ));
    assert!(matches!(
        send(Some(HandlerState { primary_surface_id: None, ..ready_state() })),
        Err(SendError::NoSurface)
    ));
    match send(Some(ready_state())) {
        Ok(FrameRequest::Avc420 { surface_id, data, regions, timestamp_ms }) => {
            assert_eq!(surface_id, 0);
            assert_eq!(data, vec![1]);
            assert_eq!(timestamp_ms, 5);
            assert_eq!(
                regions,
                vec![Avc420Region {
                    left: 0,
                    top: 0,
                    right: 10,
                    bottom: 10,
                    quantization_parameter: 22,
                    quality: 100,
                }]
            );
        }
        _ => panic!("the frame is sent"),
    }
    let plain = Some(HandlerState { is_avc420_enabled: false, ..ready_state() });
    assert!(sender.send_uncompressed_frame(&plain, vec![9], 1, 1, 0).is_ok());
    assert!(!sender.is_ready(&plain));
    assert!(!sender.is_avc444_supported(&plain));
    assert!(sender.is_egfx_ready(&plain));
    assert_eq!(sender.primary_surface_id(&plain), Some(0));
    assert_eq!(sender.primary_surface_id(&None), None);
}

#[test]
fn changed_parts_are_cut_to_the_display() {
    let regions = damage_regions_to_avc420(
        &vec![
            DamageRegion { x: 10, y: 20, width: 30, height: 40 },
            DamageRegion { x: 90, y: 90, width: 30, height: 40 },
            DamageRegion { x: 100, y: 0, width: 5, height: 5 },
        ],
        100,
        100,
    );
    assert_eq!(regions.len(), 2);
    assert_eq!((regions[0].left, regions[0].right), (10, 39));
    assert_eq!((regions[0].top, regions[0].bottom), (20, 59));
    assert_eq!((regions[1].left, regions[1].right), (90, 99));
    assert_eq!((regions[1].top, regions[1].bottom), (90, 99));
    assert_eq!(DamageRegion::full_frame(3, 4).area(), 12);
}

#[test]
fn frames_without_named_parts_go_whole() {
    let sender = EgfxFrameSender::new();
    let state = Some(ready_state());
    let whole = sender.send_frame_with_regions(&state, vec![], (112, 112), (100, 100), &vec![], 0);
    match whole {
        Ok(FrameRequest::Avc420 { regions, .. }) => assert_eq!(regions[0].right, 112),
        _ => panic!("the frame is sent"),
    }
    let parts = vec![DamageRegion::full_frame(100, 100)];
    let dual = sender.send_avc444_frame_with_regions(
        &state,
        vec![1],
        Some(vec![2]),
        (112, 112),
        (100, 100),
        &parts,
        0,
    );
    match dual {
        Ok(FrameRequest::Avc444 { luma_regions, chroma, chroma_regions, .. }) => {
            assert_eq!(luma_regions[0].right, 99);
            assert_eq!(chroma, Some(vec![2]));
            assert_eq!(chroma_regions, Some(luma_regions));
        }
        _ => panic!("the frame is sent"),
    }
    let single = sender.send_avc444_frame_with_regions(
        &state,
        vec![1],
        None,
        (112, 112),
        (100, 100),
        &parts,
        0,
    );
    assert!(matches!(
        single,
        Ok(FrameRequest::Avc444 { chroma: None, chroma_regions: None, .. })
    ));
    let full = sender.send_avc444_frame(&state, vec![1], vec![2], 7, 8, 3);
    match full {
        Ok(FrameRequest::Avc444 { luma_regions, timestamp_ms, .. }) => {
            assert_eq!((luma_regions[0].right, luma_regions[0].bottom), (7, 8));
            assert_eq!(timestamp_ms, 3);
        }
        _ => panic!("the frame is sent"),
    }
}

#[test]
fn planes_are_run_length_encoded() {
    let sender = EgfxFrameSender::new();
    let state = Some(ready_state());
    let pixels = vec![7u8; 64 * 4 * 4];
    match sender.send_planar_frame(&state, 64, 4, &pixels, 64, 4, 9) {
        Ok(FrameRequest::Planar { surface_id, data, width, height, timestamp_ms }) => {
            assert_eq!((surface_id, width, height, timestamp_ms), (0, 64, 4, 9));
            assert_eq!(data[0], 0x30);
            assert!(data.len() < 64);
        }
        _ => panic!("the frame is sent"),
    }
    match sender.send_planar_frame(&state, 64, 4, &vec![7u8; 16], 64, 4, 9) {
        Err(SendError::EncodingFailed(t)) => {
            assert_eq!(t, "Planar encode: failed to rle compress");
        }
        _ => panic!("there are too few pixels"),
    }
    match sender.planes_encoded(&state, Err(PlanarError::Header), 1, 1, 0) {
        Err(SendError::EncodingFailed(t)) => assert_eq!(t, "Planar encode: failed to encode pdu"),
        _ => panic!("the error is handed on"),
    }
    assert!(matches!(
        sender.send_planar_frame(&None, 64, 4, &pixels, 64, 4, 9),
        Err(SendError::NotReady)
    ));
}

#[test]
fn only_frames_that_went_out_are_counted() {
    let mut sender = EgfxFrameSender::new();
    assert!(matches!(sender.finish(ServerReply::LockFailed), Err(SendError::LockFailed)));
    assert!(matches!(sender.finish(ServerReply::NoChannel), Err(SendError::NotReady)));
    assert!(matches!(sender.finish(ServerReply::Refused), Err(SendError::Backpressure)));
    let closed = ServerReply::Queued { frame_id: 1, delivery: Delivery::Closed };
    assert!(matches!(sender.finish(closed), Err(SendError::ChannelClosed)));
    let failed =
        ServerReply::Queued { frame_id: 1, delivery: Delivery::EncodeFailed("e".to_string()) };
    assert!(matches!(sender.finish(failed), Err(SendError::EncodingFailed(t)) if t == "e"));
    assert_eq!(sender.frames_sent(), 0);
    let silent = ServerReply::Queued { frame_id: 3, delivery: Delivery::NoMessages };
    assert!(matches!(sender.finish(silent), Ok(3)));
    let sent = ServerReply::Queued { frame_id: 4, delivery: Delivery::Delivered };
    assert!(matches!(sender.finish(sent), Ok(4)));
    assert_eq!(sender.frames_sent(), 2);
}

#[test]
fn first_frames_are_dumped() {
    assert_eq!(dump_path(0).as_deref(), Some("/tmp/rdp-frame-0.h264"));
    assert_eq!(dump_path(2).as_deref(), Some("/tmp/rdp-frame-2.h264"));
    assert_eq!(dump_path(3), None);
}

#[test]
fn units_of_a_stream_are_listed() {
    let mut data = vec![0, 0, 0, 1, 0x67, 0x42, 0xC0];
    data.extend([0, 0, 1, 0x68, 0xCE]);
    data.extend([0, 0, 0, 1, 0x65, 1, 2, 3]);
    let units = nal_units(&data);
    assert_eq!(
        nal_summary(&units),
        vec!["SPS(3b,ref=3)[67 42 c0]", "PPS(2b,ref=3)[68 ce]", "IDR(4b,ref=3)"]
    );
    assert!(nal_units(&vec![1, 2, 3]).is_empty());
    assert!(nal_units(&vec![0, 0, 1]).is_empty());
    let mut many = Vec::new();
    for _ in 0..12 {
        many.extend([0, 0, 1, 0x41, 9]);
    }
    let listed = nal_summary(&nal_units(&many));
    assert_eq!(listed.len(), 11);
    assert_eq!(listed[0], "P-slice(2b,ref=2)");
    assert_eq!(listed[10], "...");
}

#[test]
fn pictures_are_padded_by_their_edges() {
    assert_eq!(align_to_16(1), 16);
    assert_eq!(align_to_16(16), 16);
    assert_eq!(align_to_16(1080), 1088);
    let data: Vec<u8> = (0..24).collect();
    let padded = pad_frame_to_aligned(&data, 3, 2, 4, 3);
    assert_eq!(padded.len(), 48);
    assert_eq!(padded[0..12], data[0..12]);
    assert_eq!(padded[12..16], data[8..12]);
    assert_eq!(padded[16..28], data[12..24]);
    assert_eq!(padded[28..32], data[20..24]);
    assert_eq!(padded[32..48], padded[16..32]);
}

#[test]
fn negotiation_decides_on_codecs() {
    let mut handler = LamcoGraphicsHandler::new(800, 600);
    handler.on_ready(CapabilitySet::V8_1 { flags: 0x10 });
    assert!(handler.is_ready() && handler.is_avc420_enabled());
    assert!(!handler.avc444_enabled);
    handler.on_ready(CapabilitySet::V10_7 { flags: 0x02 });
    assert!(handler.avc420_enabled && handler.avc444_enabled);
    handler.on_ready(CapabilitySet::V10_4 { flags: 0x20 });
    assert!(!handler.avc420_enabled && !handler.avc444_enabled);
    assert!(handler.needs_android_pointer_updates);
    handler.on_ready(CapabilitySet::V8 { flags: 0x10 });
    assert!(!handler.avc420_enabled);
    let mut forced = LamcoGraphicsHandler::with_quirks(800, 600, true);
    forced.on_ready(CapabilitySet::V10_1);
    assert!(forced.avc420_enabled && !forced.avc444_enabled);
    for offer in forced.preferred_capabilities() {
        let (_, avc420, _) = offer.codecs();
        assert!(avc420);
    }
}

#[test]
fn shared_state_follows_the_handler() {
    let mut handler = LamcoGraphicsHandler::with_shared_state(800, 600);
    let mut shared = Some(HandlerState { dvc_channel_id: 9, ..HandlerState::default() });
    handler.on_ready(CapabilitySet::V10 { flags: 0 });
    assert!(handler.on_surface_created(3));
    assert!(!handler.on_surface_created(4));
    handler.sync_shared_state(&mut shared);
    let seen = shared.unwrap();
    assert_eq!(seen.primary_surface_id, Some(3));
    assert_eq!(seen.dvc_channel_id, 9);
    assert!(seen.is_ready);
    assert!(!handler.on_surface_deleted(4));
    assert!(handler.on_surface_deleted(3));
    handler.on_close();
    handler.sync_shared_state(&mut shared);
    assert_eq!(
        shared,
        Some(HandlerState {
            is_avc444_enabled: true,
            dvc_channel_id: 9,
            ..HandlerState::default()
        })
    );
    let alone = LamcoGraphicsHandler::new(1, 1);
    let mut untouched = None;
    alone.sync_shared_state(&mut untouched);
    assert_eq!(untouched, None);
    assert_eq!(handler.primary_surface_id(), 3);
    handler.set_dimensions(5, 6);
    assert_eq!(handler.dimensions(), (5, 6));
    assert_eq!(handler.max_frames_in_flight(), 3);
}

#[test]
fn factory_builds_one_handler_for_each_connection() {
    let mut factory = LamcoGfxFactory::with_config(800, 600, true, 7, CompressionMode::Auto);
    factory.shared = Some(HandlerState::default());
    let handler = factory.build_server_with_handle(true);
    assert_eq!(handler.max_frames_in_flight(), 7);
    assert!(handler.shares_state && handler.force_avc420_only);
    assert_eq!(factory.handler_state(), None);
    assert!(!factory.server_handle());
    factory.handle_stored(false);
    assert!(!factory.server_handle());
    factory.handle_stored(true);
    assert!(factory.server_handle());
    factory.build_server_with_handle(false);
    assert!(factory.server_handle());
    assert_eq!(LamcoGfxFactory::new(1, 2).compression_mode, CompressionMode::Never);
    assert_eq!(LamcoGfxFactory::new(1, 2).max_frames_in_flight, 3);
    assert!(!factory.build_gfx_handler().shares_state);
    assert_eq!(retry_pause(0), Some(RetryPause::Yield));
    assert_eq!(retry_pause(10), Some(RetryPause::SleepMs(1)));
    assert_eq!(retry_pause(100), None);
}
