use lamco_rdp_server::gui::state::{DeploymentContext, ServiceLevel};
use lamco_rdp_server::health::HealthEvent;
use lamco_rdp_server::ids::random_session_name;
use lamco_rdp_server::session::strategies::portal_generic::{
    current_time_usec, injection_error, overrides_input_protocol, session_dropped, stream_infos,
    AvailableProtocols, CapturePreference, CaptureProtocol, CapturedStream, DeviceTypes,
    InjectedEvent, Injection, PortalGenericSessionHandle, PortalGenericStrategy,
    ProfileCaptureBackend, SetupStage, SourceType,
};
use lamco_rdp_server::session::strategies::portal_token::{
    InputOperation, PortalSessionHandleImpl, PortalTokenStrategy,
};
use lamco_rdp_server::session::strategies::selector::{
    connector_of, detect_primary_monitor, enumerate_drm_connectors, DrmEntry, Probe, Probes,
    Selection, ServiceRegistry, SessionStrategySelector, StrategyKind, StrategyPlan,
};
use lamco_rdp_server::session::strategy::{
    keysym_unavailable, ClipboardComponents, ClipboardSource, CursorMode, PipeWireAccess,
    SessionConfig, SessionType, StreamInfo,
};

#[test]
fn test_current_time_usec() {
    let time = current_time_usec(
        std::time::SystemTime::now()
            .duration_since(std::time::UNIX_EPOCH)
            .ok()
            .map(|d| (d.as_secs(), d.subsec_nanos())),
    );
    assert!(time > 0);
}

#[test]
fn test_strategy_name() {
    let strategy = PortalGenericStrategy::new();
    assert_eq!(strategy.name(), "portal-generic");
    assert!(!strategy.requires_initial_setup());
    assert!(strategy.supports_unattended_restore());
}

#[test]
fn event_times_are_in_microseconds() {
    assert_eq!(current_time_usec(None), 0);
    assert_eq!(current_time_usec(Some((2, 3_999))), 2_000_003);
    assert_eq!(current_time_usec(Some((0, 999))), 0);
}

#[test]
fn test_portal_token_strategy() {
    let strategy = PortalTokenStrategy::new(true);
    assert_eq!(strategy.name(), "Portal + Restore Token");
    assert!(strategy.requires_initial_setup());
    assert!(strategy.supports_unattended_restore());
    assert!(!PortalTokenStrategy::new(false).supports_unattended_restore());
}

fn registry(deployment: DeploymentContext, direct: ServiceLevel, wlr: ServiceLevel) -> ServiceRegistry {
    ServiceRegistry {
        deployment,
        direct_compositor_api: direct,
        wlr_direct_input: wlr,
        libei_input: ServiceLevel::Guaranteed,
        recommended_strategy: "Portal + Restore Token".to_string(),
        session_persistence: true,
        cursor_modes: vec![CursorMode::Metadata, CursorMode::Hidden],
    }
}

#[test]
fn test_strategy_selector_creation() {
    let selector = SessionStrategySelector::new(registry(
        DeploymentContext::Native,
        ServiceLevel::Unavailable,
        ServiceLevel::Unavailable,
    ));
    let strategy_name = selector.recommended_strategy_name();
    assert_eq!(strategy_name, "Portal + Restore Token");
    assert_eq!(selector.keyboard_layout, "auto");
    assert!(selector.prefers_libei);
}

/// Asks the selector until it has chosen, with the desktop's answers.
fn decide(selector: &SessionStrategySelector, works: &[Probe]) -> (Selection, Vec<Probe>) {
    let mut known = Probes::new();
    let mut asked = Vec::new();
    loop {
        match selector.select_strategy(&known) {
            Selection::Ask(probe) => {
                asked.push(probe);
                known.record(probe, works.contains(&probe));
            }
            decided => return (decided, asked),
        }
    }
}

#[test]
fn flatpak_uses_the_portal() {
    let selector = SessionStrategySelector::new(registry(
        DeploymentContext::Flatpak,
        ServiceLevel::Guaranteed,
        ServiceLevel::Guaranteed,
    ));
    assert_eq!(
        decide(&selector, &[Probe::RemoteDesktop]).0,
        Selection::Use(StrategyKind::PortalToken)
    );
    assert_eq!(
        decide(&selector, &[Probe::ScreenCast]),
        (
            Selection::Use(StrategyKind::ScreenCastOnly),
            vec![Probe::RemoteDesktop, Probe::ScreenCast]
        )
    );
    let (failed, _) = decide(&selector, &[]);
    assert_eq!(
        failed.failure().as_deref(),
        Some("No portal strategy available in Flatpak: RemoteDesktop and ScreenCast both unavailable")
    );
}

#[test]
fn services_use_the_portal_without_asking() {
    for deployment in [DeploymentContext::SystemdUser { linger: true }, DeploymentContext::SystemdSystem] {
        let selector = SessionStrategySelector::new(registry(
            deployment,
            ServiceLevel::Guaranteed,
            ServiceLevel::Guaranteed,
        ));
        assert_eq!(
            decide(&selector, &[]),
            (Selection::Use(StrategyKind::PortalToken), vec![])
        );
    }
}

#[test]
fn desktops_are_tried_in_order() {
    let selector = SessionStrategySelector::new(registry(
        DeploymentContext::Native,
        ServiceLevel::BestEffort,
        ServiceLevel::Guaranteed,
    ));
    assert_eq!(
        decide(&selector, &[Probe::ScreenCast]),
        (
            Selection::Use(StrategyKind::ScreenCastOnly),
            vec![
                Probe::MutterDirect,
                Probe::PortalGeneric,
                Probe::WlrDirect,
                Probe::Libei,
                Probe::RemoteDesktop,
                Probe::ScreenCast,
            ]
        )
    );
    assert_eq!(
        decide(&selector, &[Probe::WlrDirect, Probe::Libei]).0,
        Selection::Use(StrategyKind::WlrDirect)
    );
    assert_eq!(
        decide(&selector, &[Probe::MutterDirect]).0,
        Selection::Use(StrategyKind::MutterDirect)
    );
    let (failed, _) = decide(&selector, &[]);
    assert_eq!(
        failed.failure().as_deref(),
        Some("No session strategy available: all input methods and ScreenCast unavailable")
    );
    assert_eq!(Selection::Ask(Probe::Libei).failure(), None);
}

#[test]
fn preference_for_emulated_input_is_kept() {
    let services = registry(
        DeploymentContext::Native,
        ServiceLevel::Degraded,
        ServiceLevel::Unavailable,
    );
    let selector =
        SessionStrategySelector::with_keyboard_layout(services, "de".to_string()).with_input_protocol(false);
    assert_eq!(selector.keyboard_layout, "de");
    assert_eq!(
        decide(&selector, &[Probe::Libei, Probe::RemoteDesktop, Probe::ScreenCast]).0,
        Selection::Use(StrategyKind::ScreenCastOnly)
    );
    let eager = selector.with_input_protocol(true);
    assert_eq!(
        decide(&eager, &[Probe::RemoteDesktop]).0,
        Selection::Use(StrategyKind::PortalToken)
    );
}

fn entry(name: &str, status: Option<&str>) -> DrmEntry {
    DrmEntry { name: name.to_string(), status: status.map(|s| s.to_string()) }
}

#[test]
fn connectors_come_from_output_names() {
    let connected = Some(" connected\n".to_string());
    assert_eq!(
        connector_of(&"card0-HDMI-A-1".to_string(), &connected).as_deref(),
        Some("HDMI-A-1")
    );
    assert_eq!(connector_of(&"card0".to_string(), &connected), None);
    assert_eq!(connector_of(&"card0-".to_string(), &connected), None);
    assert_eq!(connector_of(&"renderD128-x".to_string(), &connected), None);
    assert_eq!(connector_of(&"card0-DP-1".to_string(), &None), None);
    let entries = vec![
        entry("version", None),
        entry("card1-DP-1", Some("disconnected\n")),
        entry("card1-DP-2", Some("connected\n")),
        entry("card1-eDP-1", Some("connected\n")),
    ];
    assert_eq!(enumerate_drm_connectors(&entries), vec!["DP-2", "eDP-1"]);
    assert_eq!(detect_primary_monitor(&Some(entries)).as_deref(), Some("DP-2"));
    assert_eq!(detect_primary_monitor(&Some(vec![])), None);
    assert_eq!(detect_primary_monitor(&None), None);
}

#[test]
fn session_kinds_in_words() {
    assert_eq!(SessionType::Portal.to_text(), "Portal");
    assert_eq!(SessionType::MutterDirect.to_text(), "Mutter Direct API");
    assert_eq!(SessionType::WlrDirect.to_text(), "wlr-direct");
    assert_eq!(SessionType::Libei.to_text(), "libei/EIS");
    assert_eq!(SessionType::PortalGeneric.to_text(), "portal-generic (embedded)");
    assert_eq!(SessionType::ScreenCastOnly.to_text(), "ScreenCast-only (view-only)");
    assert_eq!(
        keysym_unavailable(),
        "Keyboard keysym injection is not available for this session strategy"
    );
}

#[test]
fn sessions_get_identifiers_of_their_own() {
    let a = SessionConfig::default();
    let b = SessionConfig::default();
    assert!(a.session_id.starts_with("lamco-rdp-"));
    let id = uuid::Uuid::parse_str(&a.session_id["lamco-rdp-".len()..]).unwrap();
    assert_eq!(id.get_version_num(), 4);
    assert_eq!(a.session_id, format!("lamco-rdp-{id}"));
    assert_ne!(random_session_name(), random_session_name());
    assert_ne!(a.session_id, b.session_id);
    assert_eq!(a.cursor_mode, CursorMode::Metadata);
    assert!(a.enable_clipboard && a.monitor_connector.is_none());
    assert_eq!(SessionConfig::with_id("x").session_id, "lamco-rdp-x");
}

#[test]
fn access_to_frames_can_be_shared() {
    assert_eq!(PipeWireAccess::NodeId(4).duplicate(), PipeWireAccess::NodeId(4));
    assert_eq!(
        PipeWireAccess::FileDescriptor(3).duplicate(),
        PipeWireAccess::FileDescriptor(3)
    );
}

#[test]
fn chosen_ways_get_what_they_are_made_from() {
    let services =
        registry(DeploymentContext::Native, ServiceLevel::Guaranteed, ServiceLevel::Guaranteed);
    let selector = SessionStrategySelector::with_keyboard_layout(services, "de".to_string());
    let outputs = Some(vec![
        DrmEntry { name: "card0-HDMI-A-1".to_string(), status: Some("disconnected".to_string()) },
        DrmEntry { name: "card0-DP-2".to_string(), status: Some("connected\n".to_string()) },
    ]);
    assert!(matches!(
        selector.plan(StrategyKind::MutterDirect, &outputs),
        StrategyPlan::MutterDirect { monitor: Some(m) } if m == "DP-2"
    ));
    assert!(matches!(
        selector.plan(StrategyKind::MutterDirect, &None),
        StrategyPlan::MutterDirect { monitor: None }
    ));
    assert!(matches!(
        selector.plan(StrategyKind::WlrDirect, &outputs),
        StrategyPlan::WlrDirect { keyboard_layout } if keyboard_layout == "de"
    ));
    assert!(matches!(
        selector.plan(StrategyKind::ScreenCastOnly, &outputs),
        StrategyPlan::ScreenCastOnly { cursor_modes }
            if cursor_modes == [CursorMode::Metadata, CursorMode::Hidden]
    ));
    assert!(matches!(
        selector.plan(StrategyKind::PortalToken, &outputs),
        StrategyPlan::PortalToken(s) if s.supports_unattended_restore()
    ));
    assert!(matches!(selector.plan(StrategyKind::Libei, &outputs), StrategyPlan::Libei));
    assert!(matches!(
        selector.plan(StrategyKind::PortalGeneric, &outputs),
        StrategyPlan::PortalGeneric
    ));
}

#[test]
fn portal_generic_needs_capture_and_input() {
    let full = AvailableProtocols {
        ext_image_copy_capture: false,
        wlr_screencopy: true,
        wlr_virtual_pointer: true,
        zwp_virtual_keyboard: true,
    };
    assert!(PortalGenericStrategy::is_available(Some(full)));
    assert!(!PortalGenericStrategy::is_available(Some(AvailableProtocols {
        zwp_virtual_keyboard: false,
        ..full
    })));
    assert!(!PortalGenericStrategy::is_available(Some(AvailableProtocols {
        wlr_screencopy: false,
        ..full
    })));
    assert!(!PortalGenericStrategy::is_available(None));
}

fn from_env(preferred: Option<CaptureProtocol>) -> CapturePreference {
    CapturePreference { preferred, broken_protocols: Vec::new(), handshake_timeout_ms: 0 }
}

#[test]
fn capture_suits_the_compositor() {
    let named = PortalGenericStrategy::build_capture_preferences(
        from_env(Some(CaptureProtocol::ExtImageCopyCapture)),
        ProfileCaptureBackend::WlrScreencopy,
        true,
    );
    assert_eq!(named.preferred, Some(CaptureProtocol::ExtImageCopyCapture));
    assert!(named.broken_protocols.is_empty());
    assert!(!named.force_wlr_screencopy());
    let suited = PortalGenericStrategy::build_capture_preferences(
        from_env(None),
        ProfileCaptureBackend::Portal,
        true,
    );
    assert_eq!(suited.preferred, None);
    assert!(suited.force_wlr_screencopy());
    let older = PortalGenericStrategy::build_capture_preferences(
        from_env(None),
        ProfileCaptureBackend::WlrScreencopy,
        false,
    );
    assert!(older.force_wlr_screencopy());
    assert_eq!(older.handshake_timeout(), None);
    let slow = CapturePreference { handshake_timeout_ms: 40, ..from_env(None) };
    assert_eq!(slow.handshake_timeout(), Some(40));
    assert!(overrides_input_protocol(false) && !overrides_input_protocol(true));
}

#[test]
fn sessions_capture_monitors_and_take_keys_and_pointers() {
    let from_env = CapturePreference {
        preferred: None,
        broken_protocols: vec![CaptureProtocol::WlrScreencopy],
        handshake_timeout_ms: 250,
    };
    let plan = PortalGenericStrategy::plan_session(
        "lamco-rdp-7".to_string(),
        from_env,
        ProfileCaptureBackend::ExtImageCopyCapture,
        true,
        false,
    );
    assert_eq!(plan.session_id, "lamco-rdp-7");
    assert_eq!(plan.capture.preferred, Some(CaptureProtocol::ExtImageCopyCapture));
    assert_eq!(
        plan.capture.broken_protocols,
        [CaptureProtocol::WlrScreencopy, CaptureProtocol::ExtImageCopyCapture]
    );
    assert!(plan.force_wlr_screencopy);
    assert_eq!(plan.handshake_timeout_ms, Some(250));
    assert!(plan.virtual_input);
    assert_eq!(
        plan.devices,
        DeviceTypes { keyboard: true, pointer: true, touchscreen: false }
    );
    assert_eq!(plan.sources, [SourceType::Monitor]);
    assert_eq!(plan.cursor, CursorMode::Embedded);
    let named = PortalGenericStrategy::plan_session(
        "s".to_string(),
        CapturePreference {
            preferred: Some(CaptureProtocol::ExtImageCopyCapture),
            broken_protocols: Vec::new(),
            handshake_timeout_ms: 0,
        },
        ProfileCaptureBackend::WlrScreencopy,
        true,
        true,
    );
    assert_eq!(named.capture.preferred, Some(CaptureProtocol::ExtImageCopyCapture));
    assert!(named.capture.broken_protocols.is_empty());
    assert!(!named.force_wlr_screencopy && !named.virtual_input);
    assert_eq!(named.handshake_timeout_ms, None);
}

#[test]
fn setup_runs_through_its_stages() {
    let mut stage = SetupStage::Connect;
    let mut seen = 0;
    while stage != SetupStage::Done {
        seen += 1;
        stage = stage.next(true);
    }
    assert_eq!(seen, 8);
    assert_eq!(SetupStage::Sources.next(false), SetupStage::Clipboard);
    let connect = SetupStage::Connect.failure("x").unwrap();
    assert_eq!(connect.message, "Failed to connect to Wayland display");
    assert_eq!(connect.cause.as_deref(), Some("x"));
    let pipewire = SetupStage::PipeWire.failure("y").unwrap();
    assert_eq!(pipewire.message, "Failed to start PipeWire manager");
    assert_eq!(pipewire.cause.as_deref(), Some("y"));
    for (stage, message) in [
        (SetupStage::InputBackend, "Input backend: x"),
        (SetupStage::InputContext, "Input context: x"),
        (SetupStage::CaptureBackend, "Capture backend: x"),
        (SetupStage::Sources, "Get sources: x"),
        (SetupStage::CaptureSession, "Create capture session: x"),
    ] {
        let failure = stage.failure("x").unwrap();
        assert_eq!(failure.message, message);
        assert_eq!(failure.cause, None);
    }
    assert!(SetupStage::Clipboard.failure("x").is_none());
}

fn generic_handle(streams: Vec<StreamInfo>) -> PortalGenericSessionHandle {
    let mut handle = PortalGenericSessionHandle::new("lamco-rdp-1".to_string(), &vec![], true);
    handle.stream_list = streams;
    handle
}

#[test]
fn frame_channel_is_handed_out_once() {
    let captured = vec![CapturedStream { node_id: 8, size: (640, 0), position: (-1, 2) }];
    let streams = stream_infos(&captured);
    assert_eq!(
        streams,
        vec![StreamInfo { node_id: 8, width: 640, height: 0, position_x: -1, position_y: 2 }]
    );
    let mut handle = generic_handle(streams);
    assert_eq!(handle.pipewire_access(true), PipeWireAccess::DirectChannel);
    assert_eq!(handle.pipewire_access(true), PipeWireAccess::NodeId(8));
    assert_eq!(generic_handle(vec![]).pipewire_access(false), PipeWireAccess::NodeId(0));
    assert_eq!(handle.session_type(), SessionType::PortalGeneric);
    assert_eq!(handle.clipboard_source(), ClipboardSource::DataControl);
    assert_eq!(handle.streams().len(), 1);
    assert_eq!(handle.pointer_scale(9, true), Some((640, 1)));
    assert_eq!(handle.pointer_scale(9, false), None);
    assert_eq!(generic_handle(vec![]).pointer_scale(9, true), None);
}

#[test]
fn injected_events_carry_their_time() {
    let handle = generic_handle(vec![]);
    assert_eq!(
        handle.notify_keyboard_keycode(30, true, 5),
        InjectedEvent::Keyboard { keycode: 30, pressed: true, time_usec: 5 }
    );
    assert_eq!(
        handle.notify_pointer_button(-1, false, 5),
        InjectedEvent::Button { button: u32::MAX, pressed: false, time_usec: 5 }
    );
    assert_eq!(injection_error(Injection::PointerAxis, false, "x"), "Pointer axis inject: x");
    assert_eq!(
        injection_error(Injection::Keyboard, true, "x"),
        "Input backend lock poisoned: x"
    );
    assert!(matches!(
        session_dropped(),
        HealthEvent::SessionClosed { reason } if reason == "portal-generic session dropped"
    ));
}

#[test]
fn gone_sessions_refuse_input() {
    let mut session = PortalSessionHandleImpl::from_portal_session(true);
    assert!(session.check_session(InputOperation::KeyboardKeycode).is_ok());
    let failure = session.handle_input_error("timeout", InputOperation::PointerAxis);
    assert_eq!(failure.message, "Failed to inject pointer axis via Portal: timeout");
    assert!(matches!(
        failure.event,
        HealthEvent::InputFailed { reason, permanent: false } if reason == "pointer axis: timeout"
    ));
    assert!(session.session_valid);
    assert_eq!(
        session.clipboard_source(),
        ClipboardSource::Portal(ClipboardComponents { has_manager: true })
    );
    let parts = ClipboardComponents { has_manager: true };
    assert!(parts.is_session_valid(&session));
    let gone = session.handle_input_error("D-Bus: UnknownObject", InputOperation::KeyboardKeysym);
    assert_eq!(gone.message, "Portal session destroyed: D-Bus: UnknownObject");
    assert!(matches!(
        gone.event,
        HealthEvent::SessionInvalidated { reason }
            if reason == "D-Bus error during keyboard keysym: D-Bus: UnknownObject"
    ));
    assert!(!session.session_valid);
    assert!(!parts.is_session_valid(&session));
    assert_eq!(
        session.check_session(InputOperation::PointerMotion).unwrap_err(),
        "Portal session invalid — cannot send pointer motion"
    );
    assert_eq!(session.clipboard_source(), ClipboardSource::Unsupported);
    assert_eq!(session.session_type(), SessionType::Portal);
    assert_eq!(session.pipewire_access(), PipeWireAccess::FileDescriptor(0));
    assert!(session.streams().is_empty());
}

#[test]
fn closing_ends_a_session() {
    let mut session = PortalSessionHandleImpl::from_portal_session(false);
    assert!(matches!(
        session.session_closed(),
        HealthEvent::SessionClosed { reason }
            if reason == "Portal Closed signal received from compositor"
    ));
    assert!(!session.session_valid);
    let mut other = PortalSessionHandleImpl::from_portal_session(false);
    other.begin_close();
    assert!(!other.session_valid);
    assert!(other.close_portal_session(Ok(())).is_ok());
    let failed = other.close_portal_session(Err("gone".to_string()));
    assert_eq!(failed, Err("gone".to_string()));
    assert!(!other.session_valid);
}

#[test]
fn clipboard_parts_end_with_their_session() {
    let mut session = PortalSessionHandleImpl::from_portal_session(false);
    let parts = match session.clipboard_source() {
        ClipboardSource::Portal(parts) => parts,
        other => panic!("{other:?}"),
    };
    assert!(!parts.has_manager);
    assert!(parts.is_session_valid(&session));
    session.session_closed();
    assert!(!parts.is_session_valid(&session));
    assert_eq!(session.clipboard_source(), ClipboardSource::Unsupported);
}
