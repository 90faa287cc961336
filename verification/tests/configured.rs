use lamco_rdp_server::clock::Timestamp;
use lamco_rdp_server::gui::app::ConfigGuiApp;
use lamco_rdp_server::gui::capabilities::{
    capabilities_to_json, detect_capabilities_mock, find_server_binary, parse_capabilities_json,
    parse_deployment_context, server_binary_candidates,
};
use lamco_rdp_server::gui::dialogs::{DialogKind, FileChoice};
use lamco_rdp_server::gui::edits::{ConfigEdit, EgfxEdit, ServerEdit};
use lamco_rdp_server::gui::message::{
    Action, DetectionMessage, FieldMessage, FileMessage, LogMessage, Message, PerformancePreset,
    PresetMessage, Section, SecurityMessage, ServerMessage, WindowMessage,
};
use lamco_rdp_server::gui::state::{
    AppState, DeploymentContext, EditStrings, FormattedSettings, LogLevel, LogLine, MessageLevel,
    ServerStatus, Tab, TabCategory,
};
use lamco_rdp_server::gui::views::{
    export_finished, export_logs, fold_icon, help_line, note_line, path_display, slider_label,
    subscription, view, view_first_run_cert_dialog, view_footer, view_header, view_tab_bar, Layer,
    MessageSource, Tone,
};
use lamco_rdp_server::security::{AuthOutcome, Security, TlsOutcome};
use lamco_rdp_server::server::display_handler::{
    CaptureStart, LamcoDisplayHandler, ResizeRequest, StreamReply,
};
use lamco_rdp_server::server::egfx_sender::{DamageRegion, EgfxFrameSender, FrameRequest};
use lamco_rdp_server::server::gfx_factory::HandlerState;
use lamco_rdp_server::server::pipeline::{
    choose_codec, damage_regions, encoder_input, full_color_settings, graphics_frames,
    health_state, pipeline_setup, plan_colors, plan_encoder, send_encoded, DamageOutcome,
    EncodedVideoFrame, EncodingDecision, FrameInfo, FramePlan, FullColorSettings, LatencyMode, NextStep, Pipeline, PwStreamState, Route, TurnStart, VideoCodec,
    VideoStreamState,
};
use lamco_rdp_server::session::strategy::StreamInfo;
use lamco_rdp_server::config::{
    AdaptiveFpsConfig,
    AdvancedVideoConfig,
    AudioConfig,
    ClipboardConfig,
    Config,
    ConverterConfig,
    CursorConfig,
    DamageTrackingConfig,
    DispatcherConfig,
    DisplayConfig,
    EgfxConfig,
    Float32,
    GuiStateConfig,
    HardwareEncodingConfig,
    InputConfig,
    LatencyConfig,
    LoggingConfig,
    MultimonConfig,
    PerformanceConfig,
    PredictorConfig,
    ProcessorConfig,
    SecurityConfig,
    ServerConfig,
    VideoConfig,
    VideoPipelineConfig,
};
use lamco_rdp_server::text_map::TextMap;

fn config() -> Config {
    Config {
        server: ServerConfig {
            listen_addr: "0.0.0.0:3389".to_string(),
            max_connections: 0,
            session_timeout: 0,
            use_portals: false,
            view_only: false,
        },
        security: SecurityConfig {
            cert_path: "/tmp/cert.pem".to_string(),
            key_path: "/tmp/key.pem".to_string(),
            enable_nla: false,
            security_mode: String::new(),
            auth_method: String::new(),
            password_username: String::new(),
            password_credentials: TextMap::new(),
            require_tls_13: false,
        },
        video: VideoConfig {
            target_fps: 30,
            cursor_mode: String::new(),
        },
        video_pipeline: VideoPipelineConfig {
            processor: ProcessorConfig {
                target_fps: 30,
                max_queue_depth: 0,
                adaptive_quality: false,
                damage_threshold: Float32 { bits: 0 },
                drop_on_full_queue: false,
                enable_metrics: false,
            },
            dispatcher: DispatcherConfig {
                channel_size: 0,
                priority_dispatch: false,
                max_frame_age_ms: 0,
                enable_backpressure: false,
                high_water_mark: Float32 { bits: 0 },
                low_water_mark: Float32 { bits: 0 },
                load_balancing: false,
            },
            converter: ConverterConfig {
                buffer_pool_size: 0,
                enable_simd: false,
                damage_threshold: Float32 { bits: 0 },
                enable_statistics: false,
            },
        },
        input: InputConfig {
            input_protocol: String::new(),
            keyboard_layout: String::new(),
            enable_touch: false,
        },
        clipboard: ClipboardConfig {
            enabled: false,
            max_size: 0,
            rate_limit_ms: 0,
            allowed_types: Vec::new(),
        },
        audio: AudioConfig {
            enabled: false,
            codec: String::new(),
            sample_rate: 0,
            channels: 0,
            frame_ms: 0,
            opus_bitrate: 0,
        },
        multimon: MultimonConfig {
            enabled: false,
            max_monitors: 0,
        },
        performance: PerformanceConfig {
            encoder_threads: 0,
            network_threads: 0,
            buffer_pool_size: 0,
            zero_copy: false,
            adaptive_fps: AdaptiveFpsConfig {
                enabled: false,
                min_fps: 0,
                max_fps: 30,
                high_activity_threshold: Float32 { bits: 0 },
                medium_activity_threshold: Float32 { bits: 0 },
                low_activity_threshold: Float32 { bits: 0 },
            },
            latency: LatencyConfig {
                mode: String::new(),
                interactive_max_delay_ms: 0,
                balanced_max_delay_ms: 0,
                quality_max_delay_ms: 0,
                balanced_damage_threshold: Float32 { bits: 0 },
                quality_damage_threshold: Float32 { bits: 0 },
            },
        },
        logging: LoggingConfig {
            level: String::new(),
            log_dir: None,
            metrics: false,
        },
        egfx: EgfxConfig {
            enabled: false,
            h264_level: String::new(),
            h264_bitrate: 0,
            zgfx_compression: String::new(),
            max_frames_in_flight: 0,
            frame_ack_timeout: 0,
            periodic_idr_interval: 0,
            codec: String::new(),
            qp_min: 0,
            qp_max: 0,
            qp_default: 0,
            avc444_enabled: false,
            avc444_aux_bitrate_ratio: Float32 { bits: 0 },
            color_matrix: String::new(),
            color_range: String::new(),
            avc444_enable_aux_omission: false,
            avc444_max_aux_interval: 0,
            avc444_aux_change_threshold: Float32 { bits: 0 },
            avc444_force_aux_idr_on_return: false,
        },
        damage_tracking: DamageTrackingConfig {
            enabled: false,
            method: String::new(),
            tile_size: 0,
            diff_threshold: Float32 { bits: 0 },
            pixel_threshold: 0,
            merge_distance: 0,
            min_region_area: 0,
        },
        hardware_encoding: HardwareEncodingConfig {
            enabled: false,
            vaapi_device: String::new(),
            enable_dmabuf_zerocopy: false,
            fallback_to_software: false,
            quality_preset: String::new(),
            prefer_nvenc: false,
        },
        display: DisplayConfig {
            allow_resize: false,
            allowed_resolutions: Vec::new(),
            dpi_aware: false,
            allow_rotation: false,
        },
        advanced_video: AdvancedVideoConfig {
            enable_frame_skip: false,
            scene_change_threshold: Float32 { bits: 0 },
            intra_refresh_interval: 0,
            enable_adaptive_quality: false,
        },
        cursor: CursorConfig {
            mode: String::new(),
            auto_mode: false,
            predictive_latency_threshold_ms: 0,
            cursor_update_fps: 0,
            predictor: PredictorConfig {
                history_size: 0,
                lookahead_ms: Float32 { bits: 0 },
                velocity_smoothing: Float32 { bits: 0 },
                acceleration_smoothing: Float32 { bits: 0 },
                max_prediction_distance: 0,
                min_velocity_threshold: Float32 { bits: 0 },
                stop_convergence_rate: Float32 { bits: 0 },
            },
        },
        gui_state: GuiStateConfig {
            expert_mode: false,
            egfx_expert_mode: false,
            video_pipeline_expanded: false,
            adaptive_fps_expanded: false,
            latency_expanded: false,
            damage_tracking_expanded: false,
            hardware_encoding_expanded: false,
            display_expanded: false,
            advanced_video_expanded: false,
            cursor_expanded: false,
            cursor_predictor_expanded: false,
            log_auto_scroll: false,
            log_filter_level: String::new(),
            close_stops_server: false,
        },
    }
}

const NOW: Timestamp = Timestamp { secs: 1_700_000_000, nanos: 0 };

const SECOND: u64 = 1_000_000_000;

fn formatted() -> FormattedSettings {
    FormattedSettings {
        listen_socket: None,
        aux_threshold_pct: "5".to_string(),
        lookahead: "50.0".to_string(),
        min_velocity: "10.0".to_string(),
    }
}

fn window() -> ConfigGuiApp {
    let state = AppState::load_or_default(config(), "/tmp/c.toml".to_string(), &formatted());
    ConfigGuiApp::new(state).0
}

#[test]
fn edit_strings_from_config_strips_ipv6_brackets() {
    let mut config = config();
    config.server.listen_addr = "[2001:db8::1]:3390".to_string();

    let edit_strings = EditStrings::from_config(&config, &formatted());

    assert_eq!(edit_strings.server_ip, "2001:db8::1");
    assert_eq!(edit_strings.server_port, "3390");
}

#[test]
fn compose_listen_addr_brackets_ipv6_hosts() {
    assert_eq!(
        EditStrings::compose_listen_addr("2001:db8::1", "3390"),
        "[2001:db8::1]:3390"
    );
}

#[test]
fn listen_addresses_survive_being_shown() {
    for (host, port) in [("0.0.0.0", "3389"), ("::1", "1"), ("localhost", "3390")] {
        let addr = EditStrings::compose_listen_addr(host, port);
        assert_eq!(
            EditStrings::parse_listen_addr(&addr, &None),
            (host.to_string(), port.to_string())
        );
    }
}

#[test]
fn test_parse_deployment_context() {
    assert!(matches!(
        parse_deployment_context("native", None),
        DeploymentContext::Native
    ));
    assert!(matches!(
        parse_deployment_context("flatpak", None),
        DeploymentContext::Flatpak
    ));
    assert!(matches!(
        parse_deployment_context("systemd-user", Some(true)),
        DeploymentContext::SystemdUser { linger: true }
    ));
}

#[test]
fn test_capabilities_mock() {
    let caps = detect_capabilities_mock(NOW);
    assert_eq!(caps.compositor_name, "GNOME Shell");
    assert_eq!(caps.guaranteed_count, 3);
    assert_eq!(caps.services.len(), 5);
}

#[test]
fn test_capabilities_to_json() {
    let caps = detect_capabilities_mock(NOW);
    let json = capabilities_to_json(&caps).unwrap();
    assert!(json.contains("GNOME Shell"));
    assert!(json.contains("Screen Capture"));
}

#[test]
fn exported_reports_read_back() {
    let caps = detect_capabilities_mock(NOW);
    let json = capabilities_to_json(&caps).unwrap();
    let read = parse_capabilities_json(&json, NOW).unwrap();
    assert_eq!(read.compositor_version, caps.compositor_version);
    assert_eq!(read.portal_backend, caps.portal_backend);
    assert_eq!(read.screencast_version, caps.screencast_version);
    assert_eq!(read.deployment_context, caps.deployment_context);
    assert_eq!(read.xdg_runtime_dir, caps.xdg_runtime_dir);
    assert_eq!(read.persistence_notes, caps.persistence_notes);
    assert_eq!(read.recommended_codec, caps.recommended_codec);
    assert_eq!(read.zero_copy_available, caps.zero_copy_available);
    assert_eq!(read.guaranteed_count, caps.guaranteed_count);
    assert_eq!(read.services.len(), caps.services.len());
    for (a, b) in read.services.iter().zip(&caps.services) {
        assert_eq!((&a.id, &a.name, a.level), (&b.id, &b.name, b.level));
        assert_eq!((&a.wayland_source, &a.notes), (&b.wayland_source, &b.notes));
        assert_eq!(a.level_emoji, b.level_emoji);
    }
    assert_eq!(read.available_auth_methods, vec!["none", "password"]);
    let mut user = detect_capabilities_mock(NOW);
    user.deployment_context = DeploymentContext::SystemdUser { linger: true };
    let json = capabilities_to_json(&user).unwrap();
    let read = parse_capabilities_json(&json, NOW).unwrap();
    assert_eq!(read.deployment_context, DeploymentContext::Unknown);
}

#[test]
fn reports_are_read() {
    let report = r#"{
        "system": {"compositor": "KWin", "distribution": "Debian", "kernel": "6.1"},
        "services": [
            {"id": "A", "name": "a", "level": "Guaranteed"},
            {"id": "B", "name": "b", "level": "Degraded"}
        ]
    }"#;
    let caps = parse_capabilities_json(report, NOW).unwrap();
    assert_eq!(caps.compositor_name, "KWin");
    assert_eq!(caps.services.len(), 2);
    assert_eq!(caps.guaranteed_count, 1);
    assert_eq!(caps.degraded_count, 1);
    assert!(parse_capabilities_json("{", NOW).is_err());
}

#[test]
fn server_is_found_next_to_the_window() {
    let candidates = server_binary_candidates(&Some("/opt/bin".to_string()));
    assert!(candidates[0].starts_with("/opt/bin"));
    let none = vec![false; candidates.len()];
    assert!(find_server_binary(&candidates, &none).is_err());
    let mut first = none.clone();
    first[0] = true;
    assert_eq!(find_server_binary(&candidates, &first).unwrap(), candidates[0]);
}

#[test]
fn edits_make_the_configuration_dirty() {
    let mut app = window();
    assert_eq!(app.title(), "lamco-rdp-server Configuration");
    let edit = Message::Edit(ConfigEdit::Server(ServerEdit::MaxConnections("12".to_string())));
    assert!(matches!(app.update(edit, NOW), Action::Nothing));
    assert_eq!(app.state.config.server.max_connections, 12);
    assert!(app.state.is_dirty);
    assert_eq!(app.title(), "lamco-rdp-server Configuration *");
    let bad = Message::Edit(ConfigEdit::Server(ServerEdit::MaxConnections("x".to_string())));
    app.update(bad, NOW);
    assert_eq!(app.state.config.server.max_connections, 12);
    assert_eq!(app.state.edit_strings.max_connections, "0");
    app.update(
        Message::Edit(ConfigEdit::Egfx(EgfxEdit::Codec("avc420".to_string()))),
        NOW,
    );
    assert_eq!(app.state.config.egfx.codec, "avc420");
}

#[test]
fn listen_address_is_put_together_from_its_fields() {
    let mut app = window();
    app.update(
        Message::Field(FieldMessage::ServerListenAddrChanged("::1".to_string())),
        NOW,
    );
    app.update(
        Message::Field(FieldMessage::ServerPortChanged("3400".to_string())),
        NOW,
    );
    assert_eq!(app.state.config.server.listen_addr, "[::1]:3400");
}

#[test]
fn presets_set_single_precision_thresholds() {
    let mut app = window();
    app.update(
        Message::Preset(PresetMessage::PerformancePresetSelected(
            PerformancePreset::Interactive,
        )),
        NOW,
    );
    assert!(app.state.is_dirty);
    let first = format!("{:?}", app.state.config.performance);
    app.update(
        Message::Preset(PresetMessage::PerformancePresetSelected(
            PerformancePreset::Interactive,
        )),
        NOW,
    );
    assert_eq!(format!("{:?}", app.state.config.performance), first);
}

#[test]
fn sections_fold_and_unfold() {
    let mut app = window();
    let before = app.state.sections.latency_expanded;
    app.update(Message::Toggle(Section::Latency), NOW);
    assert_eq!(app.state.sections.latency_expanded, !before);
    app.update(Message::Toggle(Section::Latency), NOW);
    assert_eq!(app.state.sections.latency_expanded, before);
    assert!(!app.state.is_dirty);
}

#[test]
fn tabs_are_selected() {
    let mut app = window();
    app.update(Message::TabSelected(Tab::Egfx), NOW);
    assert_eq!(app.current_tab, Tab::Egfx);
    let bar = view_tab_bar(app.current_tab);
    assert_eq!(bar.categories.len(), 3);
    assert_eq!(bar.tabs.len(), 5);
    assert_eq!(bar.tabs.iter().filter(|t| t.is_active).count(), 1);
    app.update(Message::CategorySelected(TabCategory::Core), NOW);
    assert_eq!(app.current_tab, Tab::Server);
}

#[test]
fn saving_clears_the_mark() {
    let mut app = window();
    app.update(
        Message::Edit(ConfigEdit::Server(ServerEdit::ViewOnly(true))),
        NOW,
    );
    assert!(matches!(
        app.update(Message::File(FileMessage::SaveConfig), NOW),
        Action::SaveConfig
    ));
    app.update(Message::File(FileMessage::ConfigSaved(Ok(()))), NOW);
    assert!(!app.state.is_dirty);
    assert_eq!(app.state.last_saved, Some(NOW));
    app.update(
        Message::File(FileMessage::ConfigSaved(Err("disk".to_string()))),
        NOW,
    );
    assert!(matches!(
        app.state.messages.last().map(|m| m.level),
        Some(MessageLevel::Error)
    ));
}

#[test]
fn loaded_settings_are_shown_in_their_fields() {
    let mut app = window();
    app.update(
        Message::Field(FieldMessage::ServerPortChanged("4000".to_string())),
        NOW,
    );
    assert!(app.state.is_dirty);
    assert_eq!(app.state.edit_strings.server_port, "4000");
    app.update(
        Message::File(FileMessage::ConfigLoaded(Ok((config(), formatted())))),
        NOW,
    );
    assert!(!app.state.is_dirty);
    let fresh = window();
    assert_eq!(
        app.state.edit_strings.server_port,
        fresh.state.edit_strings.server_port
    );
    assert_eq!(
        app.state.config.server.listen_addr,
        fresh.state.config.server.listen_addr
    );
    app.update(
        Message::File(FileMessage::ConfigLoaded(Err("no file".to_string()))),
        NOW,
    );
    assert_eq!(
        app.state.messages.last().map(|m| m.text.as_str()),
        Some("Failed to load config: no file")
    );
}

#[test]
fn closing_asks_about_unsaved_changes() {
    let mut app = window();
    assert!(matches!(
        app.update(Message::Window(WindowMessage::WindowCloseRequested), NOW),
        Action::Exit { .. }
    ));
    app.state.is_dirty = true;
    assert!(matches!(
        app.update(Message::Window(WindowMessage::WindowCloseRequested), NOW),
        Action::Nothing
    ));
    assert!(app.state.confirm_discard_dialog);
    app.update(Message::Window(WindowMessage::CancelDiscardChanges), NOW);
    assert!(!app.state.confirm_discard_dialog);
}

#[test]
fn logs_are_bounded_and_filtered() {
    let mut app = window();
    app.state.max_log_lines = 2;
    for raw in [
        "2026-01-19 14:23:45 [INFO] one",
        "2026-01-19 14:23:46 [WARN] two",
        "2026-01-19 14:23:47 [ERROR] three",
    ] {
        app.update(Message::Log(LogMessage::LogLineReceived(raw.to_string())), NOW);
    }
    assert_eq!(app.state.log_buffer.len(), 2);
    assert_eq!(app.state.log_buffer[0].message, "two");
    app.state.log_filter_level = LogLevel::Error;
    assert_eq!(app.state.filtered_log_lines().len(), 1);
    let line = LogLine::parse("2026-01-19 14:23:45 [warning] a b");
    assert_eq!(line.timestamp, "2026-01-19 14:23:45");
    assert_eq!(line.level, LogLevel::Warn);
    assert_eq!(line.message, "a b");
    assert_eq!(LogLine::parse("x").timestamp, "??:??:??");
    let text = export_logs(&app.state.log_buffer, "today");
    assert_eq!(
        text,
        "# Lamco RDP Server Logs\n# Exported at: today\n\n\
         2026-01-19 14:23:46 [Warn] two\n2026-01-19 14:23:47 [Error] three\n"
    );
    assert_eq!(export_finished(None), Err("Export cancelled".to_string()));
    assert_eq!(
        export_finished(Some(Ok("a.txt".to_string()))),
        Ok("Logs exported (a.txt)".to_string())
    );
    assert_eq!(
        export_finished(Some(Err("full".to_string()))),
        Err("Failed to write: full".to_string())
    );
}

#[test]
fn servers_are_started_once() {
    let mut app = window();
    assert!(matches!(
        app.update(Message::Server(ServerMessage::StartServer), NOW),
        Action::SpawnServer
    ));
    assert!(matches!(app.state.server_status, ServerStatus::Starting));
    app.update(
        Message::Server(ServerMessage::ServerStartFailed("no".to_string())),
        NOW,
    );
    assert!(matches!(app.state.server_status, ServerStatus::Error(_)));
}

#[test]
fn passwords_are_hashed_before_they_are_kept() {
    let mut app = window();
    app.update(
        Message::Security(SecurityMessage::SecurityPasswordUsernameChanged(
            "alice".to_string(),
        )),
        NOW,
    );
    let action = app.update(
        Message::Security(SecurityMessage::SecurityPasswordChanged("pw".to_string())),
        NOW,
    );
    match action {
        Action::HashPassword { username, password } => {
            assert_eq!((username.as_str(), password.as_str()), ("alice", "pw"));
        }
        other => panic!("unexpected {other:?}"),
    }
    app.update(
        Message::Security(SecurityMessage::PasswordHashed {
            username: "alice".to_string(),
            result: Ok("hash".to_string()),
        }),
        NOW,
    );
    assert_eq!(
        app.state.config.security.password_credentials.get("alice"),
        Some(&"hash".to_string())
    );
}

#[test]
fn capabilities_are_detected_on_request() {
    let mut app = window();
    assert!(matches!(
        app.update(Message::Detection(DetectionMessage::RefreshCapabilities), NOW),
        Action::DetectCapabilities
    ));
    let caps = detect_capabilities_mock(NOW);
    app.update(
        Message::Detection(DetectionMessage::CapabilitiesDetected(Ok(caps))),
        NOW,
    );
    assert!(app.state.detected_capabilities.is_some());
}

#[test]
fn the_window_says_how_things_are() {
    let app = window();
    let footer = view_footer(&app.state);
    assert_eq!(footer.saved, "● Saved");
    assert_eq!(footer.saved_tone, Tone::Success);
    assert_eq!(footer.config_path, "Config: /tmp/c.toml");
    let header = view_header(&ServerStatus::Starting);
    assert_eq!((header.status, header.tone), ("Starting...", Tone::Warning));
    assert!(!header.is_running);
    assert_eq!(view_header(&ServerStatus::Unknown).status, "Offline");
    let dialog = view_first_run_cert_dialog(&app.state, true, "/c");
    assert_eq!(
        dialog.location,
        "Running in Flatpak sandbox. Certificates will be stored in:\n/c"
    );
    assert_eq!(dialog.generate_hint, " (Recommended)");
    assert!(dialog.can_generate);
    assert_eq!(
        subscription(true),
        vec![
            MessageSource::Tick { every_ms: 1000 },
            MessageSource::CloseRequests,
            MessageSource::PollServerLogs { every_ms: 100 },
        ]
    );
    assert_eq!(subscription(false).len(), 2);
    assert_eq!(view(&app.state, Tab::Video), vec![Layer::Window(Tab::Video)]);
    let mut asked = window();
    asked.state.first_run_cert_dialog = true;
    asked.state.confirm_discard_dialog = true;
    assert_eq!(
        view(&asked.state, Tab::Server),
        vec![Layer::UnsavedChanges, Layer::FirstRun, Layer::Window(Tab::Server)]
    );
    assert_eq!(help_line("x"), "ⓘ x");
    assert_eq!(note_line("x"), "⚠ x");
    assert_eq!(slider_label(30, "fps"), "30 fps");
    assert_eq!((fold_icon(true), fold_icon(false)), ("▼", "▶"));
    assert_eq!(path_display("", "none"), "none");
    assert_eq!(path_display("/a", "none"), "/a");
}

#[test]
fn test_security_manager_creation() {
    let config = config();
    let result = Security::new(&config, TlsOutcome::Loaded);
    if result.is_ok() {
        let manager = result.unwrap();
        let authenticator = manager.authenticator();
        assert_eq!(authenticator.auth_method, config.security.auth_method);
        assert_eq!(manager.cert_path, "/tmp/cert.pem");
    }
    assert_eq!(
        Security::new(&config, TlsOutcome::LoadFailed("e".to_string())).unwrap_err(),
        "e"
    );
    assert_eq!(
        Security::new(&config, TlsOutcome::VerifyFailed("v".to_string())).unwrap_err(),
        "v"
    );
}

#[test]
fn only_accepted_users_get_a_token() {
    let security = Security::new(&config(), TlsOutcome::Loaded).unwrap();
    let token = security.authenticate("alice", AuthOutcome::Accepted).unwrap();
    assert_eq!(token.username, "alice");
    assert_eq!(
        security.authenticate("alice", AuthOutcome::Rejected).unwrap_err(),
        "Authentication failed"
    );
    assert_eq!(
        security
            .authenticate("", AuthOutcome::InvalidUsername("empty".to_string()))
            .unwrap_err(),
        "empty"
    );
    assert_eq!(
        security
            .authenticate("a", AuthOutcome::CheckFailed("pam".to_string()))
            .unwrap_err(),
        "pam"
    );
}

fn ready_handler() -> LamcoDisplayHandler {
    let stream = StreamInfo { node_id: 3, width: 800, height: 600, position_x: 0, position_y: 0 };
    let mut handler = LamcoDisplayHandler::new(
        800,
        600,
        vec![stream],
        CaptureStart::Streams(vec![StreamReply::Opened]),
    )
    .unwrap();
    handler.updates();
    handler.set_server_event_sender();
    handler.has_gfx_server = true;
    handler.gfx_state = Some(HandlerState {
        is_ready: true,
        is_avc420_enabled: true,
        is_avc444_enabled: true,
        needs_android_pointer_updates: false,
        primary_surface_id: Some(1),
        dvc_channel_id: 0,
    });
    handler
}

fn frame() -> FrameInfo {
    FrameInfo { width: 20, height: 10, pts: 0, data_len: 800 }
}

#[test]
fn pipelines_are_set_up_by_the_configuration() {
    let mut config = config();
    config.performance.adaptive_fps.enabled = true;
    config.performance.latency.mode = "quality".to_string();
    config.damage_tracking.enabled = true;
    config.damage_tracking.tile_size = 64;
    let setup = pipeline_setup(&config, true);
    assert!(setup.adaptive_fps_enabled);
    assert_eq!(setup.latency_mode, LatencyMode::Quality);
    assert_eq!(setup.regulator_fps, 30);
    assert_eq!(setup.damage.map(|d| d.tile_size), Some(64));
    assert!(!pipeline_setup(&config, false).adaptive_fps_enabled);
}

#[test]
fn full_colour_needs_everyone_to_agree() {
    let mut config = config();
    config.egfx.avc444_enabled = true;
    config.egfx.codec = "auto".to_string();
    assert_eq!(choose_codec(&config.egfx, true), VideoCodec::Avc444);
    assert_eq!(choose_codec(&config.egfx, false), VideoCodec::Avc420);
    config.egfx.codec = "AVC420".to_string();
    assert_eq!(choose_codec(&config.egfx, true), VideoCodec::Avc420);
    config.egfx.codec = "avc444".to_string();
    config.egfx.avc444_enabled = false;
    assert_eq!(choose_codec(&config.egfx, true), VideoCodec::Avc420);
    let plan = plan_encoder(&config, &None, 1920, 1080);
    assert_eq!((plan.width, plan.height), (1920, 1088));
    assert_eq!((plan.desktop_width, plan.desktop_height), (1920, 1080));
    assert_eq!(VideoCodec::Avc444.fallback(), Some(VideoCodec::Avc420));
    assert_eq!(VideoCodec::Avc420.fallback(), None);
    assert_eq!(VideoCodec::Avc444.codec_name(), "AVC444");
}

#[test]
fn encoders_are_told_the_configured_colours() {
    let mut config = config();
    config.egfx.color_matrix = "bt709".to_string();
    config.egfx.color_range = "full".to_string();
    let colors = plan_colors(&config, 1920, 1080);
    assert_eq!((colors.matrix.as_str(), colors.range.as_str()), ("bt709", "full"));
    assert_eq!((colors.width, colors.height), (1920, 1088));
    let wide = plan_colors(&config, 65_537, 16);
    assert_eq!((wide.width, wide.height), (16, 16));
    config.egfx.avc444_enable_aux_omission = true;
    config.egfx.avc444_max_aux_interval = 31;
    config.egfx.avc444_aux_change_threshold = Float32 { bits: 0.25f32.to_bits() };
    config.egfx.avc444_force_aux_idr_on_return = false;
    config.egfx.periodic_idr_interval = 7;
    assert_eq!(
        full_color_settings(&config, VideoCodec::Avc444),
        Some(FullColorSettings {
            enable_aux_omission: true,
            max_aux_interval: 31,
            aux_change_threshold: Float32 { bits: 0.25f32.to_bits() },
            force_aux_idr_on_return: false,
            periodic_idr_interval: 7,
        })
    );
    assert_eq!(full_color_settings(&config, VideoCodec::Avc420), None);
}

#[test]
fn only_the_last_size_counts() {
    let mut pipeline = Pipeline::new(0);
    let handler = ready_handler();
    assert_eq!(pipeline.begin(&vec![], &handler), TurnStart::Capture);
    let sizes = vec![
        ResizeRequest { width: 1, height: 2 },
        ResizeRequest { width: 3, height: 4 },
    ];
    assert_eq!(
        pipeline.begin(&sizes, &handler),
        TurnStart::Recreate { node_id: 3, size: ResizeRequest { width: 3, height: 4 } }
    );
    let direct = LamcoDisplayHandler::new_direct(1, 1, vec![]);
    assert_eq!(pipeline.begin(&sizes, &direct), TurnStart::Again);
    assert_eq!(pipeline.loop_iterations, 3);
    assert!(pipeline.stream_destroyed(false, sizes[0]).is_none());
    let config = pipeline.stream_destroyed(true, sizes[1]).unwrap();
    assert_eq!((config.name.as_str(), config.width), ("monitor-0", 3));
    pipeline.stream_recreated(true);
    assert!(pipeline.pending_resize);
    let mut handler = ready_handler();
    let arrival = pipeline.frame_arrived(frame(), SECOND, &mut handler);
    assert_eq!(arrival.resized.map(|s| (s.width, s.height)), Some((20, 10)));
    assert_eq!(handler.size.width, 20);
    assert!(handler.egfx_needs_init);
}

#[test]
fn stalls_are_reported_once() {
    let mut pipeline = Pipeline::new(0);
    let mut handler = ready_handler();
    pipeline.frame_arrived(frame(), 0, &mut handler);
    assert_eq!(pipeline.no_frame(3 * SECOND, &handler).stalled_ms, None);
    assert_eq!(pipeline.no_frame(3 * SECOND + 1, &handler).stalled_ms, Some(3000));
    assert_eq!(pipeline.no_frame(9 * SECOND, &handler).stalled_ms, None);
    assert!(pipeline.frame_arrived(frame(), 9 * SECOND, &mut handler).resumed);
    assert!(!pipeline.frame_arrived(frame(), 9 * SECOND, &mut handler).resumed);
}

#[test]
fn missing_frames_are_reported() {
    let mut pipeline = Pipeline::new(0);
    let mut handler = ready_handler();
    handler.on_client_disconnect();
    assert_eq!(pipeline.no_frame(10 * SECOND, &handler).never_started_ms, None);
    let idle = pipeline.no_frame(10 * SECOND + 5_000_000, &handler);
    assert_eq!(idle.never_started_ms, Some(10_005));
    assert_eq!(idle.next, NextStep::SleepMs(5));
    assert_eq!(pipeline.no_frame(30 * SECOND, &handler).never_started_ms, None);
}

#[test]
fn last_frame_is_shown_to_a_new_client() {
    let mut pipeline = Pipeline::new(0);
    let mut handler = ready_handler();
    handler.on_client_disconnect();
    let arrival = pipeline.frame_arrived(frame(), 0, &mut handler);
    assert_eq!(arrival.next, NextStep::SleepMs(1));
    handler.client_active = true;
    assert_eq!(pipeline.no_frame(1, &handler).next, NextStep::Process);
    handler.egfx_needs_init = false;
    assert_eq!(pipeline.no_frame(2, &handler).next, NextStep::SleepMs(5));
}

#[test]
fn frames_wait_for_the_graphics_channel() {
    let mut pipeline = Pipeline::new(0);
    let mut handler = ready_handler();
    handler.has_gfx_server = false;
    pipeline.frame_arrived(frame(), 0, &mut handler);
    pipeline.frame_arrived(frame(), 0, &mut handler);
    assert_eq!(pipeline.regulate(true), NextStep::Process);
    assert_eq!(pipeline.gate(5 * SECOND, &mut handler), Route::Wait);
    assert_eq!(pipeline.frames_dropped, 1);
    assert_eq!(pipeline.gate(5 * SECOND + 1, &mut handler), Route::Bitmap);
    assert!(pipeline.egfx_gate_bypassed);
    handler.has_gfx_server = true;
    assert_eq!(pipeline.gate(6 * SECOND, &mut handler), Route::Bitmap);
    assert_eq!(pipeline.regulate(false), NextStep::SleepMs(1));
    assert_eq!((pipeline.frames_sent, pipeline.frames_dropped), (1, 2));
}

#[test]
fn frames_go_through_the_codec() {
    let mut pipeline = Pipeline::new(0);
    let mut handler = ready_handler();
    pipeline.frame_arrived(frame(), 0, &mut handler);
    pipeline.regulate(true);
    assert_eq!(pipeline.gate(1, &mut handler), Route::Video { needs_init: true });
    assert_eq!(pipeline.frame_ready(frame(), 30, false), FramePlan::Bitmap);
    pipeline.encoder_dropped();
    assert!(!pipeline.encoder_ready(None, &mut handler));
    assert!(pipeline.encoder_ready(Some(VideoCodec::Avc444), &mut handler));
    assert!(!handler.egfx_needs_init);
    assert_eq!(
        pipeline.frame_ready(frame(), 30, false),
        FramePlan::Encode { timestamp_ms: 33, whole: true }
    );
    let stamped = FrameInfo { pts: 5_999_999, ..frame() };
    assert_eq!(
        pipeline.frame_ready(stamped, 30, false),
        FramePlan::Encode { timestamp_ms: 5, whole: false }
    );
    assert_eq!(
        pipeline.frame_ready(frame(), 0, true),
        FramePlan::Encode { timestamp_ms: 1000, whole: true }
    );
    let short = FrameInfo { data_len: 799, ..frame() };
    assert_eq!(pipeline.frame_ready(short, 30, false), FramePlan::Skip);
    assert_eq!(pipeline.frames_dropped, 1);
    pipeline.frame_done(true);
    pipeline.frame_done(false);
    assert_eq!((pipeline.egfx_frames_sent, pipeline.frames_dropped), (1, 2));
}

#[test]
fn clients_without_h264_get_pictures() {
    let mut pipeline = Pipeline::new(0);
    let mut handler = ready_handler();
    if let Some(state) = &mut handler.gfx_state {
        state.is_avc420_enabled = false;
    }
    pipeline.frame_arrived(frame(), 0, &mut handler);
    assert_eq!(pipeline.gate(1, &mut handler), Route::Bitmap);
    assert!(!handler.egfx_needs_init);
    assert!(!pipeline.egfx_gate_bypassed);
}

#[test]
fn unchanged_frames_are_skipped() {
    let mut pipeline = Pipeline::new(0);
    let all = damage_regions(frame(), true, Some(vec![]));
    assert_eq!(all, vec![DamageRegion::full_frame(20, 10)]);
    assert_eq!(damage_regions(frame(), false, None).len(), 1);
    let none = damage_regions(frame(), false, Some(vec![]));
    assert_eq!(
        pipeline.damage_found(&none, EncodingDecision::EncodeNow),
        DamageOutcome::Unchanged
    );
    assert_eq!(
        pipeline.damage_found(&all, EncodingDecision::Skip),
        DamageOutcome::Skip
    );
    assert_eq!(
        pipeline.damage_found(&all, EncodingDecision::WaitForMore),
        DamageOutcome::Skip
    );
    assert_eq!(
        pipeline.damage_found(&all, EncodingDecision::EncodeKeepalive),
        DamageOutcome::Encode
    );
    assert_eq!((pipeline.frames_skipped_damage, pipeline.frames_dropped), (1, 1));
}

#[test]
fn encoded_frames_are_addressed() {
    let handler = ready_handler();
    let sender = EgfxFrameSender::new();
    let regions = vec![DamageRegion::full_frame(20, 10)];
    let single = send_encoded(
        &sender,
        &handler.gfx_state,
        EncodedVideoFrame::Single(vec![1]),
        frame(),
        &regions,
        0x1_0000_0007,
    );
    match single {
        Ok(FrameRequest::Avc420 { surface_id, regions, timestamp_ms, .. }) => {
            assert_eq!((surface_id, timestamp_ms), (1, 7));
            assert_eq!((regions[0].right, regions[0].bottom), (19, 9));
        }
        _ => panic!("the frame is sent"),
    }
    let dual = send_encoded(
        &sender,
        &handler.gfx_state,
        EncodedVideoFrame::Dual { main: vec![1], aux: None },
        frame(),
        &vec![],
        0,
    );
    match dual {
        Ok(FrameRequest::Avc444 { luma_regions, chroma, .. }) => {
            assert_eq!((luma_regions[0].right, luma_regions[0].bottom), (32, 16));
            assert_eq!(chroma, None);
        }
        _ => panic!("the frame is sent"),
    }
    assert_eq!(encoder_input(vec![5; 800], frame()), vec![5; 32 * 16 * 4]);
    let exact = FrameInfo { width: 16, height: 16, ..frame() };
    assert_eq!(encoder_input(vec![5; 1024], exact).len(), 1024);
    assert!(graphics_frames(vec![], 3).is_empty());
    assert_eq!(health_state(PwStreamState::Paused), Some(VideoStreamState::Paused));
    assert_eq!(health_state(PwStreamState::Connecting), None);
}

#[test]
fn dialogs_offer_the_files_that_fit() {
    let certificate = FileChoice::Certificate.dialog();
    assert_eq!(certificate.kind, DialogKind::PickFile);
    assert_eq!(certificate.filter, "Certificate");
    assert_eq!(certificate.extensions, ["pem", "crt", "cert"]);
    assert_eq!(certificate.file_name, None);
    assert_eq!(FileChoice::Key.dialog().extensions, ["pem", "key"]);
    let folder = FileChoice::LogDir.dialog();
    assert_eq!(folder.kind, DialogKind::PickFolder);
    assert!(folder.extensions.is_empty());
    assert_eq!(FileChoice::Config.dialog().filter, "TOML Config");
    assert_eq!(FileChoice::SaveConfig.dialog().file_name, Some("config.toml"));
    assert_eq!(FileChoice::SaveCapabilities.dialog().file_name, Some("capabilities.json"));
    let logs = FileChoice::SaveLogs.dialog();
    assert_eq!(logs.kind, DialogKind::SaveFile);
    assert_eq!(logs.extensions, ["txt", "log"]);
    assert_eq!(logs.file_name, Some("lamco-rdp-server-logs.txt"));
}

#[test]
fn levels_and_states_can_be_compared() {
    assert!(LogLevel::Trace < LogLevel::Debug && LogLevel::Warn < LogLevel::Error);
    assert_eq!(ServerStatus::Error("x".to_string()), ServerStatus::Error("x".to_string()));
    assert_ne!(ServerStatus::Unknown, ServerStatus::Stopped);
}
