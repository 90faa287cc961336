use lamco_rdp_server::clipboard::mime::{same_types, DataMap};
use lamco_rdp_server::clipboard::provider::{
    operation_failed, ClipboardError, ClipboardProviderEvent,
};
use lamco_rdp_server::clipboard::providers::data_control::{
    call_failed, read_data as read_selection, BackendCall, CallFailure,
    DataControlClipboardProvider,
};
use lamco_rdp_server::clipboard::providers::wl_clipboard::{
    health_check, is_text_mime, read_data, text_sources, LookOutcome, MonitorState, ReadOutcome,
    SelectionWatch, WlClipboardProvider,
};

fn texts(v: &[&str]) -> Vec<String> {
    v.iter().map(|s| s.to_string()).collect()
}

fn message(e: ClipboardError) -> String {
    match e {
        ClipboardError::PortalError(t) => t,
    }
}

#[test]
fn test_provider_event_debug() {
    let event = ClipboardProviderEvent::SelectionChanged {
        mime_types: vec!["text/plain".to_string()],
        force: true,
    };
    assert!(format!("{event:?}").contains("SelectionChanged"));

    let event = ClipboardProviderEvent::SelectionTransfer {
        serial: 42,
        mime_type: "text/plain".to_string(),
    };
    assert!(format!("{event:?}").contains("SelectionTransfer"));
}

#[test]
fn test_is_text_mime() {
    assert!(is_text_mime("text/plain"));
    assert!(is_text_mime("text/plain;charset=utf-8"));
    assert!(is_text_mime("UTF8_STRING"));
    assert!(is_text_mime("STRING"));
    assert!(is_text_mime("TEXT"));
    assert!(!is_text_mime("image/png"));
    assert!(!is_text_mime("application/octet-stream"));
}

#[test]
fn test_announce_formats_includes_eagerly_cached_source_data() {
    let mut provider = DataControlClipboardProvider::new();
    provider.provide_data("text/plain", b"hello from rdp".to_vec());
    let clipboard = provider.announce_formats(vec![
        "text/plain".to_string(),
        "text/plain;charset=utf-8".to_string(),
    ]);
    assert_eq!(clipboard.data.get("text/plain"), Some(&b"hello from rdp".to_vec()));
    assert!(clipboard.data.get("text/plain;charset=utf-8").is_none());
    assert_eq!(clipboard.mime_types.len(), 2);
}

#[test]
fn announcements_leave_other_data_out() {
    let mut provider = DataControlClipboardProvider::new();
    provider.provide_data("image/png", vec![1]);
    provider.provide_data("image/png", vec![2]);
    let clipboard = provider.announce_formats(texts(&["text/plain"]));
    assert!(clipboard.data.get("image/png").is_none());
    let clipboard = provider.announce_formats(texts(&["image/png", "image/png"]));
    assert_eq!(clipboard.data.get("image/png"), Some(&vec![2]));
    assert_eq!(clipboard.data.entries.len(), 1);
}

#[test]
fn data_control_describes_itself() {
    let mut provider = DataControlClipboardProvider::new();
    assert_eq!(provider.name(), "data-control");
    assert!(provider.supports_file_transfer());
    assert!(provider.requires_upfront_data());
    provider.subscribe();
    assert!(!provider.has_receiver);
    provider.shutdown();
    assert!(provider.shutdown);
    assert!(matches!(
        provider.selection_changed(texts(&["a"])),
        ClipboardProviderEvent::SelectionChanged { force: true, .. }
    ));
}

#[test]
fn backend_failures_in_words() {
    let refused = call_failed(BackendCall::SetClipboard, CallFailure::Refused("x".to_string()));
    assert_eq!(message(refused), "set_clipboard failed: x");
    let poisoned =
        call_failed(BackendCall::WriteDone, CallFailure::BackendPoisoned("x".to_string()));
    assert_eq!(message(poisoned), "Backend lock poisoned: x");
    let cache = call_failed(BackendCall::WriteDone, CallFailure::CachePoisoned("x".to_string()));
    assert_eq!(message(cache), "Source data lock poisoned: x");
    let panicked =
        call_failed(BackendCall::UpdateSourceData, CallFailure::Panicked("x".to_string()));
    assert_eq!(message(panicked), "provide_data task panicked: x");
    assert_eq!(read_selection(Ok(Some(vec![1]))).unwrap(), vec![1]);
    assert!(read_selection(Ok(None)).unwrap().is_empty());
    let failed = read_selection(Err(CallFailure::Refused("x".to_string())));
    assert_eq!(message(failed.unwrap_err()), "read_selection failed: x");
    assert_eq!(message(operation_failed("a", "b")), "a: b");
}

fn requests(events: Vec<ClipboardProviderEvent>) -> Vec<(u32, String)> {
    events
        .into_iter()
        .map(|e| match e {
            ClipboardProviderEvent::SelectionTransfer { serial, mime_type } => (serial, mime_type),
            ClipboardProviderEvent::SelectionChanged { .. } => panic!("only requests"),
        })
        .collect()
}

#[test]
fn announced_types_are_requested() {
    let mut provider = WlClipboardProvider::new();
    assert_eq!(
        requests(provider.announce_formats(texts(&["text/plain", "image/png"]))),
        vec![(1, "text/plain".to_string()), (2, "image/png".to_string())]
    );
    assert_eq!(provider.next_serial, 3);
    assert!(provider.announce_formats(vec![]).is_empty());
    assert_eq!(provider.our_mime_types.len(), 2);
    provider.next_serial = u32::MAX;
    assert_eq!(
        requests(provider.announce_formats(texts(&["a", "b"]))),
        vec![(u32::MAX, "a".to_string()), (0, "b".to_string())]
    );
}

#[test]
fn transfers_add_up() {
    let mut provider = WlClipboardProvider::new();
    provider.announce_formats(texts(&["text/html", "image/png"]));
    assert!(provider.complete_transfer("image/png", vec![], true).is_none());
    assert!(provider.complete_transfer("image/png", vec![1], false).is_none());
    let first = provider.complete_transfer("image/png", vec![1], true).unwrap();
    assert_eq!(first.get("image/png"), Some(&vec![1]));
    assert!(same_types(&provider.our_mime_types, &texts(&["image/png"])));
    let both = provider.complete_transfer("text/html", vec![2], true).unwrap();
    assert_eq!(both.get("image/png"), Some(&vec![1]));
    assert_eq!(both.get("text/html"), Some(&vec![2]));
    assert!(same_types(
        &provider.our_mime_types,
        &texts(&[
            "image/png",
            "text/html",
            "text/plain",
            "text/plain;charset=utf-8",
            "STRING",
            "UTF8_STRING",
            "TEXT",
        ])
    ));
    provider.announce_formats(texts(&["x"]));
    assert!(provider.pending_data.entries.is_empty());
}

#[test]
fn wl_clipboard_describes_itself() {
    let mut provider = WlClipboardProvider::new();
    assert_eq!(provider.name(), "wl-clipboard");
    assert!(provider.supports_file_transfer());
    provider.subscribe();
    provider.shutdown();
    assert!(provider.shutdown && !provider.has_receiver);
    let sources = text_sources(b"hi".to_vec());
    assert_eq!(sources.get("text/plain"), Some(&b"hi".to_vec()));
    assert_eq!(sources.get("text/plain;charset=utf-8"), Some(&b"hi".to_vec()));
    assert_eq!(sources.entries.len(), 2);
}

#[test]
fn reading_gives_data_or_nothing() {
    assert_eq!(read_data(ReadOutcome::Data(vec![3])).unwrap(), vec![3]);
    assert!(read_data(ReadOutcome::ClipboardEmpty).unwrap().is_empty());
    assert!(read_data(ReadOutcome::NoMimeType).unwrap().is_empty());
    let broken = read_data(ReadOutcome::ReadFailed("x".to_string())).unwrap_err();
    assert_eq!(message(broken), "wl-clipboard read failed: x");
    let failed = read_data(ReadOutcome::Failed("x".to_string())).unwrap_err();
    assert_eq!(message(failed), "wl-clipboard get_contents failed: x");
    assert!(health_check(LookOutcome::NoSeats).is_ok());
    assert!(health_check(LookOutcome::Types(vec![])).is_ok());
    let sick = health_check(LookOutcome::Failed("x".to_string())).unwrap_err();
    assert_eq!(message(sick), "wl-clipboard health check failed: x");
}

#[test]
fn changes_are_reported_once_and_never_for_own_data() {
    let ours = texts(&["b", "a"]);
    let mut watch = SelectionWatch::new();
    assert!(watch.poll(LookOutcome::ClipboardEmpty, &ours).is_none());
    match watch.poll(LookOutcome::Types(texts(&["x", "y"])), &ours) {
        Some(ClipboardProviderEvent::SelectionChanged { mime_types, force }) => {
            assert_eq!(mime_types, texts(&["x", "y"]));
            assert!(force);
        }
        _ => panic!("the clipboard changed"),
    }
    assert!(watch.poll(LookOutcome::Types(texts(&["y", "x"])), &ours).is_none());
    assert!(watch.poll(LookOutcome::Types(texts(&["a", "b"])), &ours).is_none());
    assert!(watch.poll(LookOutcome::NoSeats, &ours).is_none());
    assert!(watch.poll(LookOutcome::Types(texts(&["x"])), &ours).is_some());
}

#[test]
fn types_are_reported_once() {
    let mut watch = SelectionWatch::new();
    match watch.observe(texts(&["x", "y", "x"]), &vec![]) {
        Some(ClipboardProviderEvent::SelectionChanged { mime_types, .. }) => {
            assert_eq!(mime_types, texts(&["x", "y"]));
        }
        _ => panic!("the clipboard changed"),
    }
    assert!(watch.observe(texts(&["y", "y", "x"]), &vec![]).is_none());
    let mut state = MonitorState::new();
    state.data_offer(1);
    state.offer(1, "x".to_string());
    state.offer(1, "x".to_string());
    state.selection(Some(1));
    assert_eq!(state.current_mime_types, texts(&["x"]));
    let mut provider = WlClipboardProvider::new();
    assert_eq!(provider.announce_formats(texts(&["a", "a"])).len(), 2);
    assert_eq!(provider.our_mime_types, texts(&["a"]));
    provider.complete_transfer("text/plain", vec![1], true);
    assert_eq!(provider.our_mime_types.len(), 5);
}

#[test]
fn failed_looks_are_counted() {
    let mut watch = SelectionWatch::new();
    for _ in 0..20 {
        assert!(watch.poll(LookOutcome::Failed("x".to_string()), &vec![]).is_none());
    }
    assert!(watch.warns() && !watch.notes());
    watch.poll(LookOutcome::Failed("x".to_string()), &vec![]);
    assert!(!watch.warns() && !watch.notes());
    for _ in 21..100 {
        watch.poll(LookOutcome::Failed("x".to_string()), &vec![]);
    }
    assert_eq!(watch.error_streak, 100);
    assert!(watch.notes() && !watch.warns());
    watch.poll(LookOutcome::ClipboardEmpty, &vec![]);
    assert_eq!(watch.error_streak, 0);
    assert!(!watch.warns() && !watch.notes());
}

#[test]
fn selections_take_the_types_of_their_offer() {
    let mut state = MonitorState::new();
    state.data_offer(5);
    state.offer(5, "text/plain".to_string());
    state.offer(6, "lost".to_string());
    state.selection(Some(5));
    assert!(state.take_change());
    assert!(!state.take_change());
    assert_eq!(state.current_mime_types, texts(&["text/plain"]));
    state.data_offer(7);
    state.offer(7, "text/plain".to_string());
    state.selection(Some(7));
    assert!(!state.take_change());
    state.selection(Some(9));
    assert!(state.take_change());
    assert!(state.current_mime_types.is_empty());
    state.selection(None);
    assert!(!state.take_change());
}

#[test]
fn data_is_kept_by_type() {
    let mut map = DataMap::new();
    map.insert("a", vec![1]);
    map.insert("b", vec![2]);
    map.insert("a", vec![3]);
    assert_eq!(map.get("a"), Some(&vec![3]));
    assert_eq!(map.get("b"), Some(&vec![2]));
    assert_eq!(map.get("c"), None);
    assert!(same_types(&map.types(), &texts(&["a", "b"])));
    assert_eq!(map.duplicate().get("b"), Some(&vec![2]));
}
