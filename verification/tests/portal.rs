use screen_recorder_picker::options::OptionValue;
use screen_recorder_picker::portal::{
    available_cursor_modes, available_source_types, create_session, select_sources,
    source_type_code, start_response, version, PORTAL_RESPONSE_CANCELLED,
    PORTAL_RESPONSE_SUCCESS, SOURCE_TYPE_MONITOR, SOURCE_TYPE_WINDOW,
};
use screen_recorder_picker::selection::{Geometry, IpcResponse, TransportError};
use screen_recorder_picker::session::PortalState;

#[test]
fn create_session_seeds_defaults() {
    let mut state = PortalState::new();
    let status = create_session(&mut state, "/session/1");
    assert_eq!(status, PORTAL_RESPONSE_SUCCESS);
    let s = state.get("/session/1").expect("session must exist");
    assert_eq!(s.source_types, 0);
    assert_eq!(s.cursor_mode, 2);
    assert_eq!(s.persist_mode, 0);
    assert!(s.restore_token.is_none());
}

#[test]
fn select_sources_updates_exactly_the_four_fields() {
    let mut state = PortalState::new();
    create_session(&mut state, "/session/a");
    create_session(&mut state, "/session/b");
    let options = vec![
        ("types".to_string(), OptionValue::U32(2)),
        ("cursor_mode".to_string(), OptionValue::U32(1)),
        ("persist_mode".to_string(), OptionValue::U32(2)),
        ("restore_token".to_string(), OptionValue::Str("tok-1".to_string())),
    ];
    let (status, found) = select_sources(&mut state, "/session/a", &options);
    assert_eq!(status, PORTAL_RESPONSE_SUCCESS);
    assert!(found);
    let a = state.get("/session/a").unwrap();
    assert_eq!(a.source_types, 2);
    assert_eq!(a.cursor_mode, 1);
    assert_eq!(a.persist_mode, 2);
    assert_eq!(a.restore_token.as_deref(), Some("tok-1"));
    // the other session keeps its defaults
    let b = state.get("/session/b").unwrap();
    assert_eq!(b.source_types, 0);
    assert_eq!(b.cursor_mode, 2);
    assert_eq!(b.persist_mode, 0);
    assert!(b.restore_token.is_none());
}

#[test]
fn select_sources_defaults_for_missing_and_mistyped_options() {
    let mut state = PortalState::new();
    create_session(&mut state, "/session/a");
    // a mistyped option reads as absent
    let options = vec![("types".to_string(), OptionValue::Str("2".to_string()))];
    let (status, found) = select_sources(&mut state, "/session/a", &options);
    assert_eq!(status, PORTAL_RESPONSE_SUCCESS);
    assert!(found);
    let a = state.get("/session/a").unwrap();
    assert_eq!(a.source_types, SOURCE_TYPE_MONITOR | SOURCE_TYPE_WINDOW);
    assert_eq!(a.cursor_mode, 2);
    assert_eq!(a.persist_mode, 0);
    assert!(a.restore_token.is_none());
}

#[test]
fn select_sources_on_unknown_handle_is_a_successful_no_op() {
    let mut state = PortalState::new();
    create_session(&mut state, "/session/known");
    let options = vec![("types".to_string(), OptionValue::U32(2))];
    let (status, found) = select_sources(&mut state, "/session/unknown", &options);
    assert_eq!(status, PORTAL_RESPONSE_SUCCESS);
    assert!(!found);
    // no entry was created
    assert!(state.get("/session/unknown").is_none());
    // the known session is untouched
    let k = state.get("/session/known").unwrap();
    assert_eq!(k.source_types, 0);
}

#[test]
fn duplicate_create_overwrites_the_entry() {
    let mut state = PortalState::new();
    create_session(&mut state, "/session/a");
    let options = vec![("persist_mode".to_string(), OptionValue::U32(1))];
    select_sources(&mut state, "/session/a", &options);
    create_session(&mut state, "/session/a");
    let a = state.get("/session/a").unwrap();
    assert_eq!(a.persist_mode, 0);
}

#[test]
fn start_with_monitor_selection_succeeds_without_geometry() {
    let outcome = Ok(IpcResponse::Selection {
        source_type: "monitor".to_string(),
        source_id: "mon-0".to_string(),
        geometry: None,
    });
    let r = start_response(&outcome);
    assert_eq!(r.status, PORTAL_RESPONSE_SUCCESS);
    assert_eq!(r.streams.len(), 1);
    let d = &r.streams[0];
    assert_eq!(d.node_id, 0);
    assert_eq!(d.source_type, SOURCE_TYPE_MONITOR);
    assert_eq!(d.id, "mon-0");
    assert!(d.position.is_none());
    assert!(d.size.is_none());
}

#[test]
fn start_with_region_selection_reports_monitor_code_and_geometry() {
    let outcome = Ok(IpcResponse::Selection {
        source_type: "region".to_string(),
        source_id: "mon-0".to_string(),
        geometry: Some(Geometry { x: 10, y: 20, width: 800, height: 600 }),
    });
    let r = start_response(&outcome);
    assert_eq!(r.status, PORTAL_RESPONSE_SUCCESS);
    assert_eq!(r.streams.len(), 1);
    let d = &r.streams[0];
    assert_eq!(d.source_type, SOURCE_TYPE_MONITOR);
    assert_eq!(d.id, "mon-0");
    assert_eq!(d.position, Some((10, 20)));
    assert_eq!(d.size, Some((800, 600)));
}

#[test]
fn start_with_window_selection_reports_window_code() {
    let outcome = Ok(IpcResponse::Selection {
        source_type: "window".to_string(),
        source_id: "win-7".to_string(),
        geometry: None,
    });
    let r = start_response(&outcome);
    assert_eq!(r.status, PORTAL_RESPONSE_SUCCESS);
    assert_eq!(r.streams[0].source_type, SOURCE_TYPE_WINDOW);
    assert_eq!(r.streams[0].id, "win-7");
}

#[test]
fn start_with_no_selection_is_cancelled() {
    let outcome = Ok(IpcResponse::NoSelection);
    let r = start_response(&outcome);
    assert_eq!(r.status, PORTAL_RESPONSE_CANCELLED);
    assert!(r.streams.is_empty());
}

#[test]
fn start_with_companion_error_is_cancelled() {
    let outcome = Ok(IpcResponse::Error { message: "backend failure".to_string() });
    let r = start_response(&outcome);
    assert_eq!(r.status, PORTAL_RESPONSE_CANCELLED);
    assert!(r.streams.is_empty());
}

#[test]
fn start_with_transport_failure_is_cancelled() {
    let outcome = Err(TransportError::Unreachable { detail: "connection refused".to_string() });
    let r = start_response(&outcome);
    assert_eq!(r.status, PORTAL_RESPONSE_CANCELLED);
    assert!(r.streams.is_empty());

    let r2 = start_response(&Err(TransportError::TimedOut));
    assert_eq!(r2.status, PORTAL_RESPONSE_CANCELLED);
    assert!(r2.streams.is_empty());
}

#[test]
fn source_type_mapping_is_total_and_deterministic() {
    for tag in ["monitor", "window", "region", "anything-else"] {
        let first = source_type_code(tag);
        assert!(first == SOURCE_TYPE_MONITOR || first == SOURCE_TYPE_WINDOW);
        for _ in 0..3 {
            assert_eq!(source_type_code(tag), first);
        }
    }
    assert_eq!(source_type_code("monitor"), SOURCE_TYPE_MONITOR);
    assert_eq!(source_type_code("window"), SOURCE_TYPE_WINDOW);
    assert_eq!(source_type_code("region"), SOURCE_TYPE_MONITOR);
    assert_eq!(source_type_code("anything-else"), SOURCE_TYPE_MONITOR);
}

#[test]
fn advertised_capabilities_are_fixed() {
    assert_eq!(available_source_types(), 3);
    assert_eq!(available_cursor_modes(), 2);
    assert_eq!(version(), 4);
}
