use nelly::platform_message::shutdown::Shutdown;
use nelly::platform_message::wlr_layer::{
    Anchor, Create as LayerCreate, Layer, Remove as LayerRemove, Update as LayerUpdate,
};
use nelly::platform_message::xdg_toplevel::{
    Create, InitialCommit, Remove, Update, UpdateViewConstraints,
};
use nelly::platform_message::AnyPlatformRequest;
use nelly::registry::{SurfaceKind, ViewEntry};
use nelly::session::{Effect, Outcome, Reply, RunError, Session};
use nelly::shell::compositor::{
    EngineCall, LogicalSizeConstraints, Size, SurfaceData, WindowMetrics,
};
use nelly::view::ViewId;

fn logical(min_width: f64, min_height: f64, max_width: f64, max_height: f64) -> LogicalSizeConstraints {
    LogicalSizeConstraints {
        min_width: min_width.to_bits(),
        min_height: min_height.to_bits(),
        max_width: max_width.to_bits(),
        max_height: max_height.to_bits(),
    }
}

fn with_toplevel() -> (Session, ViewId) {
    let mut session = Session::new();
    let outcome = session.run(&AnyPlatformRequest::XdgToplevelCreate(Create)).unwrap();
    assert_eq!(outcome.effects, vec![Effect::CreateToplevel { view_id: ViewId(1) }]);
    (session, ViewId(1))
}

#[test]
fn shutdown_stops_the_loop_and_answers_with_nothing() {
    let mut session = Session::new();
    assert!(!session.stopped);
    let outcome = session.run(&AnyPlatformRequest::Shutdown(Shutdown));
    assert_eq!(outcome, Ok(Outcome { response: vec![], effects: vec![Effect::StopLoop] }));
    assert!(session.stopped);
}

#[test]
fn toplevel_create_answers_with_the_view_id() {
    let mut session = Session::new();
    let first = session.run(&AnyPlatformRequest::XdgToplevelCreate(Create)).unwrap();
    assert_eq!(first.response, 1i64.to_le_bytes().to_vec());
    assert_eq!(first.effects, vec![Effect::CreateToplevel { view_id: ViewId(1) }]);
    let second = session.run(&AnyPlatformRequest::XdgToplevelCreate(Create)).unwrap();
    assert_eq!(second.response, 2i64.to_le_bytes().to_vec());
    assert_eq!(
        session.views.lookup(ViewId(2)),
        Some(&ViewEntry {
            kind: SurfaceKind::XdgToplevel,
            data: SurfaceData::for_view(ViewId(2)),
            detaching: false,
        })
    );
    assert!(!session.stopped);
}

#[test]
fn layer_create_shares_the_counter() {
    let (mut session, _) = with_toplevel();
    let request = AnyPlatformRequest::WlrLayerCreate(LayerCreate {
        layer: Layer::Overlay,
        namespace: "bar".to_string(),
    });
    let outcome = session.run(&request).unwrap();
    assert_eq!(outcome.response, 2i64.to_le_bytes().to_vec());
    assert_eq!(
        outcome.effects,
        vec![Effect::CreateLayerSurface { view_id: ViewId(2), layer: Layer::Overlay }]
    );
    assert_eq!(session.views.lookup(ViewId(2)).unwrap().kind, SurfaceKind::WlrLayer);
}

#[test]
fn create_fails_when_the_id_is_taken() {
    let mut session = Session::new();
    session.views.insert(
        ViewId(1),
        ViewEntry { kind: SurfaceKind::XdgPopup, data: SurfaceData::for_view(ViewId(1)), detaching: false },
    );
    assert_eq!(
        session.run(&AnyPlatformRequest::XdgToplevelCreate(Create)),
        Err(RunError::IdInUse)
    );
    assert_eq!(session.views.lookup(ViewId(1)).unwrap().kind, SurfaceKind::XdgPopup);
}

#[test]
fn initial_commit_of_a_window() {
    let (mut session, id) = with_toplevel();
    assert_eq!(
        session.run(&AnyPlatformRequest::XdgToplevelInitialCommit(InitialCommit { view_id: id })),
        Ok(Outcome { response: vec![], effects: vec![Effect::Commit { view_id: id }] })
    );
}

#[test]
fn update_of_a_window() {
    let (mut session, id) = with_toplevel();
    let request = AnyPlatformRequest::XdgToplevelUpdate(Update {
        view_id: id,
        title: "t".to_string(),
        app_id: "a".to_string(),
    });
    assert_eq!(
        session.run(&request),
        Ok(Outcome { response: vec![], effects: vec![Effect::SetTitleAndAppId { view_id: id }] })
    );
}

#[test]
fn update_of_an_unknown_view_fails() {
    let (mut session, _) = with_toplevel();
    let request = AnyPlatformRequest::XdgToplevelUpdate(Update {
        view_id: ViewId(77),
        title: "t".to_string(),
        app_id: "a".to_string(),
    });
    assert_eq!(session.run(&request), Err(RunError::ViewNotFound));
    assert_eq!(
        session.run(&AnyPlatformRequest::XdgToplevelInitialCommit(InitialCommit {
            view_id: ViewId(77)
        })),
        Err(RunError::ViewNotFound)
    );
}

#[test]
fn update_of_a_view_of_another_kind_fails() {
    let (mut session, id) = with_toplevel();
    let request = AnyPlatformRequest::WlrLayerUpdate(LayerUpdate {
        view_id: id,
        width: 1,
        height: 2,
        anchor: Anchor { bits: 1 },
    });
    assert_eq!(session.run(&request), Err(RunError::ViewNotFound));
}

#[test]
fn update_of_a_layer_surface() {
    let mut session = Session::new();
    session
        .run(&AnyPlatformRequest::WlrLayerCreate(LayerCreate {
            layer: Layer::Top,
            namespace: "bar".to_string(),
        }))
        .unwrap();
    let request = AnyPlatformRequest::WlrLayerUpdate(LayerUpdate {
        view_id: ViewId(1),
        width: 1920,
        height: 30,
        anchor: Anchor { bits: 13 },
    });
    assert_eq!(
        session.run(&request),
        Ok(Outcome {
            response: vec![],
            effects: vec![Effect::SetSizeAndAnchor {
                view_id: ViewId(1),
                width: 1920,
                height: 30,
                anchor: Anchor { bits: 13 },
            }],
        })
    );
}

#[test]
fn view_constraints_set_limits_and_ask_for_the_constraints() {
    let (mut session, id) = with_toplevel();
    let constraints = logical(99.5, 100.0, 500.5, 400.0);
    let request = AnyPlatformRequest::XdgToplevelUpdateViewConstraints(UpdateViewConstraints {
        view_id: id,
        constraints,
    });
    assert_eq!(
        session.run(&request),
        Ok(Outcome {
            response: vec![],
            effects: vec![
                Effect::SetSizeLimits {
                    view_id: id,
                    min_width: 100,
                    min_height: 100,
                    max_width: 500,
                    max_height: 400,
                },
                Effect::ApplyConstraints { view_id: id, constraints },
            ],
        })
    );
}

#[test]
fn view_constraints_that_the_protocol_forbids_set_no_limits() {
    let (mut session, id) = with_toplevel();
    let constraints = logical(500.0, 100.0, 100.0, 400.0);
    let request = AnyPlatformRequest::XdgToplevelUpdateViewConstraints(UpdateViewConstraints {
        view_id: id,
        constraints,
    });
    assert_eq!(
        session.run(&request).unwrap().effects,
        vec![Effect::ApplyConstraints { view_id: id, constraints }]
    );
}

#[test]
fn remove_waits_for_the_engine() {
    let (mut session, id) = with_toplevel();
    let request = AnyPlatformRequest::XdgToplevelRemove(Remove { view_id: id });
    assert_eq!(
        session.run(&request),
        Ok(Outcome { response: vec![], effects: vec![Effect::DetachView { view_id: id }] })
    );
    assert!(session.views.lookup(id).unwrap().detaching);
    assert_eq!(session.run(&request), Err(RunError::ViewNotFound));
    let gone = session.view_removed(id).unwrap();
    assert_eq!(gone.kind, SurfaceKind::XdgToplevel);
    assert_eq!(session.views.lookup(id), None);
    assert_eq!(session.view_removed(id), None);
}

#[test]
fn layer_remove_of_an_unknown_view_fails() {
    let mut session = Session::new();
    assert_eq!(
        session.run(&AnyPlatformRequest::WlrLayerRemove(LayerRemove { view_id: ViewId(3) })),
        Err(RunError::ViewNotFound)
    );
}

#[test]
fn confirmation_for_a_view_that_stays_changes_nothing() {
    let (mut session, id) = with_toplevel();
    assert_eq!(session.view_removed(id), None);
    assert!(session.views.lookup(id).is_some());
}

#[test]
fn answer_is_empty_after_a_failure() {
    let mut session = Session::new();
    let reply = session.answer(&AnyPlatformRequest::XdgToplevelInitialCommit(InitialCommit {
        view_id: ViewId(4),
    }));
    assert_eq!(
        reply,
        Reply { response: vec![], effects: vec![], error: Some(RunError::ViewNotFound) }
    );
}

#[test]
fn answer_holds_the_response_after_a_success() {
    let mut session = Session::new();
    let reply = session.answer(&AnyPlatformRequest::XdgToplevelCreate(Create));
    assert_eq!(
        reply,
        Reply {
            response: 1i64.to_le_bytes().to_vec(),
            effects: vec![Effect::CreateToplevel { view_id: ViewId(1) }],
            error: None,
        }
    );
}

#[test]
fn sizes_go_through_the_session() {
    let (mut session, id) = with_toplevel();
    let metrics = |width, height| WindowMetrics {
        view_id: id,
        width,
        height,
        pixel_ratio: 1.0f64.to_bits(),
    };
    assert_eq!(
        session.set_physical_size(id, Size { width: 800, height: 600 }, None),
        Ok(EngineCall::AddView(metrics(800, 600)))
    );
    assert_eq!(
        session.set_physical_size(id, Size { width: 1000, height: 700 }, None),
        Ok(EngineCall::UpdateMetrics(metrics(1000, 700)))
    );
    assert_eq!(
        session.set_physical_size(ViewId(50), Size { width: 1, height: 1 }, None),
        Err(RunError::ViewNotFound)
    );
    let constraints = logical(100.0, 100.0, 500.0, 500.0);
    assert_eq!(
        session.set_logical_size_constraints(id, constraints, constraints),
        Ok(EngineCall::UpdateMetrics(metrics(500, 500)))
    );
    assert_eq!(
        session.set_logical_size_constraints(id, constraints, constraints),
        Ok(EngineCall::Nothing)
    );
    assert_eq!(
        session.set_logical_size_constraints(ViewId(50), constraints, constraints),
        Err(RunError::ViewNotFound)
    );
}

#[test]
fn late_answer_for_a_view_that_left_is_ignored() {
    let (mut session, id) = with_toplevel();
    session.set_physical_size(id, Size { width: 800, height: 600 }, None).unwrap();
    session.run(&AnyPlatformRequest::XdgToplevelRemove(Remove { view_id: id })).unwrap();
    session.view_removed(id);
    session.add_view_completed(id, false);
    assert_eq!(session.views.lookup(id), None);
}

#[test]
fn refusal_rolls_the_view_back() {
    let (mut session, id) = with_toplevel();
    session.set_physical_size(id, Size { width: 800, height: 600 }, None).unwrap();
    assert!(session.views.lookup(id).unwrap().data.was_mapped);
    session.add_view_completed(id, true);
    assert!(session.views.lookup(id).unwrap().data.was_mapped);
    session.add_view_completed(id, false);
    assert!(!session.views.lookup(id).unwrap().data.was_mapped);
    assert_eq!(session.views.lookup(id).unwrap().data.previous_size, None);
    assert_eq!(
        session.set_physical_size(id, Size { width: 800, height: 600 }, None),
        Ok(EngineCall::AddView(WindowMetrics {
            view_id: id,
            width: 800,
            height: 600,
            pixel_ratio: 1.0f64.to_bits(),
        }))
    );
}

#[test]
fn contradicting_constraints_fail_no_request() {
    let (mut session, id) = with_toplevel();
    session.set_physical_size(id, Size { width: 800, height: 600 }, None).unwrap();
    let constraints = logical(10.5, 10.5, 10.5, 10.5);
    assert_eq!(
        session.set_logical_size_constraints(id, constraints, constraints),
        Ok(EngineCall::UpdateMetrics(WindowMetrics {
            view_id: id,
            width: 10,
            height: 10,
            pixel_ratio: 1.0f64.to_bits(),
        }))
    );
    assert_eq!(
        session.set_physical_size(id, Size { width: 1, height: 1 }, Some(constraints)),
        Ok(EngineCall::UpdateMetrics(WindowMetrics {
            view_id: id,
            width: 11,
            height: 11,
            pixel_ratio: 1.0f64.to_bits(),
        }))
    );
    assert_eq!(
        session.set_physical_size(id, Size { width: 1, height: 1 }, None),
        Ok(EngineCall::Nothing)
    );
}
