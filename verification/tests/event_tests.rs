use pulsar::events::{dispatch, EngineAction, WindowNotice};

#[test]
fn notifications_map_onto_engine_actions() {
    assert_eq!(
        dispatch(WindowNotice::Resized { width: 640, height: 0 }),
        EngineAction::ApplyResize { width: 640, height: 0 }
    );
    assert_eq!(dispatch(WindowNotice::RedrawRequested), EngineAction::RenderFrame);
    assert_eq!(dispatch(WindowNotice::CloseRequested), EngineAction::Shutdown);
    assert_eq!(dispatch(WindowNotice::Other), EngineAction::Ignore);
}
