use slang_viewer::viewer::{App, WindowAction, WindowEvent};

#[test]
fn resumed_configures_window() {
    let mut app = App::new("triangle.slang".to_string());
    let config = app.resumed();
    assert_eq!(config.title, "Slang Viewer — triangle.slang");
    assert_eq!((config.width, config.height), (800, 600));
    assert!(!config.resizable);
}

#[test]
fn no_redraw_before_window() {
    let app = App::new("x".to_string());
    assert!(!app.about_to_wait());
}

#[test]
fn redraw_requested_while_window_open() {
    let mut app = App::new("x".to_string());
    app.resumed();
    assert!(app.about_to_wait());
}

#[test]
fn draws_after_resume() {
    let mut app = App::new("x".to_string());
    app.resumed();
    assert!(app.window_event(WindowEvent::RedrawRequested) == WindowAction::Draw);
    assert!(app.window_event(WindowEvent::Other) == WindowAction::Ignore);
}

#[test]
fn close_destroys_once_and_late_redraw_is_ignored() {
    let mut app = App::new("x".to_string());
    app.resumed();
    assert!(
        app.window_event(WindowEvent::CloseRequested)
            == WindowAction::Close { destroy_renderer: true }
    );
    assert!(app.window_event(WindowEvent::RedrawRequested) == WindowAction::Ignore);
    assert!(
        app.window_event(WindowEvent::CloseRequested)
            == WindowAction::Close { destroy_renderer: false }
    );
    // The window stays until the loop is gone.
    assert!(app.about_to_wait());
}

#[test]
fn redraw_before_resume_is_ignored() {
    let mut app = App::new("x".to_string());
    assert!(app.window_event(WindowEvent::RedrawRequested) == WindowAction::Ignore);
    assert!(
        app.window_event(WindowEvent::CloseRequested)
            == WindowAction::Close { destroy_renderer: false }
    );
}
