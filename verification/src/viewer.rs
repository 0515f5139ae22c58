use vstd::prelude::*;
use crate::swapchain::{WIDTH, HEIGHT};

verus! {

/// The title shown before the shader's file name.
pub open spec fn title_prefix() -> Seq<char> {
    "Slang Viewer — "@
}

/// How the viewer's window is created.
pub struct WindowConfig {
    pub title: String,
    pub width: u32,
    pub height: u32,
    /// The viewer does not recreate the swapchain on resize, so the window
    /// keeps its size.
    pub resizable: bool,
}

/// The window events the viewer tells apart.
#[derive(Clone, Copy, Debug, PartialEq, Eq, Structural)]
pub enum WindowEvent {
    CloseRequested,
    RedrawRequested,
    /// Any other event, which the viewer ignores.
    Other,
}

/// What the caller does in answer to a window event.
#[derive(Clone, Copy, Debug, PartialEq, Eq, Structural)]
pub enum WindowAction {
    /// Destroy the Vulkan objects first where `destroy_renderer` says so,
    /// then ask the event loop to exit.
    Close { destroy_renderer: bool },
    /// Draw one frame with the live Vulkan objects.
    Draw,
    /// Nothing to do.
    Ignore,
}

/// Which of the viewer's resources exist.
pub struct AppState {
    pub window_open: bool,
    pub renderer_live: bool,
}

/// The viewer's state between event-loop callbacks: the shader's display
/// name, whether its window is open and whether its Vulkan objects are
/// live. The caller holds the window and the Vulkan objects themselves and
/// creates, uses and destroys them as the actions returned here say.
pub struct App {
    shader_name: String,
    window_open: bool,
    renderer_live: bool,
}

/// Vulkan objects exist only while their window does.
pub open spec fn state_valid(s: AppState) -> bool {
    s.renderer_live ==> s.window_open
}

pub open spec fn initial_state() -> AppState {
    AppState { window_open: false, renderer_live: false }
}

/// Resuming opens a window and creates the Vulkan objects for it.
pub open spec fn resumed_state(s: AppState) -> AppState {
    AppState { window_open: true, renderer_live: true }
}

/// A close request destroys the Vulkan objects, if any, and the loop
/// exits; a redraw draws only with live Vulkan objects. The window stays
/// until the loop is gone.
pub open spec fn on_window_event(s: AppState, event: WindowEvent) -> (AppState, WindowAction) {
    match event {
        WindowEvent::CloseRequested => (
            AppState { window_open: s.window_open, renderer_live: false },
            WindowAction::Close { destroy_renderer: s.renderer_live },
        ),
        WindowEvent::RedrawRequested => (
            s,
            if s.renderer_live {
                WindowAction::Draw
            } else {
                WindowAction::Ignore
            },
        ),
        WindowEvent::Other => (s, WindowAction::Ignore),
    }
}

/// Before the loop waits for events it asks for a redraw, as long as
/// there is a window to redraw.
pub open spec fn wants_redraw(s: AppState) -> bool {
    s.window_open
}

impl View for App {
    type V = AppState;

    closed spec fn view(&self) -> AppState {
        AppState { window_open: self.window_open, renderer_live: self.renderer_live }
    }
}

impl App {
    /// The shader's display name.
    pub closed spec fn name(&self) -> Seq<char> {
        self.shader_name@
    }

    /// A viewer for the shader named `shader_name`, before its window
    /// exists.
    pub fn new(shader_name: String) -> (app: Self)
        ensures
            app@ == initial_state(),
            app.name() == shader_name@,
    {
        App { shader_name, window_open: false, renderer_live: false }
    }

    /// The event loop resumed: the caller opens a window configured as
    /// returned and creates the Vulkan objects for it.
    pub fn resumed(&mut self) -> (config: WindowConfig)
        ensures
            final(self)@ == resumed_state(old(self)@),
            final(self)@.window_open && final(self)@.renderer_live,
            final(self).name() == old(self).name(),
            config.title@ == title_prefix() + old(self).name(),
            config.width == WIDTH,
            config.height == HEIGHT,
            !config.resizable,
    {
        let mut title = String::from_str("Slang Viewer — ");
        proof {
            reveal_strlit("Slang Viewer — ");
        }
        title.append(self.shader_name.as_str());
        self.window_open = true;
        self.renderer_live = true;
        WindowConfig { title, width: WIDTH, height: HEIGHT, resizable: false }
    }

    /// A window event arrived.
    pub fn window_event(&mut self, event: WindowEvent) -> (action: WindowAction)
        ensures
            (final(self)@, action) == on_window_event(old(self)@, event),
            final(self).name() == old(self).name(),
            event != WindowEvent::CloseRequested ==> final(self)@ == old(self)@,
            event == WindowEvent::CloseRequested ==> final(self)@.window_open == old(
                self,
            )@.window_open && !final(self)@.renderer_live && action == (WindowAction::Close {
                destroy_renderer: old(self)@.renderer_live,
            }),
            event == WindowEvent::RedrawRequested ==> (action == WindowAction::Draw
                <==> old(self)@.renderer_live),
            event == WindowEvent::RedrawRequested && !old(self)@.renderer_live ==> action
                == WindowAction::Ignore,
            event == WindowEvent::Other ==> action == WindowAction::Ignore,
    {
        match event {
            WindowEvent::CloseRequested => {
                let destroy_renderer = self.renderer_live;
                self.renderer_live = false;
                WindowAction::Close { destroy_renderer }
            },
            WindowEvent::RedrawRequested => {
                if self.renderer_live {
                    WindowAction::Draw
                } else {
                    WindowAction::Ignore
                }
            },
            WindowEvent::Other => WindowAction::Ignore,
        }
    }

    /// The event loop is about to wait: whether to request a redraw of the
    /// window.
    pub fn about_to_wait(&self) -> (redraw: bool)
        ensures
            redraw == wants_redraw(self@),
            redraw == self@.window_open,
    {
        self.window_open
    }
}

/// The viewer starts with no resources, and every callback keeps the
/// Vulkan objects from outliving their window.
pub proof fn state_stays_valid(s: AppState, event: WindowEvent)
    requires
        state_valid(s),
    ensures
        state_valid(initial_state()),
        state_valid(resumed_state(s)),
        state_valid(on_window_event(s, event).0),
{
}

/// Every close request asks the event loop to exit, and leaves no live
/// Vulkan objects behind.
pub proof fn close_request_exits(s: AppState)
    ensures
        on_window_event(s, WindowEvent::CloseRequested).1 is Close,
        !on_window_event(s, WindowEvent::CloseRequested).0.renderer_live,
{
}

/// A frame is drawn exactly when a redraw is requested while the Vulkan
/// objects are live.
pub proof fn draws_only_with_live_renderer(s: AppState, event: WindowEvent)
    ensures
        on_window_event(s, event).1 == WindowAction::Draw <==> (event
            == WindowEvent::RedrawRequested && s.renderer_live),
{
}

/// A redraw that arrives after a close request (the windowing system may
/// still deliver one) draws nothing: the destroyed Vulkan objects are
/// never used.
pub proof fn redraw_after_close_draws_nothing(s: AppState)
    ensures
        on_window_event(on_window_event(s, WindowEvent::CloseRequested).0, WindowEvent::RedrawRequested).1
            == WindowAction::Ignore,
{
}

/// The Vulkan objects are destroyed at most once: whatever events follow a
/// close request, until the loop resumes again, none destroys them.
pub proof fn renderer_destroyed_at_most_once(s: AppState, later: Seq<WindowEvent>)
    ensures
        ({
            let closed = on_window_event(s, WindowEvent::CloseRequested).0;
            forall|k: int|
                0 <= k < later.len() ==> !(#[trigger] on_window_event(
                    run_events(closed, later.take(k)),
                    later[k],
                ).1 matches WindowAction::Close { destroy_renderer: true })
        }),
{
    let closed = on_window_event(s, WindowEvent::CloseRequested).0;
    assert forall|k: int| 0 <= k < later.len() implies !(#[trigger] on_window_event(
        run_events(closed, later.take(k)),
        later[k],
    ).1 matches WindowAction::Close { destroy_renderer: true }) by {
        events_keep_renderer_down(closed, later.take(k));
    }
}

/// A redraw request and any ignored event leave the viewer's state as it
/// was: every redraw while the Vulkan objects are live draws, and only a
/// close request changes what exists.
pub proof fn only_close_changes_state(s: AppState)
    ensures
        on_window_event(s, WindowEvent::RedrawRequested).0 == s,
        on_window_event(s, WindowEvent::Other).0 == s,
        on_window_event(s, WindowEvent::Other).1 == WindowAction::Ignore,
        on_window_event(s, WindowEvent::CloseRequested).0.window_open == s.window_open,
        on_window_event(s, WindowEvent::CloseRequested).1 == (WindowAction::Close {
            destroy_renderer: s.renderer_live,
        }),
        wants_redraw(s) == s.window_open,
        resumed_state(s).window_open && resumed_state(s).renderer_live,
{
}

/// While the Vulkan objects are live, any number of redraw requests and
/// ignored events keep them live, so each later redraw draws, and a close
/// request after them destroys them.
pub proof fn redraws_keep_drawing(s: AppState, events: Seq<WindowEvent>)
    requires
        s.renderer_live,
        forall|k: int| 0 <= k < events.len() ==> #[trigger] events[k] != WindowEvent::CloseRequested,
    ensures
        run_events(s, events) == s,
        on_window_event(run_events(s, events), WindowEvent::RedrawRequested).1 == WindowAction::Draw,
        on_window_event(run_events(s, events), WindowEvent::CloseRequested).1 == (WindowAction::Close {
            destroy_renderer: true,
        }),
    decreases events.len(),
{
    if events.len() > 0 {
        let init = events.drop_last();
        assert forall|k: int| 0 <= k < init.len() implies #[trigger] init[k]
            != WindowEvent::CloseRequested by {
            assert(init[k] == events[k]);
        }
        redraws_keep_drawing(s, init);
        assert(events.last() == events[events.len() - 1]);
    }
}

/// The state after a sequence of window events.
pub open spec fn run_events(s: AppState, events: Seq<WindowEvent>) -> AppState
    decreases events.len(),
{
    if events.len() == 0 {
        s
    } else {
        on_window_event(run_events(s, events.drop_last()), events.last()).0
    }
}

/// Window events never bring dead Vulkan objects back; only resuming does.
pub proof fn events_keep_renderer_down(s: AppState, events: Seq<WindowEvent>)
    requires
        !s.renderer_live,
    ensures
        !run_events(s, events).renderer_live,
    decreases events.len(),
{
    if events.len() > 0 {
        events_keep_renderer_down(s, events.drop_last());
    }
}

} // verus!
