//! The plain form of an ability: one handler that the application may
//! replace at any time, and notifications that record nothing.

use crate::app::{saved_bytes, DEFAULT_FRAME_RATE};
use crate::area::{ContentRect, Rect, RectChangeReason, Size};
use crate::configuration::Configuration;
use crate::event::{Event, EventView, SaveSaver};
use crate::lifecycle::reported;
use vstd::prelude::*;

verus! {

/// An ability in its plain form.
pub struct App {
    has_handler: bool,
    state: Vec<u8>,
    save_state: bool,
    frame_rate: u32,
}

/// An ability in its plain form, as plain values.
pub struct AppView {
    /// Whether the application has installed an event handler.
    pub has_handler: bool,
    /// The state that the application saved last.
    pub state: Seq<u8>,
    /// Whether saved state is handed back.
    pub save_state: bool,
    /// The frame rate the application asked for.
    pub frame_rate: u32,
}

impl AppView {
    /// An ability that has just been made.
    pub open spec fn initial() -> AppView {
        AppView {
            has_handler: false,
            state: Seq::<u8>::empty(),
            save_state: false,
            frame_rate: DEFAULT_FRAME_RATE,
        }
    }

    /// The state that the application gets back: what it saved last, where
    /// saved state is handed back at all.
    pub open spec fn loadable(self) -> Option<Seq<u8>> {
        if self.save_state {
            Some(self.state)
        } else {
            None
        }
    }

    /// What reaches the application of an event: the event once a handler is
    /// installed, nothing before.
    pub open spec fn delivers<K, T>(self, event: EventView<K, T>) -> Option<EventView<K, T>> {
        if self.has_handler {
            Some(event)
        } else {
            None
        }
    }
}

impl View for App {
    type V = AppView;

    closed spec fn view(&self) -> AppView {
        AppView {
            has_handler: self.has_handler,
            state: self.state@,
            save_state: self.save_state,
            frame_rate: self.frame_rate,
        }
    }
}

impl App {
    /// A new ability.
    pub fn new() -> (r: App)
        ensures
            r@ == AppView::initial(),
    {
        App { has_handler: false, state: Vec::new(), save_state: false, frame_rate: DEFAULT_FRAME_RATE }
    }

    /// The saved state, where saved state is handed back.
    pub fn load(&self) -> (r: Option<Vec<u8>>)
        ensures
            saved_bytes(r) == self@.loadable(),
    {
        if self.save_state {
            Some(self.state.clone())
        } else {
            None
        }
    }

    /// Replaces the saved state.
    pub fn save(&mut self, state: Vec<u8>)
        ensures
            final(self)@ == (AppView { state: state@, ..old(self)@ }),
    {
        self.state = state;
    }

    /// Records the frame rate the application asks for.
    pub fn set_frame_rate(&mut self, frame_rate: u32)
        ensures
            final(self)@ == (AppView { frame_rate, ..old(self)@ }),
    {
        self.frame_rate = frame_rate;
    }

    /// The frame rate the application asked for last.
    pub fn frame_rate(&self) -> (r: u32)
        ensures
            r == self@.frame_rate,
    {
        self.frame_rate
    }

    /// Installs the application's event handler. A handler that was there
    /// before is replaced.
    pub fn run_loop(&mut self)
        ensures
            final(self)@ == (AppView { has_handler: true, ..old(self)@ }),
    {
        self.has_handler = true;
    }

    /// Hands an event on if the application has installed a handler.
    fn deliver<K, T>(&self, event: Event<K, T>) -> (r: Option<Event<K, T>>)
        ensures
            reported(r) == self@.delivers(event@),
    {
        if self.has_handler {
            Some(event)
        } else {
            None
        }
    }

    /// The system reports its memory level.
    pub fn on_memory_level<K, T>(&self, level: i32) -> (r: Option<Event<K, T>>)
        ensures
            reported(r) == self@.delivers(EventView::<K, T>::LowMemory),
    {
        self.deliver(Event::LowMemory)
    }

    /// The system configuration changed.
    pub fn on_configuration_updated<K, T>(&self, configuration: Configuration) -> (r: Option<
        Event<K, T>,
    >)
        ensures
            reported(r) == self@.delivers(EventView::<K, T>::ConfigChanged(configuration@)),
    {
        self.deliver(Event::ConfigChanged(configuration))
    }

    /// The window stage changed how it is shown. Whatever the change, the
    /// application hears that it lost the focus.
    pub fn on_window_stage_event<K, T>(&self, event_type: i32) -> (r: Option<Event<K, T>>)
        ensures
            reported(r) == self@.delivers(EventView::<K, T>::LostFocus),
    {
        self.deliver(Event::LostFocus)
    }

    /// The window has a new size.
    pub fn on_window_size_change<K, T>(&self, width: i32, height: i32) -> (r: Option<Event<K, T>>)
        ensures
            reported(r) == self@.delivers(
                EventView::<K, T>::WindowResize(Size { width, height }),
            ),
    {
        self.deliver(Event::WindowResize(Size { width, height }))
    }

    /// The window has a new rectangle. `reason` is the host's number for why
    /// it changed.
    pub fn on_window_rect_change<K, T>(
        &self,
        reason: i32,
        top: i32,
        left: i32,
        width: i32,
        height: i32,
    ) -> (r: Option<Event<K, T>>)
        ensures
            reported(r) == self@.delivers(
                EventView::<K, T>::ContentRectChange(
                    ContentRect {
                        reason: RectChangeReason::of_code(reason as int),
                        rect: Rect { top, left, width, height },
                    },
                ),
            ),
    {
        self.deliver(
            Event::ContentRectChange(
                ContentRect {
                    reason: RectChangeReason::from(reason),
                    rect: Rect { top, left, width, height },
                },
            ),
        )
    }

    /// The window stage was created.
    pub fn on_window_stage_create<K, T>(&self) -> (r: Option<Event<K, T>>)
        ensures
            reported(r) == self@.delivers(EventView::<K, T>::WindowCreate),
    {
        self.deliver(Event::WindowCreate)
    }

    /// The window stage was destroyed.
    pub fn on_window_stage_destroy<K, T>(&self) -> (r: Option<Event<K, T>>)
        ensures
            reported(r) == self@.delivers(EventView::<K, T>::WindowDestroy),
    {
        self.deliver(Event::WindowDestroy)
    }

    /// The ability was created: the application starts.
    pub fn on_ability_create<K, T>(&self) -> (r: Option<Event<K, T>>)
        ensures
            reported(r) == self@.delivers(EventView::<K, T>::Start),
    {
        self.deliver(Event::Start)
    }

    /// The ability was destroyed.
    pub fn on_ability_destroy<K, T>(&self) -> (r: Option<Event<K, T>>)
        ensures
            reported(r) == self@.delivers(EventView::<K, T>::Destroy),
    {
        self.deliver(Event::Destroy)
    }

    /// The host asks the ability to save its state.
    pub fn on_ability_save_state<K, T>(&self) -> (r: Option<Event<K, T>>)
        ensures
            reported(r) == self@.delivers(EventView::<K, T>::SaveState),
    {
        self.deliver(Event::SaveState(SaveSaver {  }))
    }

    /// A surface to draw on was created.
    pub fn on_surface_created<K, T>(&self) -> (r: Option<Event<K, T>>)
        ensures
            reported(r) == self@.delivers(EventView::<K, T>::SurfaceCreate),
    {
        self.deliver(Event::SurfaceCreate)
    }

    /// The surface is gone.
    pub fn on_surface_destroyed<K, T>(&self) -> (r: Option<Event<K, T>>)
        ensures
            reported(r) == self@.delivers(EventView::<K, T>::SurfaceDestroy),
    {
        self.deliver(Event::SurfaceDestroy)
    }
}

} // verus!
