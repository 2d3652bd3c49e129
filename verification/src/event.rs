//! Everything the host can report to the application.

use crate::area::{ContentRect, Size};
use crate::configuration::{Configuration, ConfigurationView};
use crate::draw::IntervalInfo;
use crate::input::{InputEvent, InputEventView};
use vstd::prelude::*;

verus! {

/// Handed to the application when it resumes: the state it may pick up
/// again.
#[derive(Debug)]
pub struct SaveLoader {
    saved: Option<Vec<u8>>,
}

impl View for SaveLoader {
    type V = Option<Seq<u8>>;

    closed spec fn view(&self) -> Option<Seq<u8>> {
        match self.saved {
            Some(bytes) => Some(bytes@),
            None => None,
        }
    }
}

impl SaveLoader {
    /// A loader that hands out `saved`.
    pub fn new(saved: Option<Vec<u8>>) -> (r: SaveLoader)
        ensures
            r@ == crate::app::saved_bytes(saved),
    {
        SaveLoader { saved }
    }

    /// The state to pick up again, if there is any.
    pub fn load(&self) -> (r: Option<Vec<u8>>)
        ensures
            crate::app::saved_bytes(r) == self@,
    {
        match &self.saved {
            Some(bytes) => Some(bytes.clone()),
            None => None,
        }
    }
}

/// Handed to the application when the host asks it to save its state. The
/// application answers by saving on its ability.
#[derive(Debug, Clone, Copy, PartialEq, Eq, Structural)]
pub struct SaveSaver {}

/// One report of the host. `K` and `T` are what the windowing layer reports
/// of a key and of a touch.
#[derive(Debug)]
pub enum Event<K, T> {
    /// The window stage was created.
    WindowCreate,
    /// The window stage was destroyed.
    WindowDestroy,
    /// A frame is due.
    WindowRedraw(IntervalInfo),
    /// The window has a new size.
    WindowResize(Size),
    /// The window has a new rectangle.
    ContentRectChange(ContentRect),
    /// The system configuration changed.
    ConfigChanged(Configuration),
    /// The system is short of memory.
    LowMemory,
    /// The window is shown.
    Start,
    /// The window has the focus.
    GainedFocus,
    /// The window lost the focus.
    LostFocus,
    /// The ability resumes.
    Resume(SaveLoader),
    /// The ability pauses.
    Pause,
    /// The window is hidden.
    Stop,
    /// The host asks the ability to save its state.
    SaveState(SaveSaver),
    /// The ability was created.
    Create,
    /// The ability was destroyed.
    Destroy,
    /// A surface to draw on exists.
    SurfaceCreate,
    /// The surface is gone.
    SurfaceDestroy,
    /// Keys, touches or the input method.
    Input(InputEvent<K, T>),
    /// Another thread woke the event loop.
    UserEvent,
}

/// What a report says, with texts and bytes as sequences.
pub enum EventView<K, T> {
    WindowCreate,
    WindowDestroy,
    WindowRedraw(IntervalInfo),
    WindowResize(Size),
    ContentRectChange(ContentRect),
    ConfigChanged(ConfigurationView),
    LowMemory,
    Start,
    GainedFocus,
    LostFocus,
    Resume(Option<Seq<u8>>),
    Pause,
    Stop,
    SaveState,
    Create,
    Destroy,
    SurfaceCreate,
    SurfaceDestroy,
    Input(InputEventView<K, T>),
    UserEvent,
}

impl<K, T> View for Event<K, T> {
    type V = EventView<K, T>;

    open spec fn view(&self) -> EventView<K, T> {
        match self {
            Event::WindowCreate => EventView::WindowCreate,
            Event::WindowDestroy => EventView::WindowDestroy,
            Event::WindowRedraw(info) => EventView::WindowRedraw(*info),
            Event::WindowResize(size) => EventView::WindowResize(*size),
            Event::ContentRectChange(rect) => EventView::ContentRectChange(*rect),
            Event::ConfigChanged(configuration) => EventView::ConfigChanged(configuration@),
            Event::LowMemory => EventView::LowMemory,
            Event::Start => EventView::Start,
            Event::GainedFocus => EventView::GainedFocus,
            Event::LostFocus => EventView::LostFocus,
            Event::Resume(loader) => EventView::Resume(loader@),
            Event::Pause => EventView::Pause,
            Event::Stop => EventView::Stop,
            Event::SaveState(_) => EventView::SaveState,
            Event::Create => EventView::Create,
            Event::Destroy => EventView::Destroy,
            Event::SurfaceCreate => EventView::SurfaceCreate,
            Event::SurfaceDestroy => EventView::SurfaceDestroy,
            Event::Input(input) => EventView::Input(input@),
            Event::UserEvent => EventView::UserEvent,
        }
    }
}

impl<K, T> EventView<K, T> {
    /// The name of the kind of report.
    pub open spec fn name(self) -> Seq<char> {
        match self {
            EventView::WindowCreate => "WindowCreate"@,
            EventView::WindowDestroy => "WindowDestroy"@,
            EventView::WindowRedraw(_) => "WindowRedraw"@,
            EventView::WindowResize(_) => "WindowResize"@,
            EventView::ContentRectChange(_) => "ContentRectChange"@,
            EventView::ConfigChanged(_) => "ConfigChanged"@,
            EventView::LowMemory => "LowMemory"@,
            EventView::Start => "Start"@,
            EventView::GainedFocus => "GainedFocus"@,
            EventView::LostFocus => "LostFocus"@,
            EventView::Resume(_) => "Resume"@,
            EventView::Pause => "Pause"@,
            EventView::Stop => "Stop"@,
            EventView::SaveState => "SaveState"@,
            EventView::Create => "Create"@,
            EventView::Destroy => "Destroy"@,
            EventView::SurfaceCreate => "SurfaceCreate"@,
            EventView::SurfaceDestroy => "SurfaceDestroy"@,
            EventView::Input(_) => "Input"@,
            EventView::UserEvent => "UserEvent"@,
        }
    }
}

impl<K, T> Event<K, T> {
    /// The name of the kind of report, for logs.
    pub fn as_str(&self) -> (r: &'static str)
        ensures
            r@ == self@.name(),
    {
        match self {
            Event::WindowCreate => "WindowCreate",
            Event::WindowDestroy => "WindowDestroy",
            Event::WindowRedraw(_) => "WindowRedraw",
            Event::WindowResize(_) => "WindowResize",
            Event::ContentRectChange(_) => "ContentRectChange",
            Event::ConfigChanged(_) => "ConfigChanged",
            Event::LowMemory => "LowMemory",
            Event::Start => "Start",
            Event::GainedFocus => "GainedFocus",
            Event::LostFocus => "LostFocus",
            Event::Resume(_) => "Resume",
            Event::Pause => "Pause",
            Event::Stop => "Stop",
            Event::SaveState(_) => "SaveState",
            Event::Create => "Create",
            Event::Destroy => "Destroy",
            Event::SurfaceCreate => "SurfaceCreate",
            Event::SurfaceDestroy => "SurfaceDestroy",
            Event::Input(_) => "Input",
            Event::UserEvent => "UserEvent",
        }
    }
}

} // verus!
