//! What each lifecycle notification of the host does to an ability, and
//! which event it becomes. An event reaches the application only once it has
//! installed its handler; what a notification records, it records either way.

use crate::app::{OpenHarmonyApp, OpenHarmonyAppInnerView, OpenHarmonyAppView};
use crate::area::{ContentRect, Rect, RectChangeReason, Size};
use crate::configuration::Configuration;
use crate::event::{Event, EventView, SaveLoader, SaveSaver};
use crate::stage::StageEventType;
use vstd::prelude::*;

verus! {

/// What an optional event says.
pub open spec fn reported<K, T>(event: Option<Event<K, T>>) -> Option<EventView<K, T>> {
    match event {
        Some(event) => Some(event@),
        None => None,
    }
}

/// The event that a change of the window stage becomes. `loadable` is the
/// state a resuming application gets back.
pub open spec fn stage_event<K, T>(stage: StageEventType, loadable: Option<Seq<u8>>) -> EventView<
    K,
    T,
> {
    match stage {
        StageEventType::Shown => EventView::Start,
        StageEventType::Active => EventView::GainedFocus,
        StageEventType::Inactive => EventView::LostFocus,
        StageEventType::Hidden => EventView::Stop,
        StageEventType::Resumed => EventView::Resume(loadable),
        StageEventType::Paused => EventView::Pause,
    }
}

impl OpenHarmonyAppView {
    /// What reaches the application of an event: the event once a handler is
    /// installed, nothing before.
    pub open spec fn delivers<K, T>(self, event: EventView<K, T>) -> Option<EventView<K, T>> {
        if self.has_handler {
            Some(event)
        } else {
            None
        }
    }
}

impl OpenHarmonyApp {
    /// Hands an event on if the application has installed its handler.
    pub(crate) fn deliver<K, T>(&self, event: Event<K, T>) -> (r: Option<Event<K, T>>)
        ensures
            reported(r) == self@.delivers(event@),
    {
        if self.has_handler() {
            Some(event)
        } else {
            None
        }
    }

    /// Another thread woke the event loop.
    pub fn on_wake<K, T>(&self) -> (r: Option<Event<K, T>>)
        ensures
            reported(r) == self@.delivers(EventView::<K, T>::UserEvent),
    {
        self.deliver(Event::UserEvent)
    }

    /// The system reports its memory level. Whatever the level, the
    /// application hears that memory is low.
    pub fn on_memory_level<K, T>(&self, level: i32) -> (r: Option<Event<K, T>>)
        ensures
            reported(r) == self@.delivers(EventView::<K, T>::LowMemory),
    {
        self.deliver(Event::LowMemory)
    }

    /// The system configuration changed. The new configuration replaces the
    /// recorded one as a whole.
    pub fn on_configuration_updated<K, T>(&mut self, configuration: Configuration) -> (r: Option<
        Event<K, T>,
    >)
        ensures
            final(self)@ == (OpenHarmonyAppView {
                inner: OpenHarmonyAppInnerView {
                    configuration: configuration@,
                    ..old(self)@.inner
                },
                ..old(self)@
            }),
            reported(r) == old(self)@.delivers(
                EventView::<K, T>::ConfigChanged(configuration@),
            ),
    {
        self.set_configuration(configuration.clone());
        self.deliver(Event::ConfigChanged(configuration))
    }

    /// The window stage changed how it is shown. `event_type` is the host's
    /// number for the change. Before a handler is installed the number is
    /// not looked at.
    pub fn on_window_stage_event<K, T>(&self, event_type: i32) -> (r: Option<Event<K, T>>)
        requires
            self@.has_handler ==> StageEventType::defined(event_type as int),
        ensures
            reported(r) == self@.delivers(
                stage_event::<K, T>(
                    StageEventType::of_code(event_type as int),
                    self@.inner.loadable(),
                ),
            ),
    {
        if !self.has_handler() {
            return None;
        }
        let event = match StageEventType::from(event_type) {
            StageEventType::Shown => Event::Start,
            StageEventType::Active => Event::GainedFocus,
            StageEventType::Inactive => Event::LostFocus,
            StageEventType::Hidden => Event::Stop,
            StageEventType::Resumed => Event::Resume(SaveLoader::new(self.load())),
            StageEventType::Paused => Event::Pause,
        };
        Some(event)
    }

    /// The window has a new size.
    pub fn on_window_size_change<K, T>(&self, width: i32, height: i32) -> (r: Option<Event<K, T>>)
        ensures
            reported(r) == self@.delivers(
                EventView::<K, T>::WindowResize(Size { width, height }),
            ),
    {
        self.deliver(Event::WindowResize(Size { width, height }))
    }

    /// The window has a new rectangle. `reason` is the host's number for why
    /// it changed. The rectangle is recorded.
    pub fn on_window_rect_change<K, T>(
        &mut self,
        reason: i32,
        top: i32,
        left: i32,
        width: i32,
        height: i32,
    ) -> (r: Option<Event<K, T>>)
        ensures
            final(self)@ == (OpenHarmonyAppView {
                inner: OpenHarmonyAppInnerView {
                    rect: Rect { top, left, width, height },
                    ..old(self)@.inner
                },
                ..old(self)@
            }),
            reported(r) == old(self)@.delivers(
                EventView::<K, T>::ContentRectChange(
                    ContentRect {
                        reason: RectChangeReason::of_code(reason as int),
                        rect: Rect { top, left, width, height },
                    },
                ),
            ),
    {
        let rect = Rect { top, left, width, height };
        self.set_rect(rect);
        self.deliver(Event::ContentRectChange(ContentRect { reason: RectChangeReason::from(reason), rect }))
    }

    /// The window stage was created.
    pub fn on_window_stage_create<K, T>(&self) -> (r: Option<Event<K, T>>)
        ensures
            reported(r) == self@.delivers(EventView::<K, T>::WindowCreate),
    {
        self.deliver(Event::WindowCreate)
    }

    /// The window stage was destroyed.
    pub fn on_window_stage_destroy<K, T>(&self) -> (r: Option<Event<K, T>>)
        ensures
            reported(r) == self@.delivers(EventView::<K, T>::WindowDestroy),
    {
        self.deliver(Event::WindowDestroy)
    }

    /// The ability was created.
    pub fn on_ability_create<K, T>(&self) -> (r: Option<Event<K, T>>)
        ensures
            reported(r) == self@.delivers(EventView::<K, T>::Create),
    {
        self.deliver(Event::Create)
    }

    /// The ability was destroyed.
    pub fn on_ability_destroy<K, T>(&self) -> (r: Option<Event<K, T>>)
        ensures
            reported(r) == self@.delivers(EventView::<K, T>::Destroy),
    {
        self.deliver(Event::Destroy)
    }

    /// The host restores the ability: the application resumes with the state
    /// it gets back.
    pub fn on_ability_restore_state<K, T>(&self) -> (r: Option<Event<K, T>>)
        ensures
            reported(r) == self@.delivers(
                EventView::<K, T>::Resume(self@.inner.loadable()),
            ),
    {
        self.deliver(Event::Resume(SaveLoader::new(self.load())))
    }

    /// The host asks the ability to save its state.
    pub fn on_ability_save_state<K, T>(&self) -> (r: Option<Event<K, T>>)
        ensures
            reported(r) == self@.delivers(EventView::<K, T>::SaveState),
    {
        self.deliver(Event::SaveState(SaveSaver {  }))
    }
}

} // verus!
