//! What the notifications of a web view component do to an ability, and
//! which events they become.

use crate::app::OpenHarmonyApp;
use crate::draw::IntervalInfo;
use crate::event::{Event, EventView};
use crate::lifecycle::reported;
use vstd::prelude::*;

verus! {

impl OpenHarmonyApp {
    /// The web view component was created: there is a surface to draw on.
    pub fn on_component_created<K, T>(&self) -> (r: Option<Event<K, T>>)
        ensures
            reported(r) == self@.delivers(EventView::<K, T>::SurfaceCreate),
    {
        self.deliver(Event::SurfaceCreate)
    }

    /// The web view component was destroyed.
    pub fn on_component_destroyed<K, T>(&self) -> (r: Option<Event<K, T>>)
        ensures
            reported(r) == self@.delivers(EventView::<K, T>::SurfaceDestroy),
    {
        self.deliver(Event::SurfaceDestroy)
    }

    /// The display signals a frame. `time` is when the frame will be shown,
    /// `time_stamp` when it was requested.
    pub fn on_display_frame<K, T>(&self, time: i64, time_stamp: i64) -> (r: Option<Event<K, T>>)
        ensures
            reported(r) == self@.delivers(
                EventView::<K, T>::WindowRedraw(
                    IntervalInfo { time_stamp, target_time_stamp: time },
                ),
            ),
    {
        self.deliver(Event::WindowRedraw(IntervalInfo { time_stamp, target_time_stamp: time }))
    }
}

} // verus!
