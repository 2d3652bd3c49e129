//! What the notifications of a native drawing surface do to an ability, and
//! which events they become.

use crate::app::{OpenHarmonyApp, OpenHarmonyAppInnerView, OpenHarmonyAppView};
use crate::area::{Rect, Size};
use crate::draw::{low_signed_32, reinterpret_i64, signed_64, truncate_i32, IntervalInfo};
use crate::event::{Event, EventView};
use crate::input::{InputEvent, InputEventView};
use crate::lifecycle::reported;
use vstd::prelude::*;

verus! {

/// The window rectangle of a surface that lies at `(left, top)` and is
/// `width` by `height` pixels. Of each extent the low 32 bits count.
pub open spec fn surface_rect(top: i32, left: i32, width: u64, height: u64) -> Rect {
    Rect {
        top,
        left,
        width: low_signed_32(width as int) as i32,
        height: low_signed_32(height as int) as i32,
    }
}

/// The timing of a frame whose clock values arrive unsigned.
pub open spec fn frame_interval(time: u64, time_stamp: u64) -> IntervalInfo {
    IntervalInfo {
        time_stamp: signed_64(time_stamp as int) as i64,
        target_time_stamp: signed_64(time as int) as i64,
    }
}

impl OpenHarmonyApp {
    /// A surface was created at `(left, top)`, `width` by `height` pixels,
    /// with `raw_window` the address of its native window. The rectangle and
    /// the window are recorded, and from here on an input method is attached.
    pub fn on_surface_created<K, T>(
        &mut self,
        top: i32,
        left: i32,
        width: u64,
        height: u64,
        raw_window: Option<usize>,
    ) -> (r: Option<Event<K, T>>)
        ensures
            final(self)@ == (OpenHarmonyAppView {
                inner: OpenHarmonyAppInnerView {
                    rect: surface_rect(top, left, width, height),
                    raw_window,
                    ..old(self)@.inner
                },
                has_ime: true,
                ..old(self)@
            }),
            reported(r) == old(self)@.delivers(EventView::<K, T>::SurfaceCreate),
    {
        let rect = Rect { top, left, width: truncate_i32(width), height: truncate_i32(height) };
        self.set_surface(rect, raw_window);
        self.deliver(Event::SurfaceCreate)
    }

    /// The surface moved or changed its size. Once a handler is installed
    /// the new rectangle is recorded and the application hears of the new
    /// size; before that the notification is dropped whole.
    pub fn on_surface_changed<K, T>(&mut self, top: i32, left: i32, width: u64, height: u64) -> (r:
        Option<Event<K, T>>)
        ensures
            final(self)@ == if old(self)@.has_handler {
                OpenHarmonyAppView {
                    inner: OpenHarmonyAppInnerView {
                        rect: surface_rect(top, left, width, height),
                        ..old(self)@.inner
                    },
                    ..old(self)@
                }
            } else {
                old(self)@
            },
            reported(r) == old(self)@.delivers(
                EventView::<K, T>::WindowResize(
                    Size {
                        width: surface_rect(top, left, width, height).width,
                        height: surface_rect(top, left, width, height).height,
                    },
                ),
            ),
    {
        if !self.has_handler() {
            return None;
        }
        let rect = Rect { top, left, width: truncate_i32(width), height: truncate_i32(height) };
        self.set_rect(rect);
        Some(Event::WindowResize(Size { width: rect.width, height: rect.height }))
    }

    /// The surface is gone.
    pub fn on_surface_destroyed<K, T>(&self) -> (r: Option<Event<K, T>>)
        ensures
            reported(r) == self@.delivers(EventView::<K, T>::SurfaceDestroy),
    {
        self.deliver(Event::SurfaceDestroy)
    }

    /// A frame is due. `time` is when it will be shown, `time_stamp` when it
    /// was requested.
    pub fn on_frame<K, T>(&self, time: u64, time_stamp: u64) -> (r: Option<Event<K, T>>)
        ensures
            reported(r) == self@.delivers(
                EventView::<K, T>::WindowRedraw(frame_interval(time, time_stamp)),
            ),
    {
        self.deliver(
            Event::WindowRedraw(
                IntervalInfo {
                    time_stamp: reinterpret_i64(time_stamp),
                    target_time_stamp: reinterpret_i64(time),
                },
            ),
        )
    }

    /// The surface was touched.
    pub fn on_touch_event<K, T>(&self, data: T) -> (r: Option<Event<K, T>>)
        ensures
            reported(r) == self@.delivers(
                EventView::<K, T>::Input(InputEventView::TouchEvent(data)),
            ),
    {
        self.deliver(Event::Input(InputEvent::TouchEvent(data)))
    }

    /// A key went down or up.
    pub fn on_key_event<K, T>(&self, data: K) -> (r: Option<Event<K, T>>)
        ensures
            reported(r) == self@.delivers(
                EventView::<K, T>::Input(InputEventView::KeyEvent(data)),
            ),
    {
        self.deliver(Event::Input(InputEvent::KeyEvent(data)))
    }
}

} // verus!
