//! What the input method tells an ability, and which events that becomes.

use super::{ImeEvent, ImeEventView, InputEvent, InputEventView, KeyboardStatus, TextInputEventData};
use crate::app::OpenHarmonyApp;
use crate::event::{Event, EventView};
use crate::lifecycle::reported;
use vstd::prelude::*;

verus! {

impl OpenHarmonyApp {
    /// The input method inserts text.
    pub fn on_insert_text<K, T>(&self, text: String) -> (r: Option<Event<K, T>>)
        ensures
            reported(r) == self@.delivers(
                EventView::<K, T>::Input(
                    InputEventView::ImeEvent(ImeEventView::TextInputEvent(text@)),
                ),
            ),
    {
        self.deliver(
            Event::Input(InputEvent::ImeEvent(ImeEvent::TextInputEvent(TextInputEventData { text }))),
        )
    }

    /// The soft keyboard came or went. `status` is the input method's number
    /// for the new status. Before a handler is installed the number is not
    /// looked at.
    pub fn on_keyboard_status<K, T>(&self, status: u32) -> (r: Option<Event<K, T>>)
        requires
            self@.has_handler ==> KeyboardStatus::defined(status as int),
        ensures
            reported(r) == self@.delivers(
                EventView::<K, T>::Input(
                    InputEventView::ImeEvent(
                        ImeEventView::ImeStatusEvent(KeyboardStatus::of_code(status as int)),
                    ),
                ),
            ),
    {
        if !self.has_handler() {
            return None;
        }
        Some(
            Event::Input(
                InputEvent::ImeEvent(ImeEvent::ImeStatusEvent(KeyboardStatus::from(status))),
            ),
        )
    }

    /// The input method deletes `length` characters before the cursor.
    pub fn on_backspace<K, T>(&self, length: i32) -> (r: Option<Event<K, T>>)
        ensures
            reported(r) == self@.delivers(
                EventView::<K, T>::Input(
                    InputEventView::ImeEvent(ImeEventView::BackspaceEvent(length)),
                ),
            ),
    {
        self.deliver(Event::Input(InputEvent::ImeEvent(ImeEvent::BackspaceEvent(length))))
    }
}

} // verus!
