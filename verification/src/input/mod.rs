//! Input that reaches the application: keys, touches and the input method.

use vstd::prelude::*;

pub mod ime;
pub mod keyboard;
pub mod text_input;

pub use keyboard::KeyboardStatus;
pub use text_input::TextInputEventData;

verus! {

/// Something the input method did.
#[derive(Debug)]
pub enum ImeEvent {
    /// The input method inserts text.
    TextInputEvent(TextInputEventData),
    /// The input method deletes this many characters before the cursor.
    BackspaceEvent(i32),
    /// The soft keyboard came or went.
    ImeStatusEvent(KeyboardStatus),
}

/// What an input method event says, with its text as a character sequence.
pub enum ImeEventView {
    TextInputEvent(Seq<char>),
    BackspaceEvent(i32),
    ImeStatusEvent(KeyboardStatus),
}

impl View for ImeEvent {
    type V = ImeEventView;

    open spec fn view(&self) -> ImeEventView {
        match self {
            ImeEvent::TextInputEvent(data) => ImeEventView::TextInputEvent(data@),
            ImeEvent::BackspaceEvent(length) => ImeEventView::BackspaceEvent(*length),
            ImeEvent::ImeStatusEvent(status) => ImeEventView::ImeStatusEvent(*status),
        }
    }
}

impl Clone for ImeEvent {
    fn clone(&self) -> (r: ImeEvent)
        ensures
            r@ == self@,
    {
        match self {
            ImeEvent::TextInputEvent(data) => ImeEvent::TextInputEvent(data.clone()),
            ImeEvent::BackspaceEvent(length) => ImeEvent::BackspaceEvent(*length),
            ImeEvent::ImeStatusEvent(status) => ImeEvent::ImeStatusEvent(*status),
        }
    }
}

/// One input event. `K` is what the windowing layer reports of a key, `T`
/// what it reports of a touch; the library hands both on as they are.
#[derive(Debug)]
pub enum InputEvent<K, T> {
    KeyEvent(K),
    TouchEvent(T),
    ImeEvent(ImeEvent),
}

/// What an input event says.
pub enum InputEventView<K, T> {
    KeyEvent(K),
    TouchEvent(T),
    ImeEvent(ImeEventView),
}

impl<K, T> View for InputEvent<K, T> {
    type V = InputEventView<K, T>;

    open spec fn view(&self) -> InputEventView<K, T> {
        match self {
            InputEvent::KeyEvent(data) => InputEventView::KeyEvent(*data),
            InputEvent::TouchEvent(data) => InputEventView::TouchEvent(*data),
            InputEvent::ImeEvent(event) => InputEventView::ImeEvent(event@),
        }
    }
}

} // verus!
