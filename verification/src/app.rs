//! The state of one ability and what the application may ask of it.

use crate::area::Rect;
use crate::configuration::{Configuration, ConfigurationView};
use vstd::prelude::*;

verus! {

/// The frame rate an ability starts with, in frames per second.
pub const DEFAULT_FRAME_RATE: u32 = 60;

/// The bytes that an optional saved state holds.
pub open spec fn saved_bytes(saved: Option<Vec<u8>>) -> Option<Seq<u8>> {
    match saved {
        Some(bytes) => Some(bytes@),
        None => None,
    }
}

/// What the library records of one ability: its window, its saved state and
/// the last geometry and configuration that the host reported.
pub struct OpenHarmonyAppInner {
    raw_window: Option<usize>,
    state: Vec<u8>,
    save_state: bool,
    frame_rate: u32,
    id: i64,
    configuration: Configuration,
    rect: Rect,
}

/// The record of one ability as plain values.
pub struct OpenHarmonyAppInnerView {
    /// The address of the native window, while a surface exists.
    pub raw_window: Option<usize>,
    /// The state that the application saved last.
    pub state: Seq<u8>,
    /// Whether saved state is handed back on resume.
    pub save_state: bool,
    /// The frame rate the application asked for.
    pub frame_rate: u32,
    /// The number that tells this ability from the others of the process.
    pub id: i64,
    /// The configuration that the host reported last.
    pub configuration: ConfigurationView,
    /// The window rectangle that the host reported last.
    pub rect: Rect,
}

impl OpenHarmonyAppInnerView {
    /// The record of an ability that has just been made.
    pub open spec fn initial(id: i64) -> OpenHarmonyAppInnerView {
        OpenHarmonyAppInnerView {
            raw_window: None,
            state: Seq::<u8>::empty(),
            save_state: false,
            frame_rate: DEFAULT_FRAME_RATE,
            id,
            configuration: ConfigurationView::initial(),
            rect: Rect::zero(),
        }
    }

    /// The state that a resuming application gets back: what it saved last,
    /// where saved state is handed back at all.
    pub open spec fn loadable(self) -> Option<Seq<u8>> {
        if self.save_state {
            Some(self.state)
        } else {
            None
        }
    }
}

impl View for OpenHarmonyAppInner {
    type V = OpenHarmonyAppInnerView;

    closed spec fn view(&self) -> OpenHarmonyAppInnerView {
        OpenHarmonyAppInnerView {
            raw_window: self.raw_window,
            state: self.state@,
            save_state: self.save_state,
            frame_rate: self.frame_rate,
            id: self.id,
            configuration: self.configuration@,
            rect: self.rect,
        }
    }
}

impl OpenHarmonyAppInner {
    /// The record of a new ability. `id` tells it from the other abilities
    /// of the process; whoever makes abilities hands out the numbers.
    pub fn new(id: i64) -> (r: OpenHarmonyAppInner)
        ensures
            r@ == OpenHarmonyAppInnerView::initial(id),
    {
        OpenHarmonyAppInner {
            raw_window: None,
            state: Vec::new(),
            save_state: false,
            frame_rate: DEFAULT_FRAME_RATE,
            id,
            configuration: Configuration::default(),
            rect: Rect::default(),
        }
    }

    /// The saved state, where saved state is handed back.
    pub fn load(&self) -> (r: Option<Vec<u8>>)
        ensures
            saved_bytes(r) == self@.loadable(),
    {
        if self.save_state {
            Some(self.state.clone())
        } else {
            None
        }
    }

    /// Replaces the saved state.
    pub fn save(&mut self, state: Vec<u8>)
        ensures
            final(self)@ == (OpenHarmonyAppInnerView { state: state@, ..old(self)@ }),
    {
        self.state = state;
    }

    /// Records the frame rate the application asks for.
    pub fn set_frame_rate(&mut self, frame_rate: u32)
        ensures
            final(self)@ == (OpenHarmonyAppInnerView { frame_rate, ..old(self)@ }),
    {
        self.frame_rate = frame_rate;
    }

    /// The frame rate the application asked for last.
    pub fn frame_rate(&self) -> (r: u32)
        ensures
            r == self@.frame_rate,
    {
        self.frame_rate
    }

    /// The number that tells this ability from the others of the process.
    pub fn id(&self) -> (r: i64)
        ensures
            r == self@.id,
    {
        self.id
    }

    /// The configuration that the host reported last.
    pub fn config(&self) -> (r: Configuration)
        ensures
            r@ == self@.configuration,
    {
        self.configuration.clone()
    }

    /// The window rectangle that the host reported last.
    pub fn content_rect(&self) -> (r: Rect)
        ensures
            r == self@.rect,
    {
        self.rect
    }

    /// The address of the native window, while a surface exists.
    pub fn native_window(&self) -> (r: Option<usize>)
        ensures
            r == self@.raw_window,
    {
        self.raw_window
    }

    /// Records a new configuration.
    pub(crate) fn set_configuration(&mut self, configuration: Configuration)
        ensures
            final(self)@ == (OpenHarmonyAppInnerView {
                configuration: configuration@,
                ..old(self)@
            }),
    {
        self.configuration = configuration;
    }

    /// Records a new window rectangle.
    pub(crate) fn set_rect(&mut self, rect: Rect)
        ensures
            final(self)@ == (OpenHarmonyAppInnerView { rect, ..old(self)@ }),
    {
        self.rect = rect;
    }

    /// Records the native window of a new surface.
    pub(crate) fn set_native_window(&mut self, raw_window: Option<usize>)
        ensures
            final(self)@ == (OpenHarmonyAppInnerView { raw_window, ..old(self)@ }),
    {
        self.raw_window = raw_window;
    }
}

impl Clone for OpenHarmonyAppInner {
    fn clone(&self) -> (r: OpenHarmonyAppInner)
        ensures
            r@ == self@,
    {
        OpenHarmonyAppInner {
            raw_window: self.raw_window,
            state: self.state.clone(),
            save_state: self.save_state,
            frame_rate: self.frame_rate,
            id: self.id,
            configuration: self.configuration.clone(),
            rect: self.rect,
        }
    }
}

/// The claim on the one event handler of a process. Once a handler has been
/// installed, no other is accepted.
#[derive(Debug)]
pub struct HandlerClaim {
    claimed: bool,
}

impl HandlerClaim {
    /// Whether a handler has been installed.
    pub closed spec fn claimed(&self) -> bool {
        self.claimed
    }

    /// The claim of a process in which no handler has been installed yet.
    pub fn new() -> (r: HandlerClaim)
        ensures
            !r.claimed(),
    {
        HandlerClaim { claimed: false }
    }

    /// Whether a handler has been installed.
    pub fn is_claimed(&self) -> (r: bool)
        ensures
            r == self.claimed(),
    {
        self.claimed
    }
}

/// What the application may ask of the soft keyboard.
#[derive(Debug, Clone, Copy, PartialEq, Eq, Structural)]
pub enum KeyboardRequest {
    Show,
    Hide,
}

/// One ability as the library sees it: its record, whether the application
/// has installed its event handler, and whether an input method is attached.
pub struct OpenHarmonyApp {
    inner: OpenHarmonyAppInner,
    has_handler: bool,
    has_ime: bool,
}

/// One ability as plain values.
pub struct OpenHarmonyAppView {
    /// The record of the ability.
    pub inner: OpenHarmonyAppInnerView,
    /// Whether the application has installed its event handler.
    pub has_handler: bool,
    /// Whether an input method is attached.
    pub has_ime: bool,
}

impl OpenHarmonyAppView {
    /// An ability that has just been made: no handler, no input method.
    pub open spec fn initial(id: i64) -> OpenHarmonyAppView {
        OpenHarmonyAppView {
            inner: OpenHarmonyAppInnerView::initial(id),
            has_handler: false,
            has_ime: false,
        }
    }

    /// What the keyboard is asked to do: nothing while no input method is
    /// attached.
    pub open spec fn keyboard(self, request: KeyboardRequest) -> Option<KeyboardRequest> {
        if self.has_ime {
            Some(request)
        } else {
            None
        }
    }
}

impl View for OpenHarmonyApp {
    type V = OpenHarmonyAppView;

    closed spec fn view(&self) -> OpenHarmonyAppView {
        OpenHarmonyAppView {
            inner: self.inner@,
            has_handler: self.has_handler,
            has_ime: self.has_ime,
        }
    }
}

impl OpenHarmonyApp {
    /// A new ability with the given number.
    pub fn new(id: i64) -> (r: OpenHarmonyApp)
        ensures
            r@ == OpenHarmonyAppView::initial(id),
    {
        OpenHarmonyApp { inner: OpenHarmonyAppInner::new(id), has_handler: false, has_ime: false }
    }

    /// A copy of the record of the ability.
    pub fn app_inner(&self) -> (r: OpenHarmonyAppInner)
        ensures
            r@ == self@.inner,
    {
        self.inner.clone()
    }

    /// Replaces the saved state.
    pub fn save(&mut self, state: Vec<u8>)
        ensures
            final(self)@ == (OpenHarmonyAppView {
                inner: OpenHarmonyAppInnerView { state: state@, ..old(self)@.inner },
                ..old(self)@
            }),
    {
        self.inner.save(state);
    }

    /// The saved state, where saved state is handed back.
    pub fn load(&self) -> (r: Option<Vec<u8>>)
        ensures
            saved_bytes(r) == self@.inner.loadable(),
    {
        self.inner.load()
    }

    /// Records the frame rate the application asks for.
    pub fn set_frame_rate(&mut self, frame_rate: u32)
        ensures
            final(self)@ == (OpenHarmonyAppView {
                inner: OpenHarmonyAppInnerView { frame_rate, ..old(self)@.inner },
                ..old(self)@
            }),
    {
        self.inner.set_frame_rate(frame_rate);
    }

    /// What to ask of the input method so that the soft keyboard comes up:
    /// nothing while no input method is attached.
    pub fn show_keyboard(&self) -> (r: Option<KeyboardRequest>)
        ensures
            r == self@.keyboard(KeyboardRequest::Show),
    {
        if self.has_ime {
            Some(KeyboardRequest::Show)
        } else {
            None
        }
    }

    /// What to ask of the input method so that the soft keyboard goes away:
    /// nothing while no input method is attached.
    pub fn hide_keyboard(&self) -> (r: Option<KeyboardRequest>)
        ensures
            r == self@.keyboard(KeyboardRequest::Hide),
    {
        if self.has_ime {
            Some(KeyboardRequest::Hide)
        } else {
            None
        }
    }

    /// The configuration that the host reported last.
    pub fn config(&self) -> (r: Configuration)
        ensures
            r@ == self@.inner.configuration,
    {
        self.inner.config()
    }

    /// The window rectangle that the host reported last.
    pub fn content_rect(&self) -> (r: Rect)
        ensures
            r == self@.inner.rect,
    {
        self.inner.content_rect()
    }

    /// The address of the native window, while a surface exists.
    pub fn native_window(&self) -> (r: Option<usize>)
        ensures
            r == self@.inner.raw_window,
    {
        self.inner.native_window()
    }

    /// Whether the application has installed its event handler.
    pub fn has_handler(&self) -> (r: bool)
        ensures
            r == self@.has_handler,
    {
        self.has_handler
    }

    /// Installs the application's event handler, unless the process already
    /// has one. Returns whether this call installed it. A later call changes
    /// nothing: the first handler stays.
    pub fn run_loop(&mut self, claim: &mut HandlerClaim) -> (installed: bool)
        ensures
            installed == !old(claim).claimed(),
            final(claim).claimed(),
            final(self)@ == (OpenHarmonyAppView {
                has_handler: old(self)@.has_handler || installed,
                ..old(self)@
            }),
    {
        if claim.claimed {
            return false;
        }
        self.has_handler = true;
        claim.claimed = true;
        true
    }

    /// Records a new configuration.
    pub(crate) fn set_configuration(&mut self, configuration: Configuration)
        ensures
            final(self)@ == (OpenHarmonyAppView {
                inner: OpenHarmonyAppInnerView {
                    configuration: configuration@,
                    ..old(self)@.inner
                },
                ..old(self)@
            }),
    {
        self.inner.set_configuration(configuration);
    }

    /// Records a new window rectangle.
    pub(crate) fn set_rect(&mut self, rect: Rect)
        ensures
            final(self)@ == (OpenHarmonyAppView {
                inner: OpenHarmonyAppInnerView { rect, ..old(self)@.inner },
                ..old(self)@
            }),
    {
        self.inner.set_rect(rect);
    }

    /// Records the surface that now exists: its rectangle and native window,
    /// and that an input method is attached from here on.
    pub(crate) fn set_surface(&mut self, rect: Rect, raw_window: Option<usize>)
        ensures
            final(self)@ == (OpenHarmonyAppView {
                inner: OpenHarmonyAppInnerView { rect, raw_window, ..old(self)@.inner },
                has_ime: true,
                ..old(self)@
            }),
    {
        self.inner.set_rect(rect);
        self.inner.set_native_window(raw_window);
        self.has_ime = true;
    }
}

} // verus!
