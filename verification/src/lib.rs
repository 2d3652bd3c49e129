//! The logic of an OpenHarmony ability, apart from the host that runs it:
//! window geometry, configuration snapshots, the events that reach the
//! application, and the rules by which the notifications of the host become
//! those events.
//!
//! The binding to the host registers one callback for each notification. A
//! callback hands what it was told to the matching `on_` function of
//! [`OpenHarmonyApp`], which records what is to be recorded and returns the
//! event for the application's handler, if one is installed.

pub mod activity;
pub mod app;
pub mod area;
pub mod configuration;
pub mod derive;
pub mod draw;
pub mod error;
pub mod event;
pub mod helper;
pub mod hook;
pub mod identity;
pub mod input;
pub mod lifecycle;
pub mod render;
pub mod stage;
pub mod webview;

pub use app::{
    HandlerClaim, KeyboardRequest, OpenHarmonyApp, OpenHarmonyAppInner, OpenHarmonyAppInnerView,
    OpenHarmonyAppView,
};
pub use area::{ContentRect, Rect, RectChangeReason, Size};
pub use configuration::{ColorMode, Configuration, ConfigurationView, Direction, ScreenDensity};
pub use draw::IntervalInfo;
pub use error::AbilityError;
pub use event::{Event, EventView, SaveLoader, SaveSaver};
pub use helper::{
    DownloadStartResult, HeaderFields, PermissionError, PermissionRequest, PermissionRequestCode,
    WebViewInitData, WebViewStyle, WebviewCall, WebviewError,
};
pub use hook::Hooks;
pub use input::{
    ImeEvent, ImeEventView, InputEvent, InputEventView, KeyboardStatus, TextInputEventData,
};
pub use stage::StageEventType;
pub use webview::WebViewBuilder;
