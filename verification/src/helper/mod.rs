//! What passes between the ability and the host's helper object: permission
//! requests, web views and their headers, custom protocols.

pub mod either;
pub mod fields;
pub mod header;
pub mod permission;
pub mod protocol;
pub mod webview;

pub use fields::HeaderFields;
pub use permission::{output_codes, PermissionError, PermissionRequest, PermissionRequestCode};
pub use webview::{DownloadStartResult, WebViewInitData, WebViewStyle, WebviewCall, WebviewError};
