//! The webview in a window, as far as the decisions about it go.

use vstd::prelude::*;

verus! {

/// A webview and its browser.
#[derive(Debug, PartialEq, Eq)]
pub struct AppWebview {
    pub webview_id: u32,
    pub label: String,
    pub browser_id: i32,
    /// The custom protocol schemes that are served to it.
    pub schemes: Vec<String>,
}

/// A script that runs in every page before the page's own.
#[derive(Debug, PartialEq, Eq)]
pub struct InitializationScript {
    pub script: String,
    pub for_main_frame_only: bool,
}

} // verus!
