//! What is known of one window at the moment the windows were listed.

use vstd::prelude::*;

verus! {

/// What a descriptor holds, as plain values.
pub struct WindowView {
    pub handle: u64,
    pub title: Option<Seq<char>>,
    pub application_name: Option<Seq<char>>,
    pub is_minimized: Option<bool>,
}

/// One window of a snapshot. A field is `None` where the query for it
/// failed.
#[derive(Debug)]
pub struct WindowDescriptor {
    /// What the capture side knows the window by.
    pub handle: u64,
    /// The window's title.
    pub title: Option<String>,
    /// The name of the application that owns the window.
    pub application_name: Option<String>,
    /// Whether the window is minimized.
    pub is_minimized: Option<bool>,
}

/// The characters of a text that may be missing.
pub open spec fn text_view(text: Option<String>) -> Option<Seq<char>> {
    match text {
        Some(s) => Some(s@),
        None => None,
    }
}

impl View for WindowDescriptor {
    type V = WindowView;

    open spec fn view(&self) -> WindowView {
        WindowView {
            handle: self.handle,
            title: text_view(self.title),
            application_name: text_view(self.application_name),
            is_minimized: self.is_minimized,
        }
    }
}

/// The windows of a snapshot, in the order they were listed.
pub open spec fn snapshot_view(windows: Seq<WindowDescriptor>) -> Seq<WindowView> {
    Seq::new(windows.len(), |i: int| windows[i]@)
}

} // verus!
