//! Handles that a plugin's resource table stores in place of the toolkit
//! objects, which live on the GUI thread.
use vstd::prelude::*;

use crate::gui_commands::{UiHandle, WindowHandle};

verus! {

/// A UI resource as a plugin sees it: only the handle under which the GUI
/// thread keeps the real toolkit object.
pub struct StoredUi {
    handle: UiHandle,
}

impl StoredUi {
    /// The handle this resource stands for.
    pub closed spec fn spec_handle(&self) -> UiHandle {
        self.handle
    }

    pub fn new(handle: UiHandle) -> (r: Self)
        ensures
            r.spec_handle() == handle,
    {
        Self { handle }
    }

    pub fn handle(&self) -> (r: UiHandle)
        ensures
            r == self.spec_handle(),
    {
        self.handle
    }
}

/// A window resource as a plugin sees it: only the handle under which the
/// GUI thread keeps the real toolkit window.
pub struct StoredWindow {
    handle: WindowHandle,
}

impl StoredWindow {
    /// The handle this resource stands for.
    pub closed spec fn spec_handle(&self) -> WindowHandle {
        self.handle
    }

    pub fn new(handle: WindowHandle) -> (r: Self)
        ensures
            r.spec_handle() == handle,
    {
        Self { handle }
    }

    pub fn handle(&self) -> (r: WindowHandle)
        ensures
            r == self.spec_handle(),
    {
        self.handle
    }
}

} // verus!
