//! Commands sent from plugin threads to the GUI thread, and the one-shot
//! reply slots through which the GUI thread answers them.
use vstd::prelude::*;

use std::sync::mpsc::{Receiver, Sender};
use std::sync::{Arc, Mutex};

use crate::slots::{fill_slot, new_lock, open_channel, share, take_slot, Delivered, Opened, Taken};

verus! {

/// Unique identifier for UI objects
pub type UiHandle = u32;

/// Unique identifier for Window objects
pub type WindowHandle = u32;

/// Commands that can be sent from WASM threads to the GUI thread
#[derive(Debug)]
#[allow(inconsistent_fields)]
pub enum GuiCommand {
    /// Create a new UI instance
    CreateUi { response: ResponseSender<Result<UiHandle, String>> },
    /// Destroy a UI instance
    DestroyUi { handle: UiHandle },
    /// Create a new window
    CreateWindow {
        ui_handle: UiHandle,
        title: String,
        width: i32,
        height: i32,
        has_menubar: bool,
        response: ResponseSender<Result<WindowHandle, String>>,
    },
    /// Show a window
    ShowWindow { handle: WindowHandle },
    /// Destroy a window
    DestroyWindow { handle: WindowHandle },
    /// Shutdown the GUI thread
    Shutdown,
}

impl GuiCommand {
    /// The request a plugin's window constructor sends: an untitled 800 by
    /// 600 window without a menu bar on the UI `ui_handle`, answered through
    /// `response`.
    pub fn window_request(ui_handle: UiHandle, response: ResponseSender<Result<WindowHandle, String>>) -> (r:
        GuiCommand)
        ensures
            r matches GuiCommand::CreateWindow { ui_handle: u, title, width, height, has_menubar, response: s }
                && u == ui_handle && title@ == Seq::<char>::empty() && width == 800 && height == 600
                && !has_menubar && s == response,
    {
        GuiCommand::CreateWindow {
            ui_handle,
            title: String::new(),
            width: 800,
            height: 600,
            has_menubar: false,
            response,
        }
    }
}

/// A thread-safe sender for responses from the GUI thread back to WASM threads
#[derive(Debug, Clone)]
#[verifier::reject_recursive_types(T)]
pub struct ResponseSender<T> {
    sender: Arc<Mutex<Option<T>>>,
}

/// A receiver for responses from the GUI thread
#[verifier::reject_recursive_types(T)]
pub struct ResponseReceiver<T> {
    receiver: Arc<Mutex<Option<T>>>,
}

impl<T> ResponseSender<T> {
    /// The slot that this sender fills.
    pub closed spec fn slot(&self) -> Arc<Mutex<Option<T>>> {
        self.sender
    }

    /// A sender and the receiver that reads what it sends: both share one
    /// empty slot.
    pub fn new() -> (r: (Self, ResponseReceiver<T>))
        ensures
            r.0.slot() == r.1.slot(),
    {
        let shared = Arc::new(new_lock(None));
        let sender = ResponseSender { sender: share(&shared) };
        let receiver = ResponseReceiver { receiver: shared };
        (sender, receiver)
    }

    /// Stores `value` in the shared slot, for the receiver to take. The
    /// receipt names this sender's slot and `value`.
    pub fn send(self, value: T) -> (r: Delivered<T>)
        ensures
            r.slot() == self.slot(),
            r.value() == value,
    {
        fill_slot(&self.sender, value)
    }
}

impl<T> ResponseReceiver<T> {
    /// The slot that this receiver reads.
    pub closed spec fn slot(&self) -> Arc<Mutex<Option<T>>> {
        self.receiver
    }

    /// Takes the response out of this receiver's slot if the sender has
    /// stored one, with the receipt of that read: it names this receiver's
    /// slot and what was taken. Whether the sender has stored a value yet
    /// depends on the sending thread, so which value comes back is not
    /// stated.
    pub fn try_take(&self) -> (r: (Option<T>, Taken<T>))
        ensures
            r.1.slot() == self.slot(),
            r.1.value() == r.0,
    {
        take_slot(&self.receiver)
    }
}

/// Create a command channel for GUI communication
///
/// The two ends come with the receipt of the one call that opened them
/// both.
pub fn create_gui_channel() -> (r: (Sender<GuiCommand>, Receiver<GuiCommand>, Opened<GuiCommand>))
    ensures
        r.2.sender() == r.0,
        r.2.receiver() == r.1,
{
    open_channel()
}

} // verus!
