//! The logic of a host for WebAssembly component plugins: the sockets that
//! hold the plugins of an interface, and the GUI thread that owns the UIs and
//! windows the plugins create.
pub mod gui_commands;
pub mod gui_thread;
pub mod ids;
pub mod laws;
pub mod resource_errors;
pub mod slots;
pub mod socket;
pub mod text;
pub mod window;

pub use ids::{InterfaceId, PluginId};
pub use socket::Socket;
pub use gui_commands::{create_gui_channel, GuiCommand, ResponseReceiver, ResponseSender, UiHandle, WindowHandle};
pub use slots::{Delivered, Opened, Taken};
pub use gui_thread::{CommandOutcome, GuiThreadState, WindowType};
pub use resource_errors::{ResourceCreationError, ResourceReceiveError};
pub use socket::Collected;
pub use window::{StoredUi, StoredWindow};
