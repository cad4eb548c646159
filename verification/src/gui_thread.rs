//! The state of the GUI thread: the toolkit objects it owns, under the
//! handles it hands out, and how it carries out each command.
//!
//! The toolkit itself is reached through the closures that the caller hands
//! to the operations that need it; the registries and the handles are kept
//! here.
use vstd::prelude::*;

use std::collections::HashMap;

use crate::gui_commands::{GuiCommand, UiHandle, WindowHandle};
use crate::slots::Delivered;
use crate::text::{decimal, push_decimal};

verus! {

broadcast use vstd::std_specs::hash::group_hash_axioms;

/// Whether a new window has a menu bar.
#[derive(Debug, Clone, Copy, PartialEq, Eq, Structural)]
pub enum WindowType {
    HasMenubar,
    NoMenubar,
}

/// What processing one command came to.
pub enum CommandOutcome {
    /// The command asked for an answer: this is the answer, and the receipt
    /// of handing it to the command's reply slot.
    Replied(Result<u32, String>, Delivered<Result<u32, String>>),
    /// Showing a window failed; the message is for the error log.
    ShowFailed(String),
    /// The command was carried out and asked for no answer.
    Applied,
    /// The command asks the GUI thread to stop.
    Stop,
}

/// The message for a UI handle that is not registered.
pub open spec fn ui_not_found(handle: u32) -> Seq<char> {
    "UI handle "@ + decimal(handle as nat) + " not found"@
}

/// The message for a window handle that is not registered.
pub open spec fn window_not_found(handle: u32) -> Seq<char> {
    "Window handle "@ + decimal(handle as nat) + " not found"@
}

/// The message for a toolkit that failed to start, with the toolkit's own
/// description of the failure.
pub open spec fn ui_init_failed(detail: Seq<char>) -> Seq<char> {
    "Failed to initialize UI: "@ + detail
}

/// The window type asked for by `has_menubar`.
pub open spec fn window_type_for(has_menubar: bool) -> WindowType {
    if has_menubar {
        WindowType::HasMenubar
    } else {
        WindowType::NoMenubar
    }
}

/// State for the GUI thread that owns all actual UI objects
pub struct GuiThreadState<U, W> {
    next_ui_handle: UiHandle,
    next_window_handle: WindowHandle,
    ui_registry: HashMap<UiHandle, U>,
    window_registry: HashMap<WindowHandle, W>,
}

/// A second answer equal to `reply`.
fn copy_reply(reply: &Result<u32, String>) -> (r: Result<u32, String>)
    ensures
        r == *reply,
{
    match reply {
        Ok(handle) => Ok(*handle),
        Err(message) => Err(message.clone()),
    }
}

impl<U, W> GuiThreadState<U, W> {
    /// The handle the next UI will get.
    pub closed spec fn next_ui(&self) -> nat {
        self.next_ui_handle as nat
    }

    /// The handle the next window will get.
    pub closed spec fn next_window(&self) -> nat {
        self.next_window_handle as nat
    }

    /// The live UIs, by handle.
    pub closed spec fn uis(&self) -> Map<UiHandle, U> {
        self.ui_registry@
    }

    /// The live windows, by handle.
    pub closed spec fn windows(&self) -> Map<WindowHandle, W> {
        self.window_registry@
    }

    /// Every live handle was handed out before: it lies below the next one.
    pub open spec fn wf(&self) -> bool {
        &&& self.next_ui() <= u32::MAX
        &&& self.next_window() <= u32::MAX
        &&& forall|h: UiHandle| #[trigger] self.uis().contains_key(h) ==> h < self.next_ui()
        &&& forall|h: WindowHandle| #[trigger] self.windows().contains_key(h) ==> h
            < self.next_window()
    }

    /// What `create_ui` does: on success the new UI is registered under the
    /// next handle, which is returned; on failure nothing changes and the
    /// toolkit's description of the failure is returned.
    pub open spec fn ui_created<FI: Fn() -> Result<U, String>>(
        old: Self,
        new: Self,
        init_ui: FI,
        r: Result<UiHandle, String>,
    ) -> bool {
        &&& new.windows() == old.windows()
        &&& new.next_window() == old.next_window()
        &&& r matches Ok(h) ==> {
            &&& h == old.next_ui()
            &&& new.next_ui() == old.next_ui() + 1
            &&& exists|ui: U|
                #![trigger old.uis().insert(h, ui)]
                call_ensures(init_ui, (), Ok::<U, String>(ui)) && new.uis() == old.uis().insert(h, ui)
        }
        &&& r matches Err(m) ==> {
            &&& new.uis() == old.uis()
            &&& new.next_ui() == old.next_ui()
            &&& exists|e: String|
                #![trigger ui_init_failed(e@)]
                call_ensures(init_ui, (), Err::<U, String>(e)) && m@ == ui_init_failed(e@)
        }
    }

    /// What `create_window` does: with a live UI, the window that
    /// `open_window` builds for it is registered under the next handle, which
    /// is returned; with an unknown UI nothing changes and an error names it.
    pub open spec fn window_created<FO: Fn(&U, &String, i32, i32, WindowType) -> W>(
        old: Self,
        new: Self,
        ui_handle: UiHandle,
        title: String,
        width: i32,
        height: i32,
        has_menubar: bool,
        open_window: FO,
        r: Result<WindowHandle, String>,
    ) -> bool {
        &&& new.uis() == old.uis()
        &&& new.next_ui() == old.next_ui()
        &&& if old.uis().contains_key(ui_handle) {
            &&& r matches Ok(h) && h == old.next_window()
            &&& new.next_window() == old.next_window() + 1
            &&& exists|w: W|
                #![trigger old.windows().insert(old.next_window() as WindowHandle, w)]
                call_ensures(
                    open_window,
                    (&old.uis()[ui_handle], &title, width, height, window_type_for(has_menubar)),
                    w,
                ) && new.windows() == old.windows().insert(old.next_window() as WindowHandle, w)
        } else {
            &&& r matches Err(m) && m@ == ui_not_found(ui_handle)
            &&& new.windows() == old.windows()
            &&& new.next_window() == old.next_window()
        }
    }

    /// What `show_window` does: a live window is handed to `show`, and
    /// what `show` gives back is registered under the same handle; an
    /// unknown handle changes nothing and an error names it.
    pub open spec fn window_shown<FS: Fn(W) -> W>(
        old: Self,
        new: Self,
        handle: WindowHandle,
        show: FS,
        r: Result<(), String>,
    ) -> bool {
        &&& new.uis() == old.uis()
        &&& new.next_ui() == old.next_ui()
        &&& new.next_window() == old.next_window()
        &&& if old.windows().contains_key(handle) {
            &&& r is Ok
            &&& exists|w: W|
                #![trigger old.windows().insert(handle, w)]
                call_ensures(show, (old.windows()[handle],), w) && new.windows()
                    == old.windows().insert(handle, w)
        } else {
            &&& r matches Err(m) && m@ == window_not_found(handle)
            &&& new.windows() == old.windows()
        }
    }

    /// Nothing but the UI registry changed, and it lost `handle`.
    pub open spec fn ui_destroyed(old: Self, new: Self, handle: UiHandle) -> bool {
        &&& new.uis() == old.uis().remove(handle)
        &&& new.windows() == old.windows()
        &&& new.next_ui() == old.next_ui()
        &&& new.next_window() == old.next_window()
    }

    /// Nothing but the window registry changed, and it lost `handle`.
    pub open spec fn window_destroyed(old: Self, new: Self, handle: WindowHandle) -> bool {
        &&& new.windows() == old.windows().remove(handle)
        &&& new.uis() == old.uis()
        &&& new.next_ui() == old.next_ui()
        &&& new.next_window() == old.next_window()
    }

    /// A state with no UIs and no windows, whose first handles are 0.
    pub fn new() -> (r: Self)
        ensures
            r.wf(),
            r.uis() == Map::<UiHandle, U>::empty(),
            r.windows() == Map::<WindowHandle, W>::empty(),
            r.next_ui() == 0,
            r.next_window() == 0,
    {
        Self {
            next_ui_handle: 0,
            next_window_handle: 0,
            ui_registry: HashMap::new(),
            window_registry: HashMap::new(),
        }
    }

    fn allocate_ui_handle(&mut self) -> (r: UiHandle)
        requires
            old(self).next_ui() < u32::MAX,
        ensures
            r == old(self).next_ui(),
            final(self).next_ui() == old(self).next_ui() + 1,
            final(self).uis() == old(self).uis(),
            final(self).windows() == old(self).windows(),
            final(self).next_window() == old(self).next_window(),
    {
        let handle = self.next_ui_handle;
        self.next_ui_handle = self.next_ui_handle + 1;
        handle
    }

    fn allocate_window_handle(&mut self) -> (r: WindowHandle)
        requires
            old(self).next_window() < u32::MAX,
        ensures
            r == old(self).next_window(),
            final(self).next_window() == old(self).next_window() + 1,
            final(self).uis() == old(self).uis(),
            final(self).windows() == old(self).windows(),
            final(self).next_ui() == old(self).next_ui(),
    {
        let handle = self.next_window_handle;
        self.next_window_handle = self.next_window_handle + 1;
        handle
    }

    /// The handle the next UI will get.
    pub fn next_ui_handle(&self) -> (r: UiHandle)
        ensures
            r == self.next_ui(),
    {
        self.next_ui_handle
    }

    /// The handle the next window will get.
    pub fn next_window_handle(&self) -> (r: WindowHandle)
        ensures
            r == self.next_window(),
    {
        self.next_window_handle
    }

    /// Whether a UI is registered under `handle`.
    pub fn has_ui(&self, handle: UiHandle) -> (r: bool)
        ensures
            r == self.uis().contains_key(handle),
    {
        self.ui_registry.contains_key(&handle)
    }

    /// Starts a UI with `init_ui` and registers it under a fresh handle.
    pub fn create_ui<FI: Fn() -> Result<U, String>>(&mut self, init_ui: FI) -> (r: Result<
        UiHandle,
        String,
    >)
        requires
            old(self).wf(),
            call_requires(init_ui, ()),
            old(self).next_ui() < u32::MAX || forall|o: Result<U, String>|
                call_ensures(init_ui, (), o) ==> o is Err,
        ensures
            final(self).wf(),
            Self::ui_created(*old(self), *final(self), init_ui, r),
            r matches Ok(h) ==> !old(self).uis().contains_key(h),
    {
        let outcome = init_ui();
        match outcome {
            Ok(ui) => {
                let handle = self.allocate_ui_handle();
                self.ui_registry.insert(handle, ui);
                Ok(handle)
            },
            Err(detail) => {
                let mut message = String::from_str("Failed to initialize UI: ");
                message.append(detail.as_str());
                assert(message@ == ui_init_failed(detail@));
                Err(message)
            },
        }
    }

    pub fn destroy_ui(&mut self, handle: UiHandle)
        requires
            old(self).wf(),
        ensures
            final(self).wf(),
            Self::ui_destroyed(*old(self), *final(self), handle),
    {
        self.ui_registry.remove(&handle);
    }

    /// Builds a window on the UI `ui_handle` with `open_window` and registers
    /// it under a fresh handle.
    pub fn create_window<FO: Fn(&U, &String, i32, i32, WindowType) -> W>(
        &mut self,
        ui_handle: UiHandle,
        title: String,
        width: i32,
        height: i32,
        has_menubar: bool,
        open_window: FO,
    ) -> (r: Result<WindowHandle, String>)
        requires
            old(self).wf(),
            forall|u: &U, t: &String, w: i32, h: i32, k: WindowType|
                call_requires(open_window, (u, t, w, h, k)),
            old(self).uis().contains_key(ui_handle) ==> old(self).next_window() < u32::MAX,
        ensures
            final(self).wf(),
            Self::window_created(
                *old(self),
                *final(self),
                ui_handle,
                title,
                width,
                height,
                has_menubar,
                open_window,
                r,
            ),
            r matches Ok(h) ==> !old(self).windows().contains_key(h),
    {
        let window = match self.ui_registry.get(&ui_handle) {
            Some(ui) => {
                let window_type = if has_menubar {
                    WindowType::HasMenubar
                } else {
                    WindowType::NoMenubar
                };
                let window = open_window(ui, &title, width, height, window_type);
                assert(call_ensures(
                    open_window,
                    (&old(self).uis()[ui_handle], &title, width, height, window_type_for(has_menubar)),
                    window,
                ));
                window
            },
            None => {
                let mut message = String::from_str("UI handle ");
                push_decimal(&mut message, ui_handle);
                message.append(" not found");
                return Err(message);
            },
        };
        let handle = self.allocate_window_handle();
        self.window_registry.insert(handle, window);
        assert(old(self).windows().insert(old(self).next_window() as WindowHandle, window)
            == self.windows());
        Ok(handle)
    }

    /// Hands the window `handle` to `show` and keeps what it gives back.
    pub fn show_window<FS: Fn(W) -> W>(&mut self, handle: WindowHandle, show: FS) -> (r: Result<
        (),
        String,
    >)
        requires
            old(self).wf(),
            forall|w: W| call_requires(show, (w,)),
        ensures
            final(self).wf(),
            Self::window_shown(*old(self), *final(self), handle, show, r),
    {
        match self.window_registry.remove(&handle) {
            Some(window) => {
                let shown = show(window);
                self.window_registry.insert(handle, shown);
                assert(old(self).windows().insert(handle, shown) =~= self.windows());
                assert(self.uis() == old(self).uis());
                Ok(())
            },
            None => {
                assert(self.windows() =~= old(self).windows());
                assert(self.uis() == old(self).uis());
                let mut message = String::from_str("Window handle ");
                push_decimal(&mut message, handle);
                message.append(" not found");
                Err(message)
            },
        }
    }

    pub fn destroy_window(&mut self, handle: WindowHandle)
        requires
            old(self).wf(),
        ensures
            final(self).wf(),
            Self::window_destroyed(*old(self), *final(self), handle),
    {
        self.window_registry.remove(&handle);
    }

    /// The handle counters leave room for the handle `command` may need. A
    /// counter at `u32::MAX` has handed out its last handle.
    pub open spec fn command_fits<FI: Fn() -> Result<U, String>>(
        old: Self,
        command: GuiCommand,
        init_ui: FI,
    ) -> bool {
        match command {
            GuiCommand::CreateUi { .. } => old.next_ui() < u32::MAX || forall|o: Result<U, String>|
                call_ensures(init_ui, (), o) ==> o is Err,
            GuiCommand::CreateWindow { ui_handle, .. } => old.uis().contains_key(ui_handle)
                ==> old.next_window() < u32::MAX,
            _ => true,
        }
    }

    /// What `process_command` does with each command, and what it reports.
    pub open spec fn command_processed<
        FI: Fn() -> Result<U, String>,
        FO: Fn(&U, &String, i32, i32, WindowType) -> W,
        FS: Fn(W) -> W,
    >(
        old: Self,
        new: Self,
        command: GuiCommand,
        init_ui: FI,
        open_window: FO,
        show_window: FS,
        r: CommandOutcome,
    ) -> bool {
        match command {
            GuiCommand::CreateUi { response } => {
                &&& r matches CommandOutcome::Replied(x, d)
                &&& d.slot() == response.slot()
                &&& d.value() == x
                &&& Self::ui_created(old, new, init_ui, x)
            },
            GuiCommand::DestroyUi { handle } => r is Applied && Self::ui_destroyed(old, new, handle),
            GuiCommand::CreateWindow { ui_handle, title, width, height, has_menubar, response } => {
                &&& r matches CommandOutcome::Replied(x, d)
                &&& d.slot() == response.slot()
                &&& d.value() == x
                &&& Self::window_created(
                    old,
                    new,
                    ui_handle,
                    title,
                    width,
                    height,
                    has_menubar,
                    open_window,
                    x,
                )
            },
            GuiCommand::ShowWindow { handle } => match r {
                CommandOutcome::Applied => Self::window_shown(old, new, handle, show_window, Ok(())),
                CommandOutcome::ShowFailed(m) => Self::window_shown(
                    old,
                    new,
                    handle,
                    show_window,
                    Err(m),
                ),
                _ => false,
            },
            GuiCommand::DestroyWindow { handle } => r is Applied && Self::window_destroyed(
                old,
                new,
                handle,
            ),
            GuiCommand::Shutdown => {
                &&& r is Stop
                &&& new.uis() == old.uis()
                &&& new.windows() == old.windows()
                &&& new.next_ui() == old.next_ui()
                &&& new.next_window() == old.next_window()
            },
        }
    }

    /// Carries out one command. The answer to a command that asks for one is
    /// sent through its response slot and returned with the receipt of that
    /// send; a failure to show a
    /// window is returned for the error log; `Shutdown` changes nothing and
    /// returns `Stop`. The toolkit is reached through `init_ui` (start a
    /// UI), `open_window` (build a window on a UI) and `show_window`.
    pub fn process_command<
        FI: Fn() -> Result<U, String>,
        FO: Fn(&U, &String, i32, i32, WindowType) -> W,
        FS: Fn(W) -> W,
    >(&mut self, command: GuiCommand, init_ui: FI, open_window: FO, show_window: FS) -> (r:
        CommandOutcome)
        requires
            old(self).wf(),
            call_requires(init_ui, ()),
            forall|u: &U, t: &String, w: i32, h: i32, k: WindowType|
                call_requires(open_window, (u, t, w, h, k)),
            forall|w: W| call_requires(show_window, (w,)),
            Self::command_fits(*old(self), command, init_ui),
        ensures
            final(self).wf(),
            Self::command_processed(
                *old(self),
                *final(self),
                command,
                init_ui,
                open_window,
                show_window,
                r,
            ),
    {
        match command {
            GuiCommand::CreateUi { response } => {
                let result = self.create_ui(init_ui);
                let receipt = response.send(copy_reply(&result));
                CommandOutcome::Replied(result, receipt)
            },
            GuiCommand::DestroyUi { handle } => {
                self.destroy_ui(handle);
                CommandOutcome::Applied
            },
            GuiCommand::CreateWindow { ui_handle, title, width, height, has_menubar, response } => {
                let result = self.create_window(
                    ui_handle,
                    title,
                    width,
                    height,
                    has_menubar,
                    open_window,
                );
                let receipt = response.send(copy_reply(&result));
                CommandOutcome::Replied(result, receipt)
            },
            GuiCommand::ShowWindow { handle } => match self.show_window(handle, show_window) {
                Ok(()) => CommandOutcome::Applied,
                Err(message) => CommandOutcome::ShowFailed(message),
            },
            GuiCommand::DestroyWindow { handle } => {
                self.destroy_window(handle);
                CommandOutcome::Applied
            },
            GuiCommand::Shutdown => CommandOutcome::Stop,
        }
    }
}

} // verus!
