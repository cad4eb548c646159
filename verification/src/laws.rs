//! Properties that relate several operations of the library.
use vstd::prelude::*;

use crate::gui_commands::GuiCommand;
use crate::gui_thread::{CommandOutcome, GuiThreadState, WindowType};
use crate::ids::PluginId;
use crate::socket::{entries_related, find_entry, ids_distinct, same_variant, sockets_related, Socket};

verus! {

/// Mapping a socket preserves its cardinality: the result has the same
/// number of plugins under the same ids, and is well formed when the socket
/// was.
pub proof fn law_map_preserves_cardinality<T, N>(a: Socket<T>, b: Socket<N>, rel: spec_fn(T, N) -> bool)
    requires
        sockets_related(a, b, rel),
    ensures
        same_variant(a, b),
        b.count() == a.count(),
        b.ids() == a.ids(),
        a.is_keyed() == b.is_keyed(),
        a.wf() ==> b.wf(),
{
}

/// Mapping twice is mapping once by the composed step: each plugin of the
/// final socket comes from the plugin in the same place of the first socket
/// through some intermediate value that the first step gave and the second
/// step took.
pub proof fn law_map_composes<T, N, M>(
    a: Socket<T>,
    b: Socket<N>,
    c: Socket<M>,
    first: spec_fn(T, N) -> bool,
    second: spec_fn(N, M) -> bool,
)
    requires
        sockets_related(a, b, first),
        sockets_related(b, c, second),
    ensures
        sockets_related(a, c, |x: T, z: M| exists|y: N| #[trigger] first(x, y) && second(y, z)),
{
    let composed = |x: T, z: M| exists|y: N| #[trigger] first(x, y) && second(y, z);
    match (a, b, c) {
        (Socket::AtMostOne(Some(x)), Socket::AtMostOne(Some(y)), Socket::AtMostOne(Some(z))) => {
            assert(first(x, y) && second(y, z));
        },
        (Socket::ExactlyOne(x), Socket::ExactlyOne(y), Socket::ExactlyOne(z)) => {
            assert(first(x, y) && second(y, z));
        },
        (Socket::AtLeastOne(v), Socket::AtLeastOne(u), Socket::AtLeastOne(w)) => {
            assert forall|i: int| #![trigger w@[i]] 0 <= i < v@.len() implies w@[i].0@ == v@[i].0@
                && composed(v@[i].1, w@[i].1) by {
                assert(u@[i].0@ == v@[i].0@ && first(v@[i].1, u@[i].1));
                assert(w@[i].0@ == u@[i].0@ && second(u@[i].1, w@[i].1));
            }
        },
        (Socket::Any(v), Socket::Any(u), Socket::Any(w)) => {
            assert forall|i: int| #![trigger w@[i]] 0 <= i < v@.len() implies w@[i].0@ == v@[i].0@
                && composed(v@[i].1, w@[i].1) by {
                assert(u@[i].0@ == v@[i].0@ && first(v@[i].1, u@[i].1));
                assert(w@[i].0@ == u@[i].0@ && second(u@[i].1, w@[i].1));
            }
        },
        _ => {},
    }
}

/// Mapping by a step that keeps each value gives back the socket's
/// variant, ids and plugins unchanged.
pub proof fn law_map_identity<T>(a: Socket<T>, b: Socket<T>)
    requires
        sockets_related(a, b, |x: T, y: T| x == y),
    ensures
        same_variant(a, b),
        b.ids() == a.ids(),
        b.plugins() == a.plugins(),
{
    match (a, b) {
        (Socket::AtLeastOne(v), Socket::AtLeastOne(w)) => {
            assert(b.ids() =~= a.ids());
            assert(b.plugins() =~= a.plugins());
        },
        (Socket::Any(v), Socket::Any(w)) => {
            assert(b.ids() =~= a.ids());
            assert(b.plugins() =~= a.plugins());
        },
        _ => {},
    }
}

/// Two mappings of one socket whose steps give the same value for each
/// plugin produce the same socket: same variant, ids and plugins. So `map`
/// and `map_mut` agree when their closures compute the same function.
pub proof fn law_maps_agree<T, N>(
    a: Socket<T>,
    b: Socket<N>,
    c: Socket<N>,
    by_ref: spec_fn(T, N) -> bool,
    by_value: spec_fn(T, N) -> bool,
)
    requires
        sockets_related(a, b, by_ref),
        sockets_related(a, c, by_value),
        forall|x: T, y1: N, y2: N| #[trigger] by_ref(x, y1) && #[trigger] by_value(x, y2) ==> y1 == y2,
    ensures
        same_variant(b, c),
        b.ids() == c.ids(),
        b.plugins() == c.plugins(),
{
    match (a, b, c) {
        (Socket::AtMostOne(Some(x)), Socket::AtMostOne(Some(y)), Socket::AtMostOne(Some(z))) => {
            assert(by_ref(x, y) && by_value(x, z));
        },
        (Socket::ExactlyOne(x), Socket::ExactlyOne(y), Socket::ExactlyOne(z)) => {
            assert(by_ref(x, y) && by_value(x, z));
        },
        (Socket::AtLeastOne(v), Socket::AtLeastOne(u), Socket::AtLeastOne(w)) => {
            assert forall|i: int| #![trigger u@[i]] 0 <= i < u@.len() implies u@[i].1 == w@[i].1 by {
                assert(by_ref(v@[i].1, u@[i].1) && by_value(v@[i].1, w@[i].1));
            }
            assert(b.ids() =~= c.ids());
            assert(b.plugins() =~= c.plugins());
        },
        (Socket::Any(v), Socket::Any(u), Socket::Any(w)) => {
            assert forall|i: int| #![trigger u@[i]] 0 <= i < u@.len() implies u@[i].1 == w@[i].1 by {
                assert(by_ref(v@[i].1, u@[i].1) && by_value(v@[i].1, w@[i].1));
            }
            assert(b.ids() =~= c.ids());
            assert(b.plugins() =~= c.plugins());
        },
        _ => {},
    }
}

/// In entries with distinct ids, looking up the id of an entry finds that
/// entry's value.
pub proof fn law_lookup_finds_entry<T>(entries: Seq<(PluginId, T)>, i: int)
    requires
        ids_distinct(entries),
        0 <= i < entries.len(),
    ensures
        find_entry(entries, entries[i].0@) == Some(entries[i].1),
    decreases i,
{
    if i > 0 {
        let rest = entries.drop_first();
        law_lookup_finds_entry(rest, i - 1);
    }
}

/// Looking up an id that no entry has finds nothing.
pub proof fn law_lookup_absent<T>(entries: Seq<(PluginId, T)>, id: Seq<char>)
    requires
        forall|i: int| 0 <= i < entries.len() ==> entries[i].0@ != id,
    ensures
        find_entry(entries, id) is None,
    decreases entries.len(),
{
    if entries.len() > 0 {
        let rest = entries.drop_first();
        law_lookup_absent(rest, id);
    }
}

/// UI handles are never handed out twice: of two UIs created one after the
/// other, the later one has the greater handle, and a handle that has been
/// handed out is never below the counter again.
pub proof fn law_ui_handles_increase<U, W, FI: Fn() -> Result<U, String>, FJ: Fn() -> Result<U, String>>(
    s0: GuiThreadState<U, W>,
    s1: GuiThreadState<U, W>,
    s2: GuiThreadState<U, W>,
    init1: FI,
    init2: FJ,
    h1: u32,
    h2: u32,
)
    requires
        GuiThreadState::ui_created(s0, s1, init1, Ok(h1)),
        GuiThreadState::ui_created(s1, s2, init2, Ok(h2)),
    ensures
        h1 < h2,
        h2 < s2.next_ui(),
{
}

/// Window handles are never handed out twice: of two windows created one
/// after the other, the later one has the greater handle.
pub proof fn law_window_handles_increase<U, W, FO: Fn(&U, &String, i32, i32, crate::gui_thread::WindowType) -> W>(
    s0: GuiThreadState<U, W>,
    s1: GuiThreadState<U, W>,
    s2: GuiThreadState<U, W>,
    ui1: u32,
    ui2: u32,
    title1: String,
    title2: String,
    width1: i32,
    width2: i32,
    height1: i32,
    height2: i32,
    menubar1: bool,
    menubar2: bool,
    open: FO,
    h1: u32,
    h2: u32,
)
    requires
        GuiThreadState::window_created(s0, s1, ui1, title1, width1, height1, menubar1, open, Ok(h1)),
        GuiThreadState::window_created(s1, s2, ui2, title2, width2, height2, menubar2, open, Ok(h2)),
    ensures
        h1 < h2,
        h2 < s2.next_window(),
{
}

/// Destroying the UI just created gives back the registries as they were
/// before; only the handle counter has moved on.
pub proof fn law_destroy_undoes_create_ui<U, W, FI: Fn() -> Result<U, String>>(
    s0: GuiThreadState<U, W>,
    s1: GuiThreadState<U, W>,
    s2: GuiThreadState<U, W>,
    init: FI,
    h: u32,
)
    requires
        s0.wf(),
        GuiThreadState::ui_created(s0, s1, init, Ok(h)),
        GuiThreadState::ui_destroyed(s1, s2, h),
    ensures
        s2.uis() == s0.uis(),
        s2.windows() == s0.windows(),
        s2.next_ui() == s0.next_ui() + 1,
{
}

/// A window created on a live UI is the one the open step built from the
/// request, argument by argument: the UI, the title, the requested width as
/// its width, the requested height as its height, and the menu bar type
/// the flag asks for. It is registered under the handle returned, and every
/// window that was live before is still there, unchanged.
pub proof fn law_window_built_from_request<U, W, FO: Fn(&U, &String, i32, i32, WindowType) -> W>(
    old: GuiThreadState<U, W>,
    new: GuiThreadState<U, W>,
    ui_handle: u32,
    title: String,
    width: i32,
    height: i32,
    has_menubar: bool,
    open: FO,
    r: Result<u32, String>,
)
    requires
        old.wf(),
        old.uis().contains_key(ui_handle),
        GuiThreadState::window_created(old, new, ui_handle, title, width, height, has_menubar, open, r),
    ensures
        r is Ok,
        r matches Ok(h) ==> {
            &&& !old.windows().contains_key(h)
            &&& new.windows().contains_key(h)
            &&& call_ensures(
                open,
                (
                    &old.uis()[ui_handle],
                    &title,
                    width,
                    height,
                    if has_menubar {
                        WindowType::HasMenubar
                    } else {
                        WindowType::NoMenubar
                    },
                ),
                new.windows()[h],
            )
            &&& forall|h2: u32|
                #[trigger] old.windows().contains_key(h2) ==> new.windows().contains_key(h2)
                    && new.windows()[h2] == old.windows()[h2]
        },
{
    let h = old.next_window() as u32;
    let w = choose|w: W|
        call_ensures(
            open,
            (&old.uis()[ui_handle], &title, width, height, crate::gui_thread::window_type_for(has_menubar)),
            w,
        ) && new.windows() == old.windows().insert(h, w);
    assert(new.windows()[h] == w);
}

/// Destroying window `h` removes it and keeps every other live window as it
/// was; the UIs and both counters do not change.
pub proof fn law_destroy_window_keeps_others<U, W>(
    old: GuiThreadState<U, W>,
    new: GuiThreadState<U, W>,
    h: u32,
)
    requires
        GuiThreadState::window_destroyed(old, new, h),
    ensures
        !new.windows().contains_key(h),
        forall|h2: u32|
            h2 != h && #[trigger] old.windows().contains_key(h2) ==> new.windows().contains_key(h2)
                && new.windows()[h2] == old.windows()[h2],
        forall|h2: u32| #[trigger] new.windows().contains_key(h2) ==> old.windows().contains_key(h2),
        new.uis() == old.uis(),
        new.next_ui() == old.next_ui(),
        new.next_window() == old.next_window(),
{
}

/// Destroying UI `h` removes it, whichever UIs were created after it, and
/// keeps every other live UI as it was; the windows and both counters do
/// not change.
pub proof fn law_destroy_ui_keeps_others<U, W>(old: GuiThreadState<U, W>, new: GuiThreadState<U, W>, h: u32)
    requires
        GuiThreadState::ui_destroyed(old, new, h),
    ensures
        !new.uis().contains_key(h),
        forall|h2: u32|
            h2 != h && #[trigger] old.uis().contains_key(h2) ==> new.uis().contains_key(h2)
                && new.uis()[h2] == old.uis()[h2],
        forall|h2: u32| #[trigger] new.uis().contains_key(h2) ==> old.uis().contains_key(h2),
        new.windows() == old.windows(),
        new.next_ui() == old.next_ui(),
        new.next_window() == old.next_window(),
{
}

/// When the toolkit fails to start, `create_ui` changes nothing: both
/// registries and both counters stay exactly as they were.
pub proof fn law_failed_ui_start_changes_nothing<U, W, FI: Fn() -> Result<U, String>>(
    old: GuiThreadState<U, W>,
    new: GuiThreadState<U, W>,
    init: FI,
    message: String,
)
    requires
        GuiThreadState::ui_created(old, new, init, Err(message)),
    ensures
        new.uis() == old.uis(),
        new.windows() == old.windows(),
        new.next_ui() == old.next_ui(),
        new.next_window() == old.next_window(),
{
}

/// Processing `DestroyUi { handle: h }` removes UI `h` and keeps every
/// window; processing `DestroyWindow { handle: h }` removes window `h` and
/// keeps every UI. Both are answered with `Applied`.
pub proof fn law_process_destroy_targets_its_registry<
    U,
    W,
    FI: Fn() -> Result<U, String>,
    FO: Fn(&U, &String, i32, i32, WindowType) -> W,
    FS: Fn(W) -> W,
>(
    old: GuiThreadState<U, W>,
    new_after_ui: GuiThreadState<U, W>,
    new_after_window: GuiThreadState<U, W>,
    h: u32,
    init: FI,
    open: FO,
    show: FS,
    r_ui: CommandOutcome,
    r_window: CommandOutcome,
)
    requires
        GuiThreadState::command_processed(
            old,
            new_after_ui,
            GuiCommand::DestroyUi { handle: h },
            init,
            open,
            show,
            r_ui,
        ),
        GuiThreadState::command_processed(
            old,
            new_after_window,
            GuiCommand::DestroyWindow { handle: h },
            init,
            open,
            show,
            r_window,
        ),
    ensures
        r_ui is Applied,
        !new_after_ui.uis().contains_key(h),
        forall|h2: u32|
            h2 != h && #[trigger] old.uis().contains_key(h2) ==> new_after_ui.uis().contains_key(h2)
                && new_after_ui.uis()[h2] == old.uis()[h2],
        new_after_ui.windows() == old.windows(),
        r_window is Applied,
        !new_after_window.windows().contains_key(h),
        forall|h2: u32|
            h2 != h && #[trigger] old.windows().contains_key(h2) ==> new_after_window.windows().contains_key(
                h2,
            ) && new_after_window.windows()[h2] == old.windows()[h2],
        new_after_window.uis() == old.uis(),
{
}

/// A UI started successfully is registered under a handle that was not
/// live, holding what the start step gave, and every UI that was live
/// before is still there, unchanged; the windows do not change.
pub proof fn law_started_ui_is_registered<U, W, FI: Fn() -> Result<U, String>>(
    old: GuiThreadState<U, W>,
    new: GuiThreadState<U, W>,
    init: FI,
    h: u32,
)
    requires
        old.wf(),
        GuiThreadState::ui_created(old, new, init, Ok(h)),
    ensures
        !old.uis().contains_key(h),
        new.uis().contains_key(h),
        call_ensures(init, (), Ok::<U, String>(new.uis()[h])),
        forall|h2: u32|
            #[trigger] old.uis().contains_key(h2) ==> new.uis().contains_key(h2) && new.uis()[h2]
                == old.uis()[h2],
        new.windows() == old.windows(),
{
    let ui = choose|ui: U| call_ensures(init, (), Ok::<U, String>(ui)) && new.uis() == old.uis().insert(h, ui);
    assert(new.uis()[h] == ui);
}

/// A window on a UI that is not live is refused, and nothing changes.
pub proof fn law_window_on_dead_ui_changes_nothing<U, W, FO: Fn(&U, &String, i32, i32, WindowType) -> W>(
    old: GuiThreadState<U, W>,
    new: GuiThreadState<U, W>,
    ui_handle: u32,
    title: String,
    width: i32,
    height: i32,
    has_menubar: bool,
    open: FO,
    r: Result<u32, String>,
)
    requires
        !old.uis().contains_key(ui_handle),
        GuiThreadState::window_created(old, new, ui_handle, title, width, height, has_menubar, open, r),
    ensures
        r is Err,
        new.uis() == old.uis(),
        new.windows() == old.windows(),
        new.next_ui() == old.next_ui(),
        new.next_window() == old.next_window(),
{
}

/// Showing a live window replaces it by what the show step made of it and
/// keeps every other window as it was; showing a window that is not live
/// is refused and changes nothing.
pub proof fn law_show_replaces_only_that_window<U, W, FS: Fn(W) -> W>(
    old: GuiThreadState<U, W>,
    new: GuiThreadState<U, W>,
    h: u32,
    show: FS,
    r: Result<(), String>,
)
    requires
        GuiThreadState::window_shown(old, new, h, show, r),
    ensures
        old.windows().contains_key(h) ==> {
            &&& r is Ok
            &&& new.windows().contains_key(h)
            &&& call_ensures(show, (old.windows()[h],), new.windows()[h])
        },
        !old.windows().contains_key(h) ==> r is Err && new.windows() == old.windows(),
        forall|h2: u32|
            h2 != h && #[trigger] old.windows().contains_key(h2) ==> new.windows().contains_key(h2)
                && new.windows()[h2] == old.windows()[h2],
        forall|h2: u32| #[trigger] new.windows().contains_key(h2) ==> old.windows().contains_key(h2),
        new.uis() == old.uis(),
{
    if old.windows().contains_key(h) {
        let w = choose|w: W| call_ensures(show, (old.windows()[h],), w) && new.windows() == old.windows().insert(h, w);
        assert(new.windows()[h] == w);
    }
}

/// Processing a window request on a live UI answers through the request's
/// own reply slot with the new handle, under which the window the open step
/// built from the request (width as width, height as height) is
/// registered; every window that was live before is kept.
pub proof fn law_process_window_request<
    U,
    W,
    FI: Fn() -> Result<U, String>,
    FO: Fn(&U, &String, i32, i32, WindowType) -> W,
    FS: Fn(W) -> W,
>(
    old: GuiThreadState<U, W>,
    new: GuiThreadState<U, W>,
    ui_handle: u32,
    title: String,
    width: i32,
    height: i32,
    has_menubar: bool,
    response: crate::gui_commands::ResponseSender<Result<u32, String>>,
    init: FI,
    open: FO,
    show: FS,
    r: CommandOutcome,
)
    requires
        old.wf(),
        old.uis().contains_key(ui_handle),
        GuiThreadState::command_processed(
            old,
            new,
            GuiCommand::CreateWindow { ui_handle, title, width, height, has_menubar, response },
            init,
            open,
            show,
            r,
        ),
    ensures
        r matches CommandOutcome::Replied(Ok(h), d) && {
            &&& d.slot() == response.slot()
            &&& d.value() == Ok::<u32, String>(h)
            &&& new.windows().contains_key(h)
            &&& !old.windows().contains_key(h)
            &&& call_ensures(
                open,
                (
                    &old.uis()[ui_handle],
                    &title,
                    width,
                    height,
                    if has_menubar {
                        WindowType::HasMenubar
                    } else {
                        WindowType::NoMenubar
                    },
                ),
                new.windows()[h],
            )
            &&& forall|h2: u32|
                #[trigger] old.windows().contains_key(h2) ==> new.windows().contains_key(h2)
                    && new.windows()[h2] == old.windows()[h2]
        },
{
    if let CommandOutcome::Replied(x, d) = r {
        law_window_built_from_request(old, new, ui_handle, title, width, height, has_menubar, open, x);
    }
}

/// Processing a UI request answers through the request's own reply slot
/// with what `create_ui` gives: on success a fresh handle under which the
/// started UI is registered, on failure no change to either registry.
pub proof fn law_process_ui_request<
    U,
    W,
    FI: Fn() -> Result<U, String>,
    FO: Fn(&U, &String, i32, i32, WindowType) -> W,
    FS: Fn(W) -> W,
>(
    old: GuiThreadState<U, W>,
    new: GuiThreadState<U, W>,
    response: crate::gui_commands::ResponseSender<Result<u32, String>>,
    init: FI,
    open: FO,
    show: FS,
    r: CommandOutcome,
)
    requires
        old.wf(),
        GuiThreadState::command_processed(
            old,
            new,
            GuiCommand::CreateUi { response },
            init,
            open,
            show,
            r,
        ),
    ensures
        r matches CommandOutcome::Replied(x, d) && {
            &&& d.slot() == response.slot()
            &&& d.value() == x
            &&& x matches Ok(h) ==> !old.uis().contains_key(h) && new.uis().contains_key(h)
                && call_ensures(init, (), Ok::<U, String>(new.uis()[h]))
            &&& x is Err ==> new.uis() == old.uis()
            &&& new.windows() == old.windows()
        },
{
    if let CommandOutcome::Replied(x, d) = r {
        match x {
            Ok(h) => law_started_ui_is_registered(old, new, init, h),
            Err(m) => law_failed_ui_start_changes_nothing(old, new, init, m),
        }
    }
}

} // verus!
