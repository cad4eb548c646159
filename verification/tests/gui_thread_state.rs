use wasm_compose::{CommandOutcome, GuiCommand, GuiThreadState, ResponseSender, WindowType};

fn ok_init() -> Result<u8, String> {
    Ok(7)
}

fn failing_init() -> Result<u8, String> {
    Err("NotInitialized".to_string())
}

fn open(ui: &u8, title: &String, width: i32, height: i32, kind: WindowType) -> (u8, String, i32, i32, WindowType) {
    (*ui, title.clone(), width, height, kind)
}

fn show(mut window: (u8, String, i32, i32, WindowType)) -> (u8, String, i32, i32, WindowType) {
    window.1.push_str(" (shown)");
    window
}

type State = GuiThreadState<u8, (u8, String, i32, i32, WindowType)>;

#[test]
fn ui_handles_start_at_zero_and_count_up() {
    let mut state: State = GuiThreadState::new();
    assert_eq!(state.create_ui(ok_init), Ok(0));
    assert_eq!(state.create_ui(ok_init), Ok(1));
    assert_eq!(state.create_ui(ok_init), Ok(2));
}

#[test]
fn failed_ui_init_reports_and_keeps_the_handle() {
    let mut state: State = GuiThreadState::new();
    assert_eq!(
        state.create_ui(failing_init),
        Err("Failed to initialize UI: NotInitialized".to_string())
    );
    assert_eq!(state.create_ui(ok_init), Ok(0));
}

#[test]
fn destroyed_handles_are_not_reused() {
    let mut state: State = GuiThreadState::new();
    assert_eq!(state.create_ui(ok_init), Ok(0));
    state.destroy_ui(0);
    assert_eq!(state.create_ui(ok_init), Ok(1));
}

#[test]
fn window_on_unknown_ui_is_refused() {
    let mut state: State = GuiThreadState::new();
    assert_eq!(
        state.create_window(3, "t".to_string(), 800, 600, false, open),
        Err("UI handle 3 not found".to_string())
    );
    assert_eq!(state.create_ui(ok_init), Ok(0));
    assert_eq!(state.create_window(0, "t".to_string(), 800, 600, false, open), Ok(0));
}

#[test]
fn window_on_destroyed_ui_is_refused() {
    let mut state: State = GuiThreadState::new();
    assert_eq!(state.create_ui(ok_init), Ok(0));
    state.destroy_ui(0);
    assert_eq!(
        state.create_window(0, "t".to_string(), 800, 600, true, open),
        Err("UI handle 0 not found".to_string())
    );
}

#[test]
fn show_unknown_window_names_the_handle() {
    let mut state: State = GuiThreadState::new();
    assert_eq!(state.show_window(12345, show), Err("Window handle 12345 not found".to_string()));
}

#[test]
fn show_and_destroy_window() {
    let mut state: State = GuiThreadState::new();
    assert_eq!(state.create_ui(ok_init), Ok(0));
    assert_eq!(state.create_window(0, "main".to_string(), 800, 600, true, open), Ok(0));
    assert_eq!(state.show_window(0, show), Ok(()));
    state.destroy_window(0);
    assert_eq!(state.show_window(0, show), Err("Window handle 0 not found".to_string()));
}

#[test]
fn window_type_follows_menubar_flag() {
    let mut state: GuiThreadState<u8, WindowType> = GuiThreadState::new();
    assert_eq!(state.create_ui(ok_init), Ok(0));
    let kind = |_: &u8, _: &String, _: i32, _: i32, k: WindowType| k;
    assert_eq!(state.create_window(0, String::new(), 1, 1, true, kind), Ok(0));
    assert_eq!(state.create_window(0, String::new(), 1, 1, false, kind), Ok(1));
    let seen = std::cell::Cell::new(None);
    let record = |w: WindowType| {
        seen.set(Some(w));
        w
    };
    assert_eq!(state.show_window(0, record), Ok(()));
    assert_eq!(seen.get(), Some(WindowType::HasMenubar));
    assert_eq!(state.show_window(1, record), Ok(()));
    assert_eq!(seen.get(), Some(WindowType::NoMenubar));
}

#[test]
fn process_create_ui_replies_through_the_slot() {
    let mut state: State = GuiThreadState::new();
    let (sender, receiver) = ResponseSender::new();
    let outcome = state.process_command(GuiCommand::CreateUi { response: sender }, ok_init, open, show);
    match outcome {
        CommandOutcome::Replied(r, _) => assert_eq!(r, Ok(0)),
        _ => panic!("unexpected outcome"),
    }
    assert_eq!(receiver.try_take().0, Some(Ok(0)));
    assert_eq!(receiver.try_take().0, None);
}

#[test]
fn process_create_window_replies_error_for_unknown_ui() {
    let mut state: State = GuiThreadState::new();
    let (sender, receiver) = ResponseSender::new();
    let command = GuiCommand::window_request(9, sender);
    match state.process_command(command, ok_init, open, show) {
        CommandOutcome::Replied(r, _) => assert_eq!(r, Err("UI handle 9 not found".to_string())),
        _ => panic!("unexpected outcome"),
    }
    assert_eq!(receiver.try_take().0, Some(Err("UI handle 9 not found".to_string())));
}

#[test]
fn process_show_failure_and_shutdown() {
    let mut state: State = GuiThreadState::new();
    match state.process_command(GuiCommand::ShowWindow { handle: 4 }, ok_init, open, show) {
        CommandOutcome::ShowFailed(m) => assert_eq!(m, "Window handle 4 not found"),
        _ => panic!("unexpected outcome"),
    }
    assert!(matches!(
        state.process_command(GuiCommand::DestroyUi { handle: 4 }, ok_init, open, show),
        CommandOutcome::Applied
    ));
    assert!(matches!(
        state.process_command(GuiCommand::DestroyWindow { handle: 4 }, ok_init, open, show),
        CommandOutcome::Applied
    ));
    assert!(matches!(
        state.process_command(GuiCommand::Shutdown, ok_init, open, show),
        CommandOutcome::Stop
    ));
}

#[test]
fn shown_window_is_what_the_show_step_returned() {
    let mut state: GuiThreadState<u8, u32> = GuiThreadState::new();
    assert_eq!(state.create_ui(ok_init), Ok(0));
    let open_count = |_: &u8, _: &String, _: i32, _: i32, _: WindowType| 0u32;
    assert_eq!(state.create_window(0, String::new(), 1, 1, false, open_count), Ok(0));
    let bump = |w: u32| w + 1;
    assert_eq!(state.show_window(0, bump), Ok(()));
    assert_eq!(state.show_window(0, bump), Ok(()));
    let seen = std::cell::Cell::new(0u32);
    let look = |w: u32| {
        seen.set(w);
        w
    };
    assert_eq!(state.show_window(0, look), Ok(()));
    assert_eq!(seen.get(), 2);
}

#[test]
fn create_window_reply_reaches_the_receiver() {
    let mut state: State = GuiThreadState::new();
    assert_eq!(state.create_ui(ok_init), Ok(0));
    let (sender, receiver) = ResponseSender::new();
    match state.process_command(GuiCommand::window_request(0, sender), ok_init, open, show) {
        CommandOutcome::Replied(r, _) => assert_eq!(r, Ok(0)),
        _ => panic!("unexpected outcome"),
    }
    assert_eq!(receiver.try_take().0, Some(Ok(0)));
}
