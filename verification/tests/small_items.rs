use wasm_compose::text::push_decimal;
use wasm_compose::{create_gui_channel, GuiCommand, ResourceCreationError, ResourceReceiveError, ResponseSender, StoredUi, StoredWindow};

#[test]
fn decimal_text() {
    let mut s = String::from("n=");
    push_decimal(&mut s, 0);
    assert_eq!(s, "n=0");
    let mut s = String::new();
    push_decimal(&mut s, 1234567890);
    assert_eq!(s, "1234567890");
    let mut s = String::new();
    push_decimal(&mut s, u32::MAX);
    assert_eq!(s, "4294967295");
    let mut s = String::new();
    push_decimal(&mut s, 10);
    assert_eq!(s, "10");
}

#[test]
fn stored_handles() {
    assert_eq!(StoredUi::new(42).handle(), 42);
    assert_eq!(StoredWindow::new(7).handle(), 7);
}

#[test]
fn resource_error_texts() {
    assert_eq!(ResourceCreationError::ResourceTableFull.message(), "Resource Table Full");
    assert_eq!(ResourceCreationError::ResourceTableFull.case_name(), "resource-table-full");
    assert_eq!(ResourceReceiveError::InvalidHandle.message(), "Invalid Handle");
    assert_eq!(ResourceReceiveError::InvalidHandle.case_name(), "invalid-resource-handle");
}

#[test]
fn response_slot_hands_over_one_value() {
    let (sender, receiver) = ResponseSender::new();
    assert_eq!(receiver.try_take().0, None);
    let _receipt = sender.send(5u32);
    assert_eq!(receiver.try_take().0, Some(5));
    assert_eq!(receiver.try_take().0, None);
}

#[test]
fn gui_channel_carries_commands() {
    let (tx, rx, _) = create_gui_channel();
    tx.send(GuiCommand::DestroyUi { handle: 3 }).unwrap();
    tx.send(GuiCommand::Shutdown).unwrap();
    assert!(matches!(rx.try_recv(), Ok(GuiCommand::DestroyUi { handle: 3 })));
    assert!(matches!(rx.try_recv(), Ok(GuiCommand::Shutdown)));
    assert!(rx.try_recv().is_err());
}
