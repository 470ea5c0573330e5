//! Event routing, the text protocol, picker completion, dispatch order,
//! and the construction plan.

use tray_bridge::builder::{build_plan, entry_label, menu_layout, BuildStep, MenuEntry};
use tray_bridge::dispatch::{DispatchOutcome, LoopEvent, LoopStep, NativeEvent, WidgetTag};
use tray_bridge::protocol::{failure_message, immediate_message, picker_message, success_message};
use tray_bridge::session::{TrayConfig, TraySession};
use tray_bridge::MenuAction;

fn session() -> TraySession {
    TraySession::new(TrayConfig {
        name: String::from("App"),
        icon_path: String::from("C:\\icon.ico"),
    })
}

#[test]
fn tray_click_delivers_click_message() {
    let outcome = session().handle_event(NativeEvent::LeftClickUp(Some(WidgetTag::Tray)));
    assert_eq!(outcome, DispatchOutcome::Deliver(String::from("@click")));
}

#[test]
fn menu_items_deliver_their_messages() {
    let s = session();
    let select = |tag: WidgetTag| s.handle_event(NativeEvent::MenuItemSelected(Some(tag)));
    assert_eq!(select(WidgetTag::ItemOpen), DispatchOutcome::Deliver(String::from("@open")));
    assert_eq!(select(WidgetTag::ItemShow), DispatchOutcome::Deliver(String::from("@show")));
    assert_eq!(select(WidgetTag::ItemHide), DispatchOutcome::Deliver(String::from("@hide")));
    assert_eq!(select(WidgetTag::ItemExit), DispatchOutcome::Deliver(String::from("@exit")));
    assert_eq!(select(WidgetTag::ItemPickFile), DispatchOutcome::RunPicker(false));
    assert_eq!(select(WidgetTag::ItemPickDirectory), DispatchOutcome::RunPicker(true));
}

#[test]
fn context_menu_on_tray_pops_up_menu() {
    let outcome = session().handle_event(NativeEvent::ContextMenu(Some(WidgetTag::Tray)));
    assert_eq!(outcome, DispatchOutcome::ShowMenu);
}

#[test]
fn unrecognized_events_are_ignored() {
    let s = session();
    assert_eq!(s.handle_event(NativeEvent::MenuItemSelected(None)), DispatchOutcome::Ignore);
    assert_eq!(s.handle_event(NativeEvent::LeftClickUp(None)), DispatchOutcome::Ignore);
    assert_eq!(
        s.handle_event(NativeEvent::LeftClickUp(Some(WidgetTag::ItemOpen))),
        DispatchOutcome::Ignore
    );
    assert_eq!(s.handle_event(NativeEvent::ContextMenu(None)), DispatchOutcome::Ignore);
    assert_eq!(s.handle_event(NativeEvent::Other), DispatchOutcome::Ignore);
}

#[test]
fn picker_confirmation_yields_exact_message() {
    let s = session();
    assert_eq!(
        s.picker_message(false, Some("C:\\a\\b.txt")),
        Some(String::from("#FC:\\a\\b.txt"))
    );
    assert_eq!(s.picker_message(true, Some("C:\\a")), Some(String::from("#DC:\\a")));
}

#[test]
fn picker_cancellation_yields_no_message() {
    let s = session();
    assert_eq!(s.picker_message(false, None), None);
    assert_eq!(s.picker_message(true, None), None);
}

#[test]
fn protocol_tags_are_exact() {
    assert_eq!(immediate_message(MenuAction::Click), Some("@click"));
    assert_eq!(immediate_message(MenuAction::Open), Some("@open"));
    assert_eq!(immediate_message(MenuAction::ShowConsole), Some("@show"));
    assert_eq!(immediate_message(MenuAction::HideConsole), Some("@hide"));
    assert_eq!(immediate_message(MenuAction::Exit), Some("@exit"));
    assert_eq!(immediate_message(MenuAction::PickFile), None);
    assert_eq!(immediate_message(MenuAction::PickDirectory), None);
    assert_eq!(success_message(), "@success");
    assert_eq!(failure_message("boom"), "!boom");
    assert_eq!(picker_message(false, "p"), "#Fp");
    assert_eq!(picker_message(true, "p"), "#Dp");
}

fn native(event: NativeEvent, picked: Option<&str>) -> LoopEvent {
    LoopEvent::Native(LoopStep { event, picked: picked.map(String::from) })
}

#[test]
fn one_click_yields_exactly_one_message_in_order() {
    let events = vec![
        native(NativeEvent::LeftClickUp(Some(WidgetTag::Tray)), None),
        native(NativeEvent::MenuItemSelected(Some(WidgetTag::ItemOpen)), None),
    ];
    let messages = session().run_loop(&events);
    assert_eq!(messages, vec![String::from("@click"), String::from("@open")]);
}

#[test]
fn loop_interleaves_pickers_in_order() {
    let events = vec![
        native(NativeEvent::LeftClickUp(Some(WidgetTag::Tray)), None),
        native(NativeEvent::MenuItemSelected(Some(WidgetTag::ItemPickFile)), Some("C:\\a\\b.txt")),
        native(NativeEvent::MenuItemSelected(Some(WidgetTag::ItemPickDirectory)), None),
        native(NativeEvent::ContextMenu(Some(WidgetTag::Tray)), None),
        native(NativeEvent::MenuItemSelected(Some(WidgetTag::ItemExit)), None),
    ];
    let messages = session().run_loop(&events);
    assert_eq!(
        messages,
        vec![String::from("@click"), String::from("#FC:\\a\\b.txt"), String::from("@exit")]
    );
}

#[test]
fn no_events_are_dispatched_after_stop() {
    let events = vec![
        native(NativeEvent::LeftClickUp(Some(WidgetTag::Tray)), None),
        LoopEvent::StopRequested,
        native(NativeEvent::MenuItemSelected(Some(WidgetTag::ItemExit)), None),
    ];
    let messages = session().run_loop(&events);
    assert_eq!(messages, vec![String::from("@click")]);
}

#[test]
fn menu_layout_groups_with_two_separators() {
    let layout = menu_layout();
    assert_eq!(
        layout,
        vec![
            MenuEntry::Item(MenuAction::Open),
            MenuEntry::Item(MenuAction::PickFile),
            MenuEntry::Item(MenuAction::PickDirectory),
            MenuEntry::Separator,
            MenuEntry::Item(MenuAction::ShowConsole),
            MenuEntry::Item(MenuAction::HideConsole),
            MenuEntry::Separator,
            MenuEntry::Item(MenuAction::Exit),
        ]
    );
}

#[test]
fn build_plan_orders_widgets_before_entries() {
    let plan = build_plan();
    assert_eq!(plan.len(), 14);
    assert_eq!(
        &plan[..6],
        &[
            BuildStep::Icon,
            BuildStep::Window,
            BuildStep::TrayIcon,
            BuildStep::Menu,
            BuildStep::FilePicker,
            BuildStep::DirectoryPicker,
        ]
    );
    let entries: Vec<BuildStep> =
        menu_layout().into_iter().map(BuildStep::Entry).collect();
    assert_eq!(&plan[6..], entries.as_slice());
}

#[test]
fn entry_labels_match_the_menu() {
    assert_eq!(entry_label(MenuAction::Open), Some("\u{6253}\u{5f00}WebUI"));
    assert_eq!(entry_label(MenuAction::PickFile), Some("\u{6253}\u{5f00}\u{6587}\u{4ef6}"));
    assert_eq!(entry_label(MenuAction::PickDirectory), Some("\u{6253}\u{5f00}\u{76ee}\u{5f55}"));
    assert_eq!(
        entry_label(MenuAction::ShowConsole),
        Some("\u{663e}\u{793a}\u{63a7}\u{5236}\u{53f0}")
    );
    assert_eq!(
        entry_label(MenuAction::HideConsole),
        Some("\u{9690}\u{85cf}\u{63a7}\u{5236}\u{53f0}")
    );
    assert_eq!(entry_label(MenuAction::Exit), Some("\u{9000}\u{51fa}"));
    assert_eq!(entry_label(MenuAction::Click), None);
}
