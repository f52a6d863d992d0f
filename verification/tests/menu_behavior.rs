use embedded_menu::DrawCommand;
use embedded_menu::InputEvent;
use embedded_menu::InteractionController;
use embedded_menu::InteractionType;
use embedded_menu::ItemKind;
use embedded_menu::Key;
use embedded_menu::Menu;
use embedded_menu::MenuBuilder;
use embedded_menu::MenuDisplayMode;
use embedded_menu::MenuItem;
use embedded_menu::MenuStyle;

#[derive(Clone, Copy, PartialEq, Eq, Debug)]
enum TestEvent {
    Foo,
    Bar,
}

fn three_bool_rows() -> Menu<TestEvent> {
    MenuBuilder::new("Menu".to_string(), MenuStyle::new(1))
        .add_item(MenuItem::bool_value("a".to_string(), false))
        .add_item(MenuItem::bool_value("b".to_string(), false))
        .add_item(MenuItem::bool_value("c".to_string(), false))
        .build()
}

#[test]
fn scroll_offset_minimal_shift() {
    // Three selectable rows of height 10 at tops 0, 10, 20; viewport 22.
    let mut menu = three_bool_rows();
    menu.interact_verb(InteractionType::Next);
    menu.interact_verb(InteractionType::Next);
    assert_eq!(menu.state.selected, 2);
    menu.update(22);
    // Row 2 spans 20..30; shifting by -8 puts its bottom at 22 exactly.
    assert_eq!(menu.state.list_offset, -8);
    // Shifting again changes nothing: the row already fits.
    menu.state.recompute_targets = true;
    menu.update(22);
    assert_eq!(menu.state.list_offset, -8);
}

#[test]
fn scroll_back_up() {
    let mut menu = three_bool_rows();
    menu.interact_verb(InteractionType::Next);
    menu.interact_verb(InteractionType::Next);
    menu.update(22);
    assert_eq!(menu.state.list_offset, -8);
    menu.interact_verb(InteractionType::Previous);
    menu.interact_verb(InteractionType::Previous);
    menu.update(22);
    // Row 0 was above the viewport top; the offset returns to 0, not more.
    assert_eq!(menu.state.list_offset, 0);
}

#[test]
fn value_item_cycles_on_select() {
    let mut menu = MenuBuilder::<TestEvent>::new("Menu".to_string(), MenuStyle::new(1))
        .add_item(MenuItem::bool_value("flag".to_string(), false))
        .build();
    let first = menu.interact_verb(InteractionType::Select);
    assert_eq!(first, None);
    assert!(matches!(menu.items[0].kind, ItemKind::Value { count: 2, pos: 1 }));
    let second = menu.interact_verb(InteractionType::Select);
    assert_eq!(second, None);
    assert!(matches!(menu.items[0].kind, ItemKind::Value { count: 2, pos: 0 }));
}

#[test]
fn multi_state_value_wraps() {
    let mut menu = MenuBuilder::<TestEvent>::new("Menu".to_string(), MenuStyle::new(1))
        .add_item(MenuItem::value("tri".to_string(), 3, 2))
        .build();
    menu.interact_verb(InteractionType::Select);
    assert!(matches!(menu.items[0].kind, ItemKind::Value { count: 3, pos: 0 }));
    menu.interact_verb(InteractionType::Select);
    assert!(matches!(menu.items[0].kind, ItemKind::Value { count: 3, pos: 1 }));
}

#[test]
fn navigation_item_emits_event() {
    let mut menu = MenuBuilder::new("Menu".to_string(), MenuStyle::new(1))
        .add_item(MenuItem::navigation("go".to_string(), TestEvent::Foo))
        .add_item(MenuItem::navigation("other".to_string(), TestEvent::Bar))
        .build();
    let mode_before = menu.state.display_mode;
    let selected_before = menu.state.selected;
    let out = menu.interact_verb(InteractionType::Select);
    assert_eq!(out, Some(TestEvent::Foo));
    assert_eq!(menu.state.display_mode, mode_before);
    assert_eq!(menu.state.selected, selected_before);
}

#[test]
fn selection_skips_unselectable_rows() {
    let mut menu = MenuBuilder::<TestEvent>::new("Menu".to_string(), MenuStyle::new(1))
        .add_item(MenuItem::bool_value("a".to_string(), false))
        .add_item(MenuItem::bool_value("divider".to_string(), false).with_selectable(false))
        .add_item(MenuItem::bool_value("b".to_string(), false))
        .build();
    menu.interact_verb(InteractionType::Next);
    assert_eq!(menu.state.selected, 2);
    menu.interact_verb(InteractionType::Next);
    assert_eq!(menu.state.selected, 2);
    menu.interact_verb(InteractionType::Previous);
    assert_eq!(menu.state.selected, 0);
}

#[test]
fn next_then_previous_returns() {
    let mut menu = three_bool_rows();
    menu.interact_verb(InteractionType::Next);
    assert_eq!(menu.state.selected, 1);
    menu.interact_verb(InteractionType::Previous);
    assert_eq!(menu.state.selected, 0);
    // Clamping makes Previous idempotent at the first selectable index.
    menu.interact_verb(InteractionType::Previous);
    assert_eq!(menu.state.selected, 0);
    // And Next idempotent at the last.
    menu.interact_verb(InteractionType::Next);
    menu.interact_verb(InteractionType::Next);
    menu.interact_verb(InteractionType::Next);
    assert_eq!(menu.state.selected, 2);
}

#[test]
fn page_next_lands_on_min() {
    let style = MenuStyle::new(1).with_page_size(2);
    let mut menu = MenuBuilder::<TestEvent>::new("Menu".to_string(), style)
        .add_item(MenuItem::bool_value("0".to_string(), false))
        .add_item(MenuItem::bool_value("1".to_string(), false))
        .add_item(MenuItem::bool_value("2".to_string(), false))
        .add_item(MenuItem::bool_value("3".to_string(), false))
        .add_item(MenuItem::bool_value("4".to_string(), false))
        .build();
    menu.interact_verb(InteractionType::PageNext);
    assert_eq!(menu.state.selected, 2); // min(0 + 2, 4)
    menu.interact_verb(InteractionType::PageNext);
    assert_eq!(menu.state.selected, 4); // min(2 + 2, 4)
    menu.interact_verb(InteractionType::PageNext);
    assert_eq!(menu.state.selected, 4); // clamped at the last selectable
    menu.interact_verb(InteractionType::PagePrevious);
    assert_eq!(menu.state.selected, 2);
    menu.interact_verb(InteractionType::PagePrevious);
    assert_eq!(menu.state.selected, 0);
}

#[test]
fn details_mode_after_countdown() {
    let style = MenuStyle::new(1).with_details_delay(3);
    let mut menu = MenuBuilder::<TestEvent>::new("Menu".to_string(), style)
        .add_item(MenuItem::bool_value("a".to_string(), false).with_detail_text(
            "more".to_string(),
        ))
        .build();
    assert_eq!(menu.state.display_mode, MenuDisplayMode::List(3));
    menu.update(64);
    menu.update(64);
    assert_eq!(menu.state.display_mode, MenuDisplayMode::List(1));
    menu.update(64);
    assert_eq!(menu.state.display_mode, MenuDisplayMode::Details);
    // The details view stays open across further updates.
    menu.update(64);
    assert_eq!(menu.state.display_mode, MenuDisplayMode::Details);
    // A navigation verb returns to the list and resets the countdown.
    menu.interact_verb(InteractionType::Next);
    assert_eq!(menu.state.display_mode, MenuDisplayMode::List(3));
}

#[test]
fn navigation_resets_running_countdown() {
    let style = MenuStyle::new(1).with_details_delay(3);
    let mut menu = MenuBuilder::<TestEvent>::new("Menu".to_string(), style)
        .add_item(MenuItem::bool_value("a".to_string(), false))
        .build();
    menu.update(64);
    menu.update(64);
    assert_eq!(menu.state.display_mode, MenuDisplayMode::List(1));
    menu.interact_verb(InteractionType::Previous);
    assert_eq!(menu.state.display_mode, MenuDisplayMode::List(3));
}

#[test]
fn select_in_details_keeps_details() {
    let style = MenuStyle::new(1).with_details_delay(1);
    let mut menu = MenuBuilder::<TestEvent>::new("Menu".to_string(), style)
        .add_item(MenuItem::bool_value("a".to_string(), false))
        .build();
    menu.update(64);
    assert_eq!(menu.state.display_mode, MenuDisplayMode::Details);
    let out = menu.interact_verb(InteractionType::Select);
    assert_eq!(out, None);
    assert_eq!(menu.state.display_mode, MenuDisplayMode::Details);
    assert!(matches!(menu.items[0].kind, ItemKind::Value { count: 2, pos: 1 }));
}

#[test]
fn exit_closes_details_view() {
    let style = MenuStyle::new(1).with_details_delay(2);
    let mut menu = MenuBuilder::<TestEvent>::new("Menu".to_string(), style)
        .add_item(MenuItem::bool_value("a".to_string(), false))
        .build();
    menu.update(64);
    menu.update(64);
    assert_eq!(menu.state.display_mode, MenuDisplayMode::Details);
    let out = menu.interact_verb(InteractionType::Exit);
    assert_eq!(out, None);
    assert_eq!(menu.state.display_mode, MenuDisplayMode::List(2));
}

#[test]
fn exit_in_list_is_ignored() {
    let mut menu = three_bool_rows();
    let mode_before = menu.state.display_mode;
    let out = menu.interact_verb(InteractionType::Exit);
    assert_eq!(out, None);
    assert_eq!(menu.state.display_mode, mode_before);
    assert_eq!(menu.state.selected, 0);
}

#[test]
fn empty_menu_is_a_noop() {
    let mut menu = MenuBuilder::<TestEvent>::new("Menu".to_string(), MenuStyle::new(1)).build();
    assert_eq!(menu.items.len(), 0);
    assert_eq!(menu.interact_verb(InteractionType::Select), None);
    assert_eq!(menu.interact_verb(InteractionType::Next), None);
    assert_eq!(menu.state.selected, 0);
    menu.update(64);
    let commands = menu.draw_commands(64);
    assert_eq!(commands.len(), 1);
    assert!(matches!(commands[0], DrawCommand::Title { .. }));
}

#[test]
fn simple_controller_key_mapping() {
    let mut menu = three_bool_rows();
    assert_eq!(menu.interact(InputEvent::KeyDown(Key::Down)), None);
    assert_eq!(menu.state.selected, 1);
    // Releases and unknown keys have no menu meaning.
    assert_eq!(menu.interact(InputEvent::KeyUp(Key::Down)), None);
    assert_eq!(menu.state.selected, 1);
    assert_eq!(menu.interact(InputEvent::KeyDown(Key::Other)), None);
    assert_eq!(menu.state.selected, 1);
    assert_eq!(menu.interact(InputEvent::KeyDown(Key::Up)), None);
    assert_eq!(menu.state.selected, 0);
}

#[test]
fn programmed_controller_ignores_events() {
    let script = vec![InteractionType::Next, InteractionType::Select];
    let style = MenuStyle::new(1).with_interaction_controller(InteractionController::Programmed(
        script,
    ));
    let mut menu = MenuBuilder::new("Menu".to_string(), style)
        .add_item(MenuItem::bool_value("a".to_string(), false))
        .add_item(MenuItem::navigation("go".to_string(), TestEvent::Foo))
        .build();
    // Whatever raw event arrives, the scripted verbs come out in order.
    assert_eq!(menu.interact(InputEvent::KeyUp(Key::Other)), None);
    assert_eq!(menu.state.selected, 1);
    assert_eq!(menu.interact(InputEvent::KeyUp(Key::Other)), Some(TestEvent::Foo));
    // An exhausted script maps nothing.
    assert_eq!(menu.interact(InputEvent::KeyDown(Key::Enter)), None);
    assert_eq!(menu.state.selected, 1);
}

#[test]
fn menu_with_style_entry_point() {
    let mut menu = Menu::with_style("Menu".to_string(), MenuStyle::new(1))
        .add_item(MenuItem::navigation("go".to_string(), TestEvent::Bar))
        .build();
    assert_eq!(menu.title, "Menu".to_string());
    assert_eq!(menu.interact_verb(InteractionType::Select), Some(TestEvent::Bar));
}

#[test]
fn item_builders_set_fields() {
    let item: MenuItem<TestEvent> = MenuItem::navigation("go".to_string(), TestEvent::Foo)
        .with_marker(">".to_string())
        .with_detail_text("description".to_string())
        .with_selectable(true);
    assert_eq!(item.marker, ">".to_string());
    assert_eq!(item.details, "description".to_string());
    assert!(item.selectable);
    assert_eq!(item.label, "go".to_string());
}

#[test]
fn builder_accumulates_in_append_order() {
    let style = MenuStyle::new(1).with_item_height(12);
    let run = vec![
        MenuItem::bool_value("r0".to_string(), false),
        MenuItem::bool_value("r1".to_string(), true),
    ];
    let menu = MenuBuilder::<TestEvent>::new("Menu".to_string(), style)
        .add_items(run)
        .add_item(MenuItem::bool_value("r2".to_string(), false))
        .build();
    assert_eq!(menu.items.len(), 3);
    assert_eq!(menu.items[0].label, "r0".to_string());
    assert_eq!(menu.items[1].label, "r1".to_string());
    assert_eq!(menu.items[2].label, "r2".to_string());
    // The style's row height was stamped onto every row.
    assert!(menu.items.iter().all(|it| it.height == 12));
    let commands = menu.draw_commands(64);
    assert!(matches!(commands[1], DrawCommand::Row { index: 0, y: 0, .. }));
    assert!(matches!(commands[2], DrawCommand::Row { index: 1, y: 12, .. }));
    assert!(matches!(commands[3], DrawCommand::Row { index: 2, y: 24, .. }));
}
