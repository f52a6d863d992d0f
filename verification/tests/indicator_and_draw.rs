use embedded_menu::DrawCommand;
use embedded_menu::InteractionType;
use embedded_menu::Menu;
use embedded_menu::MenuBuilder;
use embedded_menu::MenuItem;
use embedded_menu::MenuStyle;
use embedded_menu::selection_indicator::SelectionIndicator;
use embedded_menu::selection_indicator::animated::AnimatedSelectionIndicator;
use embedded_menu::selection_indicator::simple::SimpleSelectionIndicator;

fn animated_menu(frames: u32) -> Menu<u32> {
    MenuBuilder::new(
        "Menu".to_string(),
        MenuStyle::new(1).with_animated_selection_indicator(frames),
    )
        .add_item(MenuItem::bool_value("a".to_string(), false))
        .add_item(MenuItem::bool_value("b".to_string(), false))
        .add_item(MenuItem::bool_value("c".to_string(), false))
        .build()
}

fn indicator_offset(menu: &Menu<u32>) -> i32 {
    match &menu.state.indicator {
        SelectionIndicator::Simple(s) => s.offset(),
        SelectionIndicator::Animated(a) => a.offset(),
    }
}

#[test]
fn simple_indicator_jumps_to_target() {
    let mut indicator = SimpleSelectionIndicator::new();
    assert_eq!(indicator.offset(), 0);
    indicator.update_target(17);
    assert_eq!(indicator.offset(), 17);
    indicator.update();
    assert_eq!(indicator.offset(), 17);
}

#[test]
fn animated_indicator_converges_in_frame_budget() {
    let mut indicator = AnimatedSelectionIndicator::new(4);
    indicator.update_target(20);
    let mut previous = indicator.offset();
    for _ in 0..4 {
        indicator.update();
        let current = indicator.offset();
        // Monotonic toward the target, never overshooting.
        assert!(current >= previous);
        assert!(current <= 20);
        previous = current;
    }
    assert_eq!(indicator.offset(), 20);
}

#[test]
fn animated_indicator_exact_linear_steps() {
    let mut indicator = AnimatedSelectionIndicator::new(4);
    indicator.update_target(20);
    let mut seen = Vec::new();
    for _ in 0..4 {
        indicator.update();
        seen.push(indicator.offset());
    }
    assert_eq!(seen, vec![5, 10, 15, 20]);
}

#[test]
fn animated_indicator_can_land_early() {
    let mut indicator = AnimatedSelectionIndicator::new(4);
    indicator.update_target(2);
    indicator.update();
    indicator.update();
    // A distance smaller than the budget is covered before the last frame,
    // rounding toward the target, and the offset then rests there.
    assert_eq!(indicator.offset(), 2);
    indicator.update();
    indicator.update();
    assert_eq!(indicator.offset(), 2);
}

#[test]
fn animated_indicator_moves_downward_too() {
    let mut indicator = AnimatedSelectionIndicator::new(3);
    indicator.update_target(-9);
    indicator.update();
    assert_eq!(indicator.offset(), -3);
    indicator.update();
    assert_eq!(indicator.offset(), -6);
    indicator.update();
    assert_eq!(indicator.offset(), -9);
}

#[test]
fn menu_animates_highlight_across_updates() {
    let mut menu = animated_menu(4);
    menu.interact_verb(InteractionType::Next);
    menu.interact_verb(InteractionType::Next);
    // Row 2 starts at 20 and fits a viewport of 64: the target is 20.
    menu.update(64);
    assert_eq!(indicator_offset(&menu), 5);
    menu.update(64);
    menu.update(64);
    menu.update(64);
    assert_eq!(indicator_offset(&menu), 20);
    menu.update(64);
    assert_eq!(indicator_offset(&menu), 20);
}

#[test]
fn band_width_zero_is_coerced_to_one() {
    let menu = animated_menu(4);
    let commands = menu.draw_commands(0);
    match commands[commands.len() - 1] {
        DrawCommand::SelectionBand { width, .. } => assert_eq!(width, 1),
        _ => panic!("expected the selection band last"),
    }
    let commands = menu.draw_commands(64);
    match commands[commands.len() - 1] {
        DrawCommand::SelectionBand { width, .. } => assert_eq!(width, 64),
        _ => panic!("expected the selection band last"),
    }
}

#[test]
fn draw_order_title_rows_band() {
    let mut menu = animated_menu(1);
    menu.interact_verb(InteractionType::Next);
    menu.update(64);
    let commands = menu.draw_commands(64);
    assert_eq!(commands.len(), 5);
    assert!(matches!(commands[0], DrawCommand::Title { .. }));
    assert!(matches!(commands[1], DrawCommand::Row { index: 0, y: 0, .. }));
    assert!(matches!(commands[2], DrawCommand::Row { index: 1, y: 10, .. }));
    assert!(matches!(commands[3], DrawCommand::Row { index: 2, y: 20, .. }));
    // With a one-frame budget the highlight already rests on row 1.
    assert!(matches!(
        commands[4],
        DrawCommand::SelectionBand { y: 10, height: 10, width: 64, .. }
    ));
}

#[test]
fn details_mode_draws_detail_text() {
    let style = MenuStyle::new(1).with_details_delay(1);
    let mut menu = MenuBuilder::<u32>::new("Menu".to_string(), style)
        .add_item(MenuItem::bool_value("a".to_string(), false).with_detail_text(
            "long text".to_string(),
        ))
        .build();
    menu.update(64);
    let commands = menu.draw_commands(64);
    assert_eq!(commands.len(), 2);
    assert!(matches!(commands[0], DrawCommand::Title { .. }));
    assert!(matches!(commands[1], DrawCommand::DetailText { index: 0, .. }));
}

#[test]
fn band_follows_scrolled_row() {
    let mut menu = MenuBuilder::<u32>::new("Menu".to_string(), MenuStyle::new(1))
        .add_item(MenuItem::bool_value("a".to_string(), false))
        .add_item(MenuItem::bool_value("b".to_string(), false))
        .add_item(MenuItem::bool_value("c".to_string(), false))
        .build();
    menu.interact_verb(InteractionType::Next);
    menu.interact_verb(InteractionType::Next);
    menu.update(22);
    // The static indicator lands immediately on the scrolled row top.
    let commands = menu.draw_commands(22);
    assert!(matches!(commands[3], DrawCommand::Row { index: 2, y: 12, .. }));
    assert!(matches!(commands[4], DrawCommand::SelectionBand { y: 12, .. }));
}
