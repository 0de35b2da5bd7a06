use rusty_password_manager::database_context::Account;
use rusty_password_manager::input_handler::KeyCode;
use rusty_password_manager::logic::add_account_logic::AddAccountLogic;
use rusty_password_manager::logic::controller::Controller;
use rusty_password_manager::logic::test_controller::TestController;
use rusty_password_manager::models::account_model::Account as AccountModel;
use rusty_password_manager::page_list_view::{Entry, Page, PageView};
use rusty_password_manager::password_widget::{build_new_hidden_string, PasswordWidget};
use rusty_password_manager::terminal::terminal_context::TerminalContext as Surface;
use rusty_password_manager::terminal_context::{
    center, DrawCommand, StyleAttribute, TerminalContext, Visibility,
};
use rusty_password_manager::texts::{MainMenu, Password};
use rusty_password_manager::views::test_view::TestView;
use rusty_password_manager::views::view::WidgetView;
use rusty_password_manager::widget::Widget as PlacedWidget;
use rusty_password_manager::widgets::label::Label;
use rusty_password_manager::widgets::render_info::RenderStyle;
use rusty_password_manager::widgets::widget::Widget;

fn accounts(n: i32) -> Vec<Account> {
    (1..=n)
        .map(|id| Account {
            id,
            account_name: format!("site{}", id),
            password: "pw".to_string(),
            email: None,
            created_at: 0,
            updated_at: 0,
        })
        .collect()
}

fn texts_of(context: &TerminalContext) -> Vec<(u16, u16, String, Option<StyleAttribute>)> {
    context
        .get_frame()
        .iter()
        .filter_map(|c| match c {
            DrawCommand::Text { x, y, content, style } => Some((*x, *y, content.clone(), *style)),
            _ => None,
        })
        .collect()
}

#[test]
fn an_entry_holds_id_and_name() {
    let entry = Entry::new(&accounts(3)[2]);
    assert_eq!(entry.get_account_id(), 3);
    assert_eq!(entry.get_account_name(), "site3");
}

#[test]
fn a_page_moves_its_selection_within_its_entries() {
    let mut page = Page::new(&accounts(3));
    assert_eq!(page.get_selected_account_id(), 1);
    page.decrease_selected_idx();
    assert_eq!(page.get_selected_account_id(), 1);
    page.increase_selected_idx();
    page.increase_selected_idx();
    assert_eq!(page.get_selected_account_id(), 3);
    page.increase_selected_idx();
    assert_eq!(page.get_selected_account_id(), 3);
    page.decrease_selected_idx();
    assert_eq!(page.get_selected_account_id(), 2);
}

#[test]
fn a_page_of_no_accounts_is_empty_and_draws_nothing() {
    let page = Page::new(&[]);
    let mut context = TerminalContext::new(0, 0, 50, 20);
    context.take_frame();
    page.display_entries(&mut context, 2, 5);
    assert!(texts_of(&context).is_empty());
    let one = Page::new(&accounts(1));
    one.display_entries(&mut context, 2, 5);
    assert_eq!(texts_of(&context), vec![(2, 5, "site1".to_string(), Some(StyleAttribute::InverseColor))]);
}

#[test]
fn pages_hold_ten_entries_each() {
    let id_after = |n: i32, moves: &[KeyCode]| {
        let mut view = PageView::new(&accounts(n));
        for key in moves {
            match key {
                KeyCode::Right => view.next_page(),
                KeyCode::Left => view.prev_page(),
                KeyCode::Down => view.next_account(),
                _ => view.prev_account(),
            }
        }
        view.get_selected_account_id()
    };
    assert_eq!(id_after(0, &[]), None);
    assert_eq!(id_after(0, &[KeyCode::Right, KeyCode::Down, KeyCode::Left, KeyCode::Up]), None);
    assert_eq!(id_after(1, &[]), Some(1));
    assert_eq!(id_after(1, &[KeyCode::Right, KeyCode::Down]), Some(1));
    assert_eq!(id_after(10, &[KeyCode::Right]), Some(1));
    assert_eq!(id_after(11, &[KeyCode::Right]), Some(11));
    assert_eq!(id_after(11, &[KeyCode::Right, KeyCode::Down]), Some(11));
    assert_eq!(id_after(25, &[KeyCode::Right, KeyCode::Right, KeyCode::Right]), Some(21));
    assert_eq!(id_after(25, &[KeyCode::Right, KeyCode::Right, KeyCode::Down, KeyCode::Down, KeyCode::Down, KeyCode::Down, KeyCode::Down]), Some(25));
    assert_eq!(id_after(25, &[KeyCode::Down, KeyCode::Right, KeyCode::Down, KeyCode::Down, KeyCode::Left]), Some(2));
    assert_eq!(id_after(25, &[KeyCode::Down, KeyCode::Right, KeyCode::Down, KeyCode::Down, KeyCode::Left, KeyCode::Right]), Some(13));
    let mut nine_down = vec![KeyCode::Down; 9];
    assert_eq!(id_after(20, &nine_down), Some(10));
    nine_down.push(KeyCode::Down);
    assert_eq!(id_after(20, &nine_down), Some(10));
    assert_eq!(PageView::new_empty().get_selected_account_id(), None);
}

#[test]
fn a_page_is_drawn_with_its_counter() {
    let mut view = PageView::new(&accounts(12));
    view.next_account();
    let mut context = TerminalContext::new(0, 0, 50, 20);
    context.take_frame();
    view.display_page(&mut context, 2, 5);
    let drawn = texts_of(&context);
    assert_eq!(drawn.len(), 11);
    assert_eq!(drawn[0], (44, 5, "[1/2]".to_string(), None));
    assert_eq!(drawn[1], (2, 5, "site1".to_string(), None));
    assert_eq!(drawn[2], (2, 6, "site2".to_string(), Some(StyleAttribute::InverseColor)));
    assert_eq!(drawn[10], (2, 14, "site10".to_string(), None));
    context.take_frame();
    PageView::new_empty().display_page(&mut context, 0, 5);
    assert_eq!(texts_of(&context), vec![(44, 5, "[1/0]".to_string(), None)]);
}

#[test]
fn a_hidden_password_shows_thirty_symbols() {
    let symbols = Password { symbols: "*#".to_string() };
    let hidden = build_new_hidden_string(&symbols);
    assert_eq!(hidden.chars().count(), 30);
    assert!(hidden.chars().all(|c| c == '*' || c == '#'));
    let none = build_new_hidden_string(&Password { symbols: String::new() });
    assert_eq!(none, "*".repeat(30));

    let mut widget = PasswordWidget::new("secret".to_string(), &symbols);
    let shown = widget.get_password_to_display().unwrap().clone();
    assert_eq!(shown.chars().count(), 30);
    assert!(!shown.contains("secret"));
    widget.change_visibility(true);
    assert_eq!(widget.get_password_to_display(), Some(&"secret".to_string()));
    widget.update_password(String::new(), &symbols);
    assert_eq!(widget.get_password_to_display(), Some(&String::new()));
    widget.change_visibility(false);
    assert_eq!(widget.get_password_to_display(), None);
}

#[test]
fn a_password_widget_draws_what_it_shows() {
    let symbols = Password { symbols: "x".to_string() };
    let mut widget = PasswordWidget::new(String::new(), &symbols);
    let mut context = TerminalContext::new(0, 0, 50, 20);
    context.take_frame();
    widget.display(&mut context, 3, 4);
    assert!(context.get_frame().is_empty());
    widget.update_password("secret".to_string(), &symbols);
    widget.display(&mut context, 3, 4);
    assert_eq!(texts_of(&context), vec![(3, 4, "x".repeat(30), None)]);
    context.take_frame();
    widget.change_visibility(true);
    widget.display_as_footer(&mut context, &"Password".to_string());
    let frame = context.take_frame();
    assert_eq!(frame.len(), 4);
    assert!(matches!(&frame[0], DrawCommand::Line { x: 0, y: 17, width: 49 }));
    assert!(matches!(&frame[1], DrawCommand::Text { x: 0, y: 18, content, style: None } if content == "Password"));
    assert!(matches!(&frame[2], DrawCommand::Text { x: 0, y: 19, content, style: None } if content == "secret"));
    assert!(matches!(&frame[3], DrawCommand::Cursor { x: 6, y: 19 }));
}

#[test]
fn the_context_records_what_is_drawn() {
    let mut context = TerminalContext::new(3, 4, 45, 15);
    assert_eq!(context.get_origin(), (3, 4));
    assert_eq!(context.get_width(), 45);
    assert_eq!(context.get_height(), 15);
    assert!(matches!(context.get_frame()[..], [DrawCommand::Clear]));
    context.draw_border();
    context.print_line(1, 2, 3);
    context.print_at_position(45, 15, "corner");
    context.print_styled_at_position(0, 0, "bold", StyleAttribute::Bold);
    context.print_hidden_password_at_position(1, 1, 0, "***");
    context.print_hidden_password_at_position(1, 1, 6, "***");
    context.move_cursor_to_position(7, 8);
    context.clear_screen();
    let frame = context.take_frame();
    assert_eq!(frame.len(), 8);
    assert!(matches!(&frame[1], DrawCommand::Border));
    assert!(matches!(&frame[2], DrawCommand::Line { x: 1, y: 2, width: 3 }));
    assert!(matches!(&frame[3], DrawCommand::Text { x: 45, y: 15, content, style: None } if content == "corner"));
    assert!(matches!(&frame[4], DrawCommand::Text { x: 0, y: 0, content, style: Some(StyleAttribute::Bold) } if content == "bold"));
    assert!(matches!(&frame[5], DrawCommand::Text { x: 1, y: 1, content, style: None } if content == "***"));
    assert!(matches!(&frame[6], DrawCommand::Cursor { x: 7, y: 8 }));
    assert!(matches!(&frame[7], DrawCommand::Clear));
    assert!(context.get_frame().is_empty());
    context.destroy();
    assert!(matches!(context.get_frame()[..], [DrawCommand::Clear, DrawCommand::Restore]));
}

#[test]
fn footers_join_and_cut_their_texts() {
    let mut context = TerminalContext::new(0, 0, 45, 15);
    context.take_frame();
    let a = "up".to_string();
    let b = "down".to_string();
    let c = "enter".to_string();
    context.draw_control_footer(vec![&a, &b, &c]);
    context.draw_control_footer(vec![]);
    context.draw_control_footer(vec![&a]);
    let long = "x".repeat(50);
    context.draw_control_footer(vec![&a, &long]);
    context.draw_request_footer(&"Sure?".to_string(), &"[Y]es | [N]o".to_string());
    context.draw_input_footer(&"Name".to_string(), Visibility::Visible("y".repeat(60)), "***");
    context.draw_input_footer(&"Name".to_string(), Visibility::Hidden, "***");
    let frame = context.take_frame();
    assert!(matches!(&frame[0], DrawCommand::Line { x: 0, y: 13, width: 44 }));
    assert!(matches!(&frame[1], DrawCommand::Text { x: 0, y: 14, content, .. } if content == "up|down|enter"));
    assert!(matches!(&frame[3], DrawCommand::Text { content, .. } if content.is_empty()));
    assert!(matches!(&frame[5], DrawCommand::Text { content, .. } if content == "up"));
    assert!(matches!(&frame[7], DrawCommand::Text { content, .. } if content.len() == 44 && content.starts_with("up|xxx")));
    assert!(matches!(&frame[8], DrawCommand::Line { x: 0, y: 12, width: 44 }));
    assert!(matches!(&frame[9], DrawCommand::Text { x: 0, y: 13, content, .. } if content == "Sure?"));
    assert!(matches!(&frame[10], DrawCommand::Text { x: 0, y: 14, content, .. } if content == "[Y]es | [N]o"));
    assert!(matches!(&frame[13], DrawCommand::Text { x: 0, y: 14, content, .. } if content.len() == 60));
    assert!(matches!(&frame[14], DrawCommand::Cursor { x: 45, y: 14 }));
    assert!(matches!(&frame[17], DrawCommand::Text { x: 0, y: 14, content, .. } if content == "***"));
    assert!(matches!(&frame[18], DrawCommand::Cursor { x: 3, y: 14 }));
}

#[test]
fn keys_are_read_in_the_order_in_which_they_came() {
    let mut context = TerminalContext::new(0, 0, 45, 15);
    assert_eq!(context.read_input(), None);
    context.push_input(KeyCode::Char('a'));
    context.push_input(KeyCode::Enter);
    assert_eq!(context.read_input(), Some(KeyCode::Char('a')));
    context.push_input(KeyCode::Esc);
    assert_eq!(context.read_input(), Some(KeyCode::Enter));
    assert_eq!(context.read_input(), Some(KeyCode::Esc));
    assert_eq!(context.read_input(), None);
}

#[test]
fn centring_leaves_equal_margins() {
    assert_eq!(center(80, 10), 35);
    assert_eq!(center(80, 11), 34);
    assert_eq!(center(80, 0), 40);
    assert_eq!(center(80, 80), 0);
    assert_eq!(center(80, 81), 0);
    assert_eq!(center(80, 79), 0);
    assert_eq!(center(0, 0), 0);
    assert_eq!(center(u16::MAX, usize::MAX), 0);
}

#[test]
fn menu_items_come_in_their_order() {
    let s = |t: &str| t.to_string();
    let menu = MainMenu {
        heading: s("h"),
        add_account: s("a"),
        list_accounts: s("l"),
        set_master_pwd: s("s"),
        wipe_database: s("w"),
        exit: s("e"),
    };
    assert_eq!(menu.get_menu_items(), vec!["a", "l", "s", "w", "e"]);
    assert_eq!(Password { symbols: s("*é") }.get_symbols(), vec!['*', 'é']);
}

#[test]
fn a_label_draws_its_heading_above_its_text() {
    let mut label = Label::new((4, 5), &"text".to_string());
    assert_eq!(label.get_widget_position(), (4, 5));
    let plain = label.draw();
    assert_eq!(plain.len(), 1);
    assert_eq!((plain[0].pos_x, plain[0].pos_y, plain[0].content.as_str(), plain[0].style), (1, 1, "text", RenderStyle::Default));
    label.set_heading("Heading".to_string());
    label.set_style(RenderStyle::Underline);
    let both = label.draw();
    assert_eq!(both.len(), 2);
    assert_eq!((both[0].pos_x, both[0].pos_y, both[0].content.as_str(), both[0].style), (1, 1, "Heading", RenderStyle::Bold));
    assert_eq!((both[1].pos_x, both[1].pos_y, both[1].content.as_str(), both[1].style), (1, 2, "text", RenderStyle::Underline));
    assert_eq!(label.get_widget_position(), (4, 5));
}

#[test]
fn a_view_is_rendered_at_the_origin_of_the_surface() {
    let mut account = AccountModel::new(7, "Test account".to_string(), "Test password".to_string(), None, None, 9);
    assert_eq!((account.id, account.created_at), (7, 9));
    account.update_password("new".to_string());
    account.update_email("a@b".to_string());
    account.update_notes("note".to_string());
    assert_eq!(account.password, "new");
    assert_eq!(account.email, Some("a@b".to_string()));
    assert_eq!(account.notes, Some("note".to_string()));
    assert_eq!(account.account_name, "Test account");

    let controller = TestController::new(&account);
    let view: TestView = controller.render();
    assert_eq!(view.render().len(), 2);
    let mut surface = Surface::new(10, 20, 100, 20);
    surface.render_view(&view);
    surface.render_view(&view);
    let drawn = surface.take_drawn();
    let seen: Vec<(u32, u32, &str, RenderStyle)> =
        drawn.iter().map(|e| (e.x, e.y, e.content.as_str(), e.style)).collect();
    assert_eq!(
        seen,
        vec![
            (11, 21, "Account name:", RenderStyle::Bold),
            (11, 22, "Test account", RenderStyle::Default),
            (11, 23, "new", RenderStyle::Default),
        ]
    );
    assert!(surface.take_drawn().is_empty());
    let far = Surface::new(u16::MAX, u16::MAX, 1, 1);
    let mut far = far;
    far.render_view(&view);
    assert_eq!(far.take_drawn()[2].y, 65535 + 2 + 1);
}

#[test]
fn an_account_needs_a_name_and_a_password() {
    assert_eq!(AddAccountLogic::validate_account_data("a", "b"), Ok(true));
    let message = Err("Account name or password cannot be empty.".to_string());
    assert_eq!(AddAccountLogic::validate_account_data("", "b"), message);
    assert_eq!(AddAccountLogic::validate_account_data("a", ""), message);
    assert_eq!(AddAccountLogic::validate_account_data("", ""), message);
}
