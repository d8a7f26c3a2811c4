use notifychecker::form::{App, InputMode, StatefulList};

#[test]
fn list_next_wraps_to_first() {
    let mut list = StatefulList::with_items(vec!["a", "b", "c"]);
    assert_eq!(list.selected(), None);
    list.next();
    assert_eq!(list.selected(), Some(0));
    list.next();
    list.next();
    assert_eq!(list.selected(), Some(2));
    list.next();
    assert_eq!(list.selected(), Some(0));
}

#[test]
fn list_previous_wraps_to_last() {
    let mut list = StatefulList::with_items(vec![1, 2, 3]);
    list.previous();
    assert_eq!(list.selected(), Some(0));
    list.previous();
    assert_eq!(list.selected(), Some(2));
    list.previous();
    assert_eq!(list.selected(), Some(1));
}

#[test]
fn new_form_offers_hours_and_minutes() {
    let app = App::new();
    assert_eq!(app.index, 0);
    assert_eq!(app.input_mode, InputMode::Normal);
    assert_eq!(app.titles, vec!["Home", "Check", "About", "Quit"]);
    assert_eq!(app.hr_items.items.len(), 24);
    assert_eq!(app.hr_items.items[0], "01");
    assert_eq!(app.hr_items.items[23], "24");
    assert_eq!(app.min_items.items.len(), 60);
    assert_eq!(app.min_items.items[59], "59");
    let hours: Vec<String> = (1..=24).map(|h| format!("{:02}", h)).collect();
    let minutes: Vec<String> = (0..60).map(|m| format!("{:02}", m)).collect();
    assert_eq!(app.hr_items.items, hours);
    assert_eq!(app.min_items.items, minutes);
    assert_eq!(app.hr_items.selected(), None);
    assert_eq!(app.min_items.selected(), None);
    assert!(!app.ending_connected && !app.ending_disconnected);
}

#[test]
fn tabs_switch_index() {
    let mut app = App::new();
    app.c_render();
    assert_eq!(app.index, 1);
    app.a_render();
    assert_eq!(app.index, 2);
    app.h_render();
    assert_eq!(app.index, 0);
}

#[test]
fn typing_inserts_at_cursor() {
    let mut app = App::new();
    app.enter_char_name('a');
    app.enter_char_name('c');
    app.move_cursor_left_name();
    app.enter_char_name('b');
    assert_eq!(app.input_name, "abc");
    assert_eq!(app.cursor_position_name, 2);
    app.move_cursor_right_name();
    app.move_cursor_right_name();
    assert_eq!(app.cursor_position_name, 3);
}

#[test]
fn backspace_deletes_before_cursor() {
    let mut app = App::new();
    for c in "héllo".chars() {
        app.enter_char_email(c);
    }
    app.move_cursor_left_email();
    app.move_cursor_left_email();
    app.delete_char_email();
    assert_eq!(app.input_email, "hélo");
    assert_eq!(app.cursor_position_email, 2);
    app.reset_cursor_email();
    app.delete_char_email();
    assert_eq!(app.input_email, "hélo");
    assert_eq!(app.cursor_position_email, 0);
    app.move_cursor_left_email();
    assert_eq!(app.cursor_position_email, 0);
}

#[test]
fn submit_moves_input_to_field() {
    let mut app = App::new();
    for c in "example.com".chars() {
        app.enter_char_website(c);
    }
    app.submit_website();
    assert_eq!(app.website, "example.com");
    assert_eq!(app.input_website, "");
    assert_eq!(app.cursor_position_website, 0);
    app.enter_char_name('x');
    app.submit_name();
    assert_eq!(app.name, "x");
    assert_eq!(app.clamp_cursor_name(5), 0);
}
