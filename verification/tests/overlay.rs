use bntui::app::{App, InputMode, Screen};
use bntui::grid::Area;
use bntui::overlay::{byte_len, centered, dialog_inner, dialog_rect, help_items, Rect};

fn form(address: &str, amount: &str, focused: u8, error: Option<&str>) -> App {
    let mut app = App::new();
    app.input_mode = InputMode::SendDialog {
        address: address.to_string(),
        amount: amount.to_string(),
        focused,
        error: error.map(|e| e.to_string()),
    };
    app
}

#[test]
fn the_send_form_stands_in_the_middle() {
    let frame = Area { width: 100, height: 40 };
    assert_eq!(dialog_rect(frame), Rect { x: 24, y: 14, width: 52, height: 11 });
    assert_eq!(dialog_inner(frame), Rect { x: 26, y: 15, width: 48, height: 9 });
    let odd = Area { width: 101, height: 41 };
    assert_eq!(dialog_rect(odd), Rect { x: 24, y: 15, width: 52, height: 11 });
}

#[test]
fn a_box_larger_than_the_frame_starts_at_the_corner() {
    let frame = Area { width: 30, height: 5 };
    assert_eq!(dialog_rect(frame), Rect { x: 0, y: 0, width: 52, height: 11 });
    assert_eq!(dialog_inner(frame), Rect { x: 2, y: 1, width: 48, height: 9 });
    assert_eq!(
        centered(Area { width: 65535, height: 65535 }, 1, 1),
        Rect { x: 32767, y: 32767, width: 1, height: 1 }
    );
}

#[test]
fn the_cursor_follows_the_focus() {
    let lines = form("bn1", "1.5", 0, None).dialog_lines().unwrap();
    assert_eq!(lines.address, "bn1_");
    assert_eq!(lines.amount, "1.5");
    assert!(lines.address_focused);
    assert!(!lines.amount_focused);
    assert_eq!(lines.footer, "Tab switch · Enter send · Esc cancel");
    assert!(!lines.footer_is_error);
    let lines = form("bn1", "1.5", 1, None).dialog_lines().unwrap();
    assert_eq!(lines.address, "bn1");
    assert_eq!(lines.amount, "1.5_");
    assert!(!lines.address_focused);
    assert!(lines.amount_focused);
}

#[test]
fn an_error_takes_the_place_of_the_hint() {
    let lines = form("", "", 0, Some("Address is required")).dialog_lines().unwrap();
    assert_eq!(lines.address, "_");
    assert_eq!(lines.footer, "Address is required");
    assert!(lines.footer_is_error);
}

#[test]
fn no_form_in_normal_mode() {
    assert!(App::new().dialog_lines().is_none());
}

#[test]
fn a_plain_flash_takes_three_lines() {
    let mut app = App::new();
    let frame = Area { width: 100, height: 40 };
    assert!(app.flash_box(frame).is_none());
    app.set_flash("Copied!".to_string());
    let b = app.flash_box(frame).unwrap();
    assert_eq!(b.rect, Rect { x: 44, y: 20, width: 11, height: 3 });
    assert_eq!(b.text, " Copied! ");
    assert_eq!(b.hint, None);
}

#[test]
fn a_flash_with_a_payload_says_how_to_copy_it() {
    let mut app = App::new();
    app.set_flash_persistent("Sent! tx: abc".to_string(), "abc".to_string());
    let b = app.flash_box(Area { width: 100, height: 41 }).unwrap();
    // The hint is 21 bytes long: its middle dot takes two.
    assert_eq!(b.rect, Rect { x: 37, y: 20, width: 25, height: 4 });
    assert_eq!(b.text, " Sent! tx: abc ");
    assert_eq!(b.hint.as_deref(), Some(" [c] Copy · Esc close "));
    let long = "x".repeat(40);
    app.set_flash_persistent(long.clone(), "abc".to_string());
    let b = app.flash_box(Area { width: 30, height: 10 }).unwrap();
    assert_eq!(b.rect, Rect { x: 0, y: 5, width: 44, height: 4 });
    assert_eq!(b.text, format!(" {} ", long));
}

#[test]
fn a_persistent_flash_without_payload_says_how_to_close_it() {
    let mut app = App::new();
    app.set_flash_persistent("note".to_string(), "x".to_string());
    app.flash_message.as_mut().unwrap().copyable = None;
    let b = app.flash_box(Area { width: 80, height: 24 }).unwrap();
    assert_eq!(b.rect, Rect { x: 33, y: 12, width: 13, height: 4 });
    assert_eq!(b.hint.as_deref(), Some(" Esc close "));
}

#[test]
fn flash_width_counts_bytes() {
    let mut app = App::new();
    app.set_flash("Opening block in browser…".to_string());
    let b = app.flash_box(Area { width: 80, height: 24 }).unwrap();
    // 24 ASCII characters and an ellipsis of three bytes.
    assert_eq!(b.rect.width, 31);
    assert_eq!(byte_len("Opening block in browser…"), 27);
    assert_eq!(byte_len(""), 0);
    assert_eq!(byte_len("aé€😀"), 10);
}

#[test]
fn help_line_of_each_screen() {
    let words = |screen: Screen| -> Vec<(String, String)> {
        help_items(screen)
            .iter()
            .map(|i| (i.keys.to_string(), i.label.to_string()))
            .collect()
    };
    let pair = |k: &str, l: &str| (k.to_string(), l.to_string());
    assert_eq!(
        words(Screen::Dashboard),
        vec![
            pair(" [1]", " Dashboard  "),
            pair("[2]", " Grid  "),
            pair("[s/r]", " Send / Receive  "),
            pair("[m]", " Mine  "),
            pair("[+/-]", " Threads  "),
            pair("[q]", " Quit"),
        ]
    );
    assert_eq!(
        words(Screen::Grid),
        vec![
            pair(" [1]", " Dashboard  "),
            pair("[2]", " Grid  "),
            pair("[j/k]", " Nav  "),
            pair("[J/K]", " Jump  "),
            pair("[v]", " View in Browser  "),
            pair("[q]", " Quit"),
        ]
    );
}
