use energyflag::dialog::{
    about_click, about_key_hides, about_shows_hand, dialog_click, dialog_key, dialog_shows_hand,
    hover, tray_opens_menu, AboutClick, DialogAction, DialogButtons, DialogChoice, DialogEvent,
    DialogState,
};
use energyflag::geometry::{
    about_link_rect, button_rect, button_width, centred_origin, close_btn_rect, close_glyph,
    dialog_buttons, dialog_height, in_rect, make_opaque, point_from_lparam, rgb, starts_drag, Rect,
};

fn r(left: i32, top: i32, right: i32, bottom: i32) -> Rect {
    Rect { left, top, right, bottom }
}

#[test]
fn rectangles_exclude_their_right_and_bottom_edges() {
    let a = r(10, 20, 30, 40);
    assert!(in_rect(a, 10, 20));
    assert!(in_rect(a, 29, 39));
    assert!(!in_rect(a, 30, 39));
    assert!(!in_rect(a, 29, 40));
    assert!(!in_rect(a, 9, 25));
    assert!(!in_rect(Rect::zero(), 0, 0));
}

#[test]
fn close_button_and_drag_strip() {
    assert_eq!(close_btn_rect(440), r(394, 0, 440, 36));
    assert!(starts_drag(10, 10, 440));
    assert!(starts_drag(400, 50, 440));
    assert!(!starts_drag(400, 10, 440));
    assert!(!starts_drag(10, 92, 440));
    assert_eq!(close_glyph(r(394, 0, 440, 36)), ((412, 13, 423, 24), (422, 13, 411, 24)));
}

#[test]
fn windows_are_centred_on_the_work_area_or_the_screen() {
    assert_eq!(centred_origin(r(0, 0, 1920, 1040), 1920, 1080, 440, 260), (740, 390));
    assert_eq!(centred_origin(r(-1920, 0, 0, 1040), 0, 0, 430, 248), (-1175, 396));
    assert_eq!(centred_origin(r(0, 0, 0, 0), 1280, 720, 440, 260), (420, 230));
    assert_eq!(centred_origin(r(5, 5, 5, 5), -3, 7, 3, 3), (-2, 2));
}

#[test]
fn dialog_layout() {
    assert_eq!(button_width(20), 116);
    assert_eq!(button_width(80), 116);
    assert_eq!(button_width(81), 117);
    assert_eq!(button_width(150), 186);
    assert_eq!(dialog_height(40), 248);
    assert_eq!(dialog_height(70), 248);
    assert_eq!(dialog_height(71), 249);
    assert_eq!(dialog_height(200), 378);
    assert_eq!(button_rect(5, 6, 100), r(5, 6, 105, 40));
    let client = r(0, 0, 430, 248);
    let (p, s) = dialog_buttons(client, 140, Some(116));
    assert_eq!(p, r(262, 194, 402, 228));
    assert_eq!(s, r(134, 194, 250, 228));
    let (p, s) = dialog_buttons(client, 116, None);
    assert_eq!(p, r(286, 194, 402, 228));
    assert_eq!(s, Rect::zero());
    assert_eq!(about_link_rect(260, 250, 22), r(28, 220, 278, 242));
}

#[test]
fn colours_and_pixels() {
    assert_eq!(rgb(37, 99, 235), 0x00EB6325);
    assert_eq!(rgb(255, 255, 255), 0x00FFFFFF);
    assert_eq!(rgb(0, 0, 0), 0);
    let mut bits: Vec<u8> = (0..10u8).collect();
    make_opaque(&mut bits);
    assert_eq!(bits, vec![0, 1, 2, 255, 4, 5, 6, 255, 8, 9]);
    let mut icon = vec![7u8; 32 * 32 * 4];
    make_opaque(&mut icon);
    assert!(icon.chunks(4).all(|p| p == [7, 7, 7, 255]));
}

#[test]
fn mouse_position_from_lparam() {
    assert_eq!(point_from_lparam(0x0010_0020), (32, 16));
    assert_eq!(point_from_lparam(0xFFFF_FFFE_u32 as isize), (-2, -1));
    assert_eq!(point_from_lparam(-1), (-1, -1));
    assert_eq!(point_from_lparam(0x7FFF_8000), (-32768, 32767));
}

#[test]
fn tray_notifications() {
    assert!(tray_opens_menu(0x0202));
    assert!(tray_opens_menu(0x0205));
    assert!(tray_opens_menu(0x007B));
    assert!(tray_opens_menu(0x0003_0202));
    assert!(!tray_opens_menu(0x0200));
    assert!(!tray_opens_menu(0x0201));
    assert!(!tray_opens_menu(0));
}

#[test]
fn about_window_clicks_and_keys() {
    let close = r(394, 0, 440, 36);
    let link = r(28, 220, 278, 242);
    assert_eq!(about_click(close, link, 400, 10), AboutClick::Hide);
    assert_eq!(about_click(close, link, 30, 230), AboutClick::OpenLink);
    assert_eq!(about_click(close, link, 300, 230), AboutClick::Ignore);
    assert!(about_shows_hand(close, link, 30, 230));
    assert!(about_shows_hand(close, link, 439, 35));
    assert!(!about_shows_hand(close, link, 200, 100));
    assert!(about_key_hides(0x1B));
    assert!(about_key_hides(0x1_001B));
    assert!(!about_key_hides(0x0D));
    assert_eq!(hover(close, false, 400, 10), (true, true));
    assert_eq!(hover(close, true, 400, 10), (true, false));
    assert_eq!(hover(close, true, 10, 10), (false, true));
}

fn two_buttons() -> DialogButtons {
    DialogButtons {
        close: r(384, 0, 430, 36),
        primary: r(262, 194, 402, 228),
        secondary: r(134, 194, 250, 228),
        has_secondary: true,
    }
}

#[test]
fn dialog_clicks() {
    let b = two_buttons();
    assert_eq!(dialog_click(b, 300, 200), Some(DialogChoice::Primary));
    assert_eq!(dialog_click(b, 150, 200), Some(DialogChoice::Dismissed));
    assert_eq!(dialog_click(b, 400, 10), Some(DialogChoice::Dismissed));
    assert_eq!(dialog_click(b, 10, 10), None);
    let single = DialogButtons { has_secondary: false, ..b };
    assert_eq!(dialog_click(single, 150, 200), None);
    assert!(!dialog_shows_hand(single, 150, 200));
    assert!(dialog_shows_hand(b, 150, 200));
    assert_eq!(dialog_key(0x0D), Some(DialogChoice::Primary));
    assert_eq!(dialog_key(0x1B), Some(DialogChoice::Dismissed));
    assert_eq!(dialog_key(0x41), None);
}

#[test]
fn overlapping_close_button_wins() {
    let b = DialogButtons { close: r(0, 0, 100, 100), primary: r(50, 50, 150, 150), secondary: Rect::zero(), has_secondary: false };
    assert_eq!(dialog_click(b, 60, 60), Some(DialogChoice::Dismissed));
    assert_eq!(dialog_click(b, 120, 120), Some(DialogChoice::Primary));
}

#[test]
fn dialog_runs_until_a_choice() {
    let mut d = DialogState::new(two_buttons());
    assert!(!d.finished());
    assert_eq!(d.on_event(DialogEvent::MouseMove { x: 400, y: 10 }), DialogAction::RepaintClose);
    assert!(d.close_hot);
    assert_eq!(d.on_event(DialogEvent::MouseMove { x: 401, y: 11 }), DialogAction::Nothing);
    assert_eq!(d.on_event(DialogEvent::ButtonUp { x: 10, y: 10 }), DialogAction::Nothing);
    assert_eq!(d.on_event(DialogEvent::KeyDown { wparam: 0x41 }), DialogAction::Nothing);
    assert!(!d.finished());
    assert_eq!(d.on_event(DialogEvent::KeyDown { wparam: 0x0D }), DialogAction::Destroy);
    assert!(d.finished());
    assert!(d.accepted());
    // Closing after a choice keeps it.
    assert_eq!(d.on_event(DialogEvent::Close), DialogAction::Destroy);
    assert!(d.accepted());

    let mut d = DialogState::new(two_buttons());
    assert_eq!(d.on_event(DialogEvent::Close), DialogAction::Destroy);
    assert!(d.finished());
    assert!(!d.accepted());

    let mut d = DialogState::new(two_buttons());
    assert_eq!(d.on_event(DialogEvent::ButtonUp { x: 150, y: 200 }), DialogAction::Destroy);
    assert!(!d.accepted());
    let mut d = DialogState::new(two_buttons());
    assert_eq!(d.on_event(DialogEvent::ButtonUp { x: 300, y: 200 }), DialogAction::Destroy);
    assert!(d.accepted());
}
