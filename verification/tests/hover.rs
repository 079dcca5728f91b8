use style_cascade::color::Color;
use style_cascade::css::{Class, Classes};
use style_cascade::hover::{a_hover, has_class, main_menu_link_hover, CursorIcon};
use style_cascade::paint::Interaction;

#[test]
fn any_active_link_gives_the_pointing_hand() {
    assert_eq!(a_hover(&vec![Interaction::Idle, Interaction::Hovered]), Some(CursorIcon::Pointer));
    assert_eq!(a_hover(&vec![Interaction::Pressed, Interaction::Idle]), Some(CursorIcon::Pointer));
    assert_eq!(a_hover(&vec![Interaction::Hovered]), Some(CursorIcon::Pointer));
}

#[test]
fn links_at_rest_give_the_arrow() {
    assert_eq!(a_hover(&vec![Interaction::Idle]), Some(CursorIcon::Default));
    assert_eq!(a_hover(&vec![Interaction::Idle, Interaction::Idle]), Some(CursorIcon::Default));
}

#[test]
fn no_change_leaves_the_cursor_alone() {
    assert_eq!(a_hover(&vec![]), None);
}

#[test]
fn only_menu_links_change_their_text_colour() {
    let link = Classes(vec![Class::Button, Class::MainMenuLink]);
    let other = Classes(vec![Class::Button, Class::MainMenuLinkText]);
    let hovered = Color { red: 0xb1, green: 0xd9, blue: 0xff, alpha: 255 };
    let rest = Color { red: 0xec, green: 0xec, blue: 0xec, alpha: 255 };
    assert_eq!(main_menu_link_hover(&link, Interaction::Hovered), Some(hovered));
    assert_eq!(main_menu_link_hover(&link, Interaction::Pressed), Some(hovered));
    assert_eq!(main_menu_link_hover(&link, Interaction::Idle), Some(rest));
    assert_eq!(main_menu_link_hover(&other, Interaction::Hovered), None);
    assert_eq!(main_menu_link_hover(&Classes(vec![]), Interaction::Idle), None);
}

#[test]
fn class_membership() {
    let classes = Classes(vec![Class::Logo, Class::Button]);
    assert!(has_class(&classes, Class::Button));
    assert!(has_class(&classes, Class::Logo));
    assert!(!has_class(&classes, Class::ButtonPink));
    assert!(!has_class(&Classes(vec![]), Class::Logo));
}
