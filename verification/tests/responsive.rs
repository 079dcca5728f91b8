use style_cascade::css::{Class, Classes, CSS};
use style_cascade::paint::Handle;
use style_cascade::responsive::{recalculate, Refresh};
use style_cascade::units::{UiRect, Val};

fn at(width: i32) -> CSS {
    let mut css = CSS::default();
    let next = recalculate(&mut css, Refresh::Idle.observe(1), width);
    assert_eq!(next, Refresh::Idle);
    css
}

#[test]
fn breakpoint_is_inclusive_on_the_wide_side() {
    assert_eq!(at(991_000).logo_height, Val::Px(28_000));
    assert_eq!(at(991_999).logo_height, Val::Px(28_000));
    assert_eq!(at(992_000).logo_height, Val::Px(40_000));
    assert_eq!(at(991_000).header_height, Val::Px(60_000));
    assert_eq!(at(992_000).header_height, Val::Px(72_000));
    assert_eq!(at(991_999).header_padding, UiRect::right(Val::Px(8_000)));
    assert_eq!(at(992_000).header_padding, UiRect::px(16_000, 16_000, 0, 0));
    assert_eq!(at(767_999).github_img_height, Val::Px(30_000));
    assert_eq!(at(768_000).github_img_height, Val::Px(35_000));
}

#[test]
fn message_font_size_has_three_breakpoints() {
    assert_eq!(at(1_200_000).header_message_font_size, 25_350);
    assert_eq!(at(1_199_999).header_message_font_size, 24_960);
    assert_eq!(at(768_000).header_message_font_size, 24_960);
    assert_eq!(at(767_999).header_message_font_size, 21_840);
    assert_eq!(at(550_000).header_message_font_size, 21_840);
    assert_eq!(at(549_999).header_message_font_size, 0);
    assert_eq!(at(0).header_message_font_size, 0);
    assert_eq!(at(-5).header_message_font_size, 0);
}

#[test]
fn nothing_changes_without_a_pending_resize() {
    let mut css = CSS { logo_height: Val::Px(1), rem: 7, ..CSS::default() };
    let before = css;
    let next = recalculate(&mut css, Refresh::Idle.observe(0), 1_500_000);
    assert_eq!(next, Refresh::Idle);
    assert_eq!(css, before);
}

#[test]
fn a_resize_sets_every_variable_but_the_font() {
    let mut css = CSS {
        rem: 7,
        header_message_font_size: 1,
        logo_height: Val::Auto,
        header_height: Val::Auto,
        header_padding: UiRect::all(Val::Auto),
        fira_sans: Handle { id: 42 },
        github_img_height: Val::Auto,
    };
    recalculate(&mut css, Refresh::Recomputing, 1_000_000);
    assert_eq!(
        css,
        CSS {
            rem: 19_500,
            header_message_font_size: 24_960,
            logo_height: Val::Px(40_000),
            header_height: Val::Px(72_000),
            header_padding: UiRect::px(16_000, 16_000, 0, 0),
            fira_sans: Handle { id: 42 },
            github_img_height: Val::Px(35_000),
        }
    );
}

#[test]
fn initial_variables() {
    let css = CSS::default();
    assert_eq!(css.rem, 19_500);
    assert_eq!(css.header_message_font_size, 25_350);
    assert_eq!(css.logo_height, Val::Px(28_000));
    assert_eq!(css.header_height, Val::Px(60_000));
    assert_eq!(css.header_padding, UiRect::right(Val::Px(8_000)));
    assert_eq!(css.fira_sans, Handle { id: 0 });
    assert_eq!(css.github_img_height, Val::Px(35_000));
}

#[test]
fn fragments_follow_the_width() {
    let narrow = at(500_000);
    let wide = at(1_300_000);
    assert_eq!(narrow.style(&Class::LayoutHeader).height, Val::Px(60_000));
    assert_eq!(wide.style(&Class::LayoutHeader).height, Val::Px(72_000));
    assert_eq!(wide.style(&Class::LayoutHeader).padding, UiRect::px(16_000, 16_000, 0, 0));
    assert_eq!(Classes(vec![Class::Logo]).as_style(&wide).height, Val::Px(40_000));
    assert_eq!(narrow.text_style(&Class::HeaderMessage).text.sections[0].style.font_size, 0);
}

#[test]
fn a_batch_that_is_not_empty_leaves_a_resize_to_serve() {
    assert_eq!(Refresh::Idle.observe(0), Refresh::Idle);
    assert_eq!(Refresh::Idle.observe(1), Refresh::Recomputing);
    assert_eq!(Refresh::Idle.observe(7), Refresh::Recomputing);
    assert_eq!(Refresh::Recomputing.observe(0), Refresh::Recomputing);
    assert_eq!(Refresh::Recomputing.observe(2), Refresh::Recomputing);
}

#[test]
fn every_resize_is_served_at_once_and_without_memory() {
    let mut css = CSS::default();
    let mut state = Refresh::Idle;
    for (width, logo) in [(1_000_000, 40_000), (900_000, 28_000), (992_000, 40_000), (991_999, 28_000)] {
        state = recalculate(&mut css, state.observe(1), width);
        assert_eq!(state, Refresh::Idle);
        assert_eq!(css.logo_height, Val::Px(logo));
    }
}
