use style_cascade::bundle::{ButtonBundle, NodeBundle, TextBundle};
use style_cascade::color::Color;
use style_cascade::css::{
    apply_patch_text, apply_patch_text_layout_info, apply_patch_ui_image, overlay_buttons,
    overlay_nodes, overlay_text, scale, when_debugging, Class, Classes, CSS, DEBUG,
};
use style_cascade::layout::{AlignItems, JustifyContent, PositionType, Style};
use style_cascade::paint::{
    BackgroundColor, BorderColor, BreakLineOn, FocusPolicy, Handle, JustifyText, PositionedGlyph,
    Text, TextLayoutInfo, TextSection, TextStyle, Transform, UiImage, ZIndex,
};
use style_cascade::units::{UiRect, Val, Vec2, Vec3};

fn px(v: i32) -> Val {
    Val::Px(v)
}

#[test]
fn empty_class_list_resolves_to_defaults() {
    let css = CSS::default();
    let none = Classes(vec![]);
    assert_eq!(none.as_style(&css), Style::default());
    assert_eq!(none.as_node(&css), NodeBundle::default());
    assert_eq!(none.as_button(&css), ButtonBundle::default());
    assert_eq!(none.fold_text(&css), TextBundle::default());
    assert_eq!(none.as_text(&css, "Features"), None);
}

#[test]
fn later_class_wins_where_both_set_a_field() {
    let css = CSS::default();
    // both classes set the padding and the height
    let header_then_link = Classes(vec![Class::LayoutHeader, Class::MainMenuLink]).as_style(&css);
    let link_then_header = Classes(vec![Class::MainMenuLink, Class::LayoutHeader]).as_style(&css);
    assert_eq!(header_then_link.padding, UiRect::new(px(7_000), px(7_000), px(0), px(0)));
    assert_eq!(link_then_header.padding, UiRect::right(px(8_000)));
    assert_ne!(header_then_link, link_then_header);
}

#[test]
fn order_decides_the_margin_of_two_classes() {
    let css = CSS::default();
    let a = Classes(vec![Class::HeaderMessage, Class::ButtonPink]).as_style(&css);
    let b = Classes(vec![Class::ButtonPink, Class::HeaderMessage]).as_style(&css);
    assert_eq!(a.margin, UiRect::right(px(8_000)));
    assert_eq!(b.margin, UiRect::left(px(12_000)));
}

#[test]
fn unset_fields_fall_through_to_the_earlier_class() {
    let css = CSS::default();
    // the header sets position, top, width, border; the logo link sets the alignment only
    let style = Classes(vec![Class::LayoutHeader, Class::HeaderLogo]).as_style(&css);
    assert_eq!(style.position_type, PositionType::Absolute);
    assert_eq!(style.top, px(0));
    assert_eq!(style.width, Val::Percent(100_000));
    assert_eq!(style.height, px(60_000));
    assert_eq!(style.border, UiRect::bottom(px(2_000)));
    assert_eq!(style.align_items, AlignItems::Center);
}

#[test]
fn resolving_twice_gives_the_same_records() {
    let css = CSS::default();
    let classes = Classes(vec![Class::Button, Class::ButtonPink, Class::HeaderCtaGitHub]);
    assert_eq!(classes.as_style(&css), classes.as_style(&css));
    assert_eq!(classes.as_node(&css), classes.as_node(&css));
    assert_eq!(classes.as_button(&css), classes.as_button(&css));
    assert_eq!(classes.fold_text(&css), classes.fold_text(&css));
}

#[test]
fn a_patch_at_the_default_cannot_reset_a_field() {
    // a rule that means "no margin" holds the default margin, and is taken for unset
    let with_margin = Style { margin: UiRect::left(px(12_000)), ..Style::default() };
    let no_margin = Style { margin: UiRect::all(px(0)), ..Style::default() };
    let merged = Classes::overlay(&no_margin, &with_margin);
    assert_eq!(merged.margin, UiRect::left(px(12_000)));

    // the same for a length: "auto" after "0px" stays "0px"
    let pinned = Style { top: px(0), ..Style::default() };
    let auto = Style { top: Val::Auto, ..Style::default() };
    assert_eq!(Classes::overlay(&auto, &pinned).top, px(0));

    // and through the class table: no class after the header can take its border away
    let css = CSS::default();
    let style = Classes(vec![Class::LayoutHeader, Class::MainMenuEntry]).as_style(&css);
    assert_eq!(style.border, UiRect::bottom(px(2_000)));
}

#[test]
fn button_and_pink_button_together() {
    let css = CSS::default();
    let classes = Classes(vec![Class::Button, Class::ButtonPink]);
    let button = classes.as_button(&css);
    assert_eq!(button.style.border, UiRect::all(px(3_000)));
    assert_eq!(button.style.padding, UiRect::px(8_000, 8_000, 6_000, 6_000));
    assert_eq!(button.style.align_items, AlignItems::Center);
    assert_eq!(button.style.margin, UiRect::right(px(8_000)));
    assert_eq!(button.image.color, Color { red: 0x9f, green: 0x51, blue: 0x7a, alpha: 255 });
    assert_eq!(
        button.border_color,
        BorderColor(Color { red: 0xba, green: 0x78, blue: 0x9b, alpha: 255 })
    );
    assert_eq!(button.focus_policy, FocusPolicy::Block);
}

#[test]
fn a_plain_button_after_the_pink_one_clears_the_fill() {
    let css = CSS::default();
    let button = Classes(vec![Class::ButtonPink, Class::Button]).as_button(&css);
    assert_eq!(button.image.color, Color { red: 0, green: 0, blue: 0, alpha: 0 });
    assert_eq!(button.border_color, BorderColor(Color { red: 0, green: 0, blue: 0, alpha: 0 }));
}

#[test]
fn header_colours_are_read_from_their_hexadecimal_notation() {
    let css = CSS::default();
    let node = css.node_style(&Class::LayoutHeader);
    assert_eq!(
        node.background_color,
        BackgroundColor(Color { red: 0x1e, green: 0x1e, blue: 0x22, alpha: 255 })
    );
    assert_eq!(
        node.border_color,
        BorderColor(Color { red: 0x2c, green: 0x2c, blue: 0x2d, alpha: 255 })
    );
}

#[test]
fn hexadecimal_notation_in_its_four_lengths() {
    assert_eq!(Color::parse_hex("#9f517a"), Some(Color { red: 0x9f, green: 0x51, blue: 0x7a, alpha: 255 }));
    assert_eq!(Color::parse_hex("9f517a"), Some(Color { red: 0x9f, green: 0x51, blue: 0x7a, alpha: 255 }));
    assert_eq!(Color::parse_hex("#FFFFFF"), Some(Color { red: 255, green: 255, blue: 255, alpha: 255 }));
    assert_eq!(Color::parse_hex("#00aBcD"), Some(Color { red: 0, green: 0xab, blue: 0xcd, alpha: 255 }));
    assert_eq!(Color::parse_hex("#FF00FF7F"), Some(Color { red: 255, green: 0, blue: 255, alpha: 0x7f }));
    assert_eq!(Color::parse_hex("01020304"), Some(Color { red: 1, green: 2, blue: 3, alpha: 4 }));
    assert_eq!(Color::parse_hex("#a1c"), Some(Color { red: 0xaa, green: 0x11, blue: 0xcc, alpha: 255 }));
    assert_eq!(Color::parse_hex("F08"), Some(Color { red: 0xff, green: 0, blue: 0x88, alpha: 255 }));
    assert_eq!(Color::parse_hex("#a1c9"), Some(Color { red: 0xaa, green: 0x11, blue: 0xcc, alpha: 0x99 }));
    assert_eq!(Color::parse_hex("0000"), Some(Color { red: 0, green: 0, blue: 0, alpha: 0 }));
}

#[test]
fn texts_that_are_no_colour_give_nothing() {
    assert_eq!(Color::parse_hex(""), None);
    assert_eq!(Color::parse_hex("#"), None);
    assert_eq!(Color::parse_hex("12"), None);
    assert_eq!(Color::parse_hex("#12345"), None);
    assert_eq!(Color::parse_hex("#1234567"), None);
    assert_eq!(Color::parse_hex("ghijkl"), None);
    assert_eq!(Color::parse_hex("#1e1e2g"), None);
    assert_eq!(Color::parse_hex("##1e1e22"), None);
    assert_eq!(Color::parse_hex("pink"), None);
}

#[test]
fn a_plus_before_the_digits_reads_as_a_zero() {
    assert_eq!(Color::parse_hex("+12"), Some(Color { red: 0, green: 0x11, blue: 0x22, alpha: 255 }));
    assert_eq!(Color::parse_hex("#+ff"), Some(Color { red: 0, green: 255, blue: 255, alpha: 255 }));
    assert_eq!(Color::parse_hex("+123"), Some(Color { red: 0, green: 0x11, blue: 0x22, alpha: 0x33 }));
    assert_eq!(
        Color::parse_hex("+12345"),
        Some(Color { red: 0x01, green: 0x23, blue: 0x45, alpha: 255 })
    );
    assert_eq!(
        Color::parse_hex("#+1234567"),
        Some(Color { red: 0x01, green: 0x23, blue: 0x45, alpha: 0x67 })
    );
    assert_eq!(Color::parse_hex("-12"), None);
    assert_eq!(Color::parse_hex("++1"), None);
    assert_eq!(Color::parse_hex("1+2"), None);
    assert_eq!(Color::parse_hex("+#12"), None);
}

fn digit(c: char) -> Option<u8> {
    match c {
        '0'..='9' => Some(c as u8 - b'0'),
        'a'..='f' => Some(c as u8 - b'a' + 10),
        'A'..='F' => Some(c as u8 - b'A' + 10),
        _ => None,
    }
}

// what the notation says of a text, written out once more, to hold the parser to it
fn by_the_notation(text: &str) -> Option<Color> {
    let mut chars: Vec<char> = text.chars().collect();
    if chars.first() == Some(&'#') {
        chars.remove(0);
    }
    if chars.first() == Some(&'+') {
        chars[0] = '0';
    }
    let mut d = Vec::new();
    for c in &chars {
        d.push(digit(*c)?);
    }
    match d.len() {
        3 => Some(Color { red: d[0] * 17, green: d[1] * 17, blue: d[2] * 17, alpha: 255 }),
        4 => Some(Color { red: d[0] * 17, green: d[1] * 17, blue: d[2] * 17, alpha: d[3] * 17 }),
        6 => Some(Color {
            red: d[0] * 16 + d[1],
            green: d[2] * 16 + d[3],
            blue: d[4] * 16 + d[5],
            alpha: 255,
        }),
        8 => Some(Color {
            red: d[0] * 16 + d[1],
            green: d[2] * 16 + d[3],
            blue: d[4] * 16 + d[5],
            alpha: d[6] * 16 + d[7],
        }),
        _ => None,
    }
}

#[test]
fn every_short_text_is_read_as_the_notation_says() {
    let alphabet = ['#', '+', '-', '0', '9', 'a', 'F', 'g', ' ', '_', 'é'];
    let mut texts = vec![String::new()];
    let mut last = vec![String::new()];
    for _ in 0..5 {
        let mut next = Vec::new();
        for text in &last {
            for c in alphabet {
                next.push(format!("{text}{c}"));
            }
        }
        texts.extend(next.iter().cloned());
        last = next;
    }
    assert_eq!(texts.len(), 1 + 11 + 121 + 1331 + 14641 + 161051);
    for text in &texts {
        assert_eq!(Color::parse_hex(text), by_the_notation(text), "{text:?}");
    }
}

#[test]
fn long_texts_are_read_as_the_notation_says() {
    let heads = ["", "#", "+", "#+", "##", "-", "#-"];
    let tails = ["1e1e22", "1E1e2", "1e1e22f", "1e1e22ff", "1e1e22f", "1e1e2g", "1e1e22fff", "é1e1e2"];
    for head in heads {
        for tail in tails {
            let text = format!("{head}{tail}");
            assert_eq!(Color::parse_hex(&text), by_the_notation(&text), "{text:?}");
        }
    }
}

#[test]
fn a_parse_that_was_refused_comes_to_nothing() {
    let blue = Color { red: 0, green: 0, blue: 255, alpha: 255 };
    assert_eq!(Color::from_parsed(Ok(blue)), Some(blue));
    assert_eq!(Color::from_parsed(Err(bevy::color::HexColorError::Length)), None);
    assert_eq!(Color::from_parsed(Err(bevy::color::HexColorError::Char('g'))), None);
}

#[test]
fn every_byte_survives_the_notation() {
    let digits = ['0', '1', '2', '3', '4', '5', '6', '7', '8', '9', 'a', 'b', 'c', 'd', 'e', 'f'];
    for high in 0..16u8 {
        for low in 0..16u8 {
            let byte = high * 16 + low;
            let pair = format!("{}{}", digits[high as usize], digits[low as usize]);
            let text = format!("#{pair}00{pair}{pair}");
            assert_eq!(
                Color::parse_hex(&text),
                Some(Color { red: byte, green: 0, blue: byte, alpha: byte })
            );
        }
    }
}

#[test]
fn node_fragments_of_other_classes_set_nothing() {
    let css = CSS::default();
    assert_eq!(css.node_style(&Class::Logo), NodeBundle::default());
    // outlines for debugging are off: the entry's border colour is the unset one
    let white = Color { red: 255, green: 255, blue: 255, alpha: 255 };
    assert_eq!(css.node_style(&Class::MainMenuEntry).border_color, BorderColor(white));
    assert_eq!(css.style(&Class::MainMenuEntry), Style::default());
}

#[test]
fn resolved_header_box() {
    let css = CSS::default();
    let node = Classes(vec![Class::LayoutHeader]).as_node(&css);
    assert_eq!(node.style, css.style(&Class::LayoutHeader));
    assert_eq!(
        node.background_color,
        BackgroundColor(Color { red: 0x1e, green: 0x1e, blue: 0x22, alpha: 255 })
    );
    assert_eq!(node.style.padding, UiRect::right(px(8_000)));
}

#[test]
fn style_table_values() {
    let css = CSS::default();
    let content = css.style(&Class::HeaderContent);
    assert_eq!(content.width, Val::Percent(100_000));
    assert_eq!(content.max_width, px(1_200_000));
    assert_eq!(content.justify_content, JustifyContent::SpaceBetween);
    assert_eq!(content.margin, UiRect::new(Val::Auto, Val::Auto, px(0), px(0)));
    let icon = css.style(&Class::ButtonIcon);
    assert_eq!(icon.height, px(18_700));
    assert_eq!(icon.margin, UiRect::left(px(3_900)));
    assert_eq!(css.style(&Class::Logo).height, px(28_000));
    assert_eq!(css.style(&Class::HeaderCtaGitHubImg).height, px(35_000));
    assert_eq!(css.style(&Class::ButtonText), Style::default());
}

#[test]
fn scaling_is_exact_on_thousandths_and_saturates() {
    assert_eq!(scale(200, 19_500), 3_900);
    assert_eq!(scale(1_300, 19_500), 25_350);
    assert_eq!(scale(1_280, 19_500), 24_960);
    assert_eq!(scale(875, 1_280), 1_120);
    assert_eq!(scale(900, 19_500), 17_550);
    assert_eq!(scale(1_200, 19_500), 23_400);
    assert_eq!(scale(1_500, -3), -4);
    assert_eq!(scale(-1_500, 3), -4);
    assert_eq!(scale(-1_500, -3), 4);
    assert_eq!(scale(1_500, 3), 4);
    assert_eq!(scale(999, 1), 0);
    assert_eq!(scale(-999, 1), 0);
    assert_eq!(scale(0, 19_500), 0);
    assert_eq!(scale(2_000, i32::MAX), i32::MAX);
    assert_eq!(scale(2_000, i32::MIN), i32::MIN);
}

#[test]
fn text_fragments() {
    let css = CSS { fira_sans: Handle { id: 7 }, ..CSS::default() };
    let link = css.text_style(&Class::MainMenuLinkText);
    let expected = TextStyle {
        font: Handle { id: 7 },
        font_size: 25_350,
        color: Color { red: 0xec, green: 0xec, blue: 0xec, alpha: 255 },
    };
    assert_eq!(link.text, Text::from_section("", expected));
    assert_eq!(link.transform, Transform::from_scale(Vec3::new(970, 1_000, 1_000)));
    let icon = css.text_style(&Class::ButtonIcon);
    assert_eq!(icon.text.sections[0].style.font_size, 17_550);
    assert_eq!(icon.text.sections[0].style.font, Handle { id: 0 });
    let label = css.text_style(&Class::ButtonText);
    assert_eq!(label.text.sections[0].style.font_size, 23_400);
    assert_eq!(label.text.sections[0].style.font, Handle { id: 7 });
    assert_eq!(css.text_style(&Class::Logo), TextBundle::default());
}

#[test]
fn resolved_text_has_one_run_in_the_first_merged_style() {
    let css = CSS::default();
    let classes = Classes(vec![Class::HeaderMessage]);
    let text = classes.as_text(&css, "Features").unwrap();
    assert_eq!(text.text.sections.len(), 1);
    assert_eq!(text.text.sections[0].value, "Features");
    assert_eq!(
        text.text.sections[0].style,
        TextStyle {
            font: Handle { id: 0 },
            font_size: 25_350,
            color: Color { red: 0x86, green: 0x86, blue: 0x86, alpha: 255 },
        }
    );
    assert_eq!(text.style.margin, UiRect::left(px(12_000)));
    assert_eq!(text.transform, Transform::from_scale(Vec3::new(970, 1_000, 1_000)));
    // a class list that gives the text no run resolves to nothing
    assert_eq!(Classes(vec![Class::Logo, Class::Button]).as_text(&css, "Features"), None);
}

#[test]
fn runs_are_replaced_whole() {
    let small = TextStyle { font_size: 10_000, ..TextStyle::default() };
    let large = TextStyle { font_size: 30_000, ..TextStyle::default() };
    let two_runs = TextBundle {
        text: Text {
            sections: vec![TextSection::new("one", small), TextSection::new("two", small)],
            ..Text::default()
        },
        ..TextBundle::default()
    };
    let one_run = TextBundle { text: Text::from_section("three", large), ..TextBundle::default() };
    let merged = overlay_text(&one_run, &two_runs);
    assert_eq!(merged.text.sections, vec![TextSection::new("three", large)]);
    let kept = overlay_text(&TextBundle::default(), &two_runs);
    assert_eq!(kept.text, two_runs.text);
}

#[test]
fn a_patch_without_runs_keeps_the_runs_and_sets_the_rest() {
    let small = TextStyle { font_size: 10_000, ..TextStyle::default() };
    let onto = TextBundle {
        text: Text {
            sections: vec![TextSection::new("one", small), TextSection::new("two", small)],
            justify: JustifyText::Center,
            linebreak_behavior: BreakLineOn::NoWrap,
        },
        text_layout_info: TextLayoutInfo {
            glyphs: vec![],
            logical_size: Vec2 { x: 3_000, y: 4_000 },
        },
        ..TextBundle::default()
    };
    let patch = TextBundle {
        text: Text { justify: JustifyText::Right, ..Text::default() },
        ..TextBundle::default()
    };
    let merged = overlay_text(&patch, &onto);
    assert_eq!(
        merged.text.sections,
        vec![TextSection::new("one", small), TextSection::new("two", small)]
    );
    assert_eq!(merged.text.justify, JustifyText::Right);
    assert_eq!(merged.text.linebreak_behavior, BreakLineOn::NoWrap);
    assert_eq!(merged.text_layout_info.logical_size, Vec2 { x: 3_000, y: 4_000 });
    // the same of the text by itself, and of the computed layout by itself
    assert_eq!(apply_patch_text(patch.text.clone(), onto.text.clone()), merged.text);
    let glyph = PositionedGlyph {
        position: Vec2 { x: 1, y: 2 },
        size: Vec2 { x: 3, y: 4 },
        section_index: 0,
        byte_index: 5,
    };
    let measured = TextLayoutInfo { glyphs: vec![glyph], logical_size: Vec2 { x: 0, y: 0 } };
    assert_eq!(
        apply_patch_text_layout_info(measured, onto.text_layout_info.clone()),
        TextLayoutInfo { glyphs: vec![glyph], logical_size: Vec2 { x: 3_000, y: 4_000 } }
    );
}

#[test]
fn the_layout_record_inside_a_bundle_is_merged_field_by_field() {
    let onto = NodeBundle {
        style: Style { width: Val::Percent(100_000), top: px(1_000), ..Style::default() },
        ..NodeBundle::default()
    };
    let patch = NodeBundle {
        style: Style { height: px(28_000), top: px(5_000), ..Style::default() },
        ..NodeBundle::default()
    };
    let expected = Style {
        width: Val::Percent(100_000),
        height: px(28_000),
        top: px(5_000),
        ..Style::default()
    };
    assert_eq!(overlay_nodes(&patch, &onto).style, expected);
    assert_eq!(overlay_nodes(&NodeBundle::default(), &onto).style, onto.style);

    let button = ButtonBundle { style: onto.style.clone(), ..ButtonBundle::default() };
    let button_patch = ButtonBundle { style: patch.style.clone(), ..ButtonBundle::default() };
    assert_eq!(overlay_buttons(&button_patch, &button).style, expected);

    let text = TextBundle { style: onto.style.clone(), ..TextBundle::default() };
    let text_patch = TextBundle { style: patch.style.clone(), ..TextBundle::default() };
    assert_eq!(overlay_text(&text_patch, &text).style, expected);
}

#[test]
fn stacking_order_zero_is_the_unset_one() {
    let onto = NodeBundle { z_index: ZIndex::Global(3), ..NodeBundle::default() };
    let zero = NodeBundle { z_index: ZIndex::Local(0), ..NodeBundle::default() };
    let global_zero = NodeBundle { z_index: ZIndex::Global(0), ..NodeBundle::default() };
    assert_eq!(overlay_nodes(&zero, &onto).z_index, ZIndex::Global(3));
    assert_eq!(overlay_nodes(&global_zero, &onto).z_index, ZIndex::Global(0));
}

#[test]
fn white_is_the_unset_colour_of_a_box() {
    let blue = Color { red: 0, green: 0, blue: 255, alpha: 255 };
    let white = Color { red: 255, green: 255, blue: 255, alpha: 255 };
    let clear = Color { red: 0, green: 0, blue: 0, alpha: 0 };
    let onto = NodeBundle { background_color: BackgroundColor(blue), ..NodeBundle::default() };
    let patch = NodeBundle { background_color: BackgroundColor(white), ..NodeBundle::default() };
    assert_eq!(overlay_nodes(&patch, &onto).background_color, BackgroundColor(blue));
    // a box in which nothing else is set is transparent, and that counts as set
    assert_eq!(
        overlay_nodes(&NodeBundle::default(), &onto).background_color,
        BackgroundColor(clear)
    );
}

#[test]
fn tint_and_texture_of_an_image_are_merged_apart() {
    let tint = Color { red: 1, green: 2, blue: 3, alpha: 255 };
    let textured = UiImage { texture: Handle { id: 9 }, flip_x: true, ..UiImage::default() };
    let tinted = UiImage { color: tint, ..UiImage::default() };
    // a patch that sets only the tint does not erase the texture
    assert_eq!(
        apply_patch_ui_image(tinted, textured),
        UiImage { color: tint, texture: Handle { id: 9 }, flip_x: true, flip_y: false }
    );
    // nor does a patch that sets only the texture erase the tint
    assert_eq!(
        apply_patch_ui_image(textured, tinted),
        UiImage { color: tint, texture: Handle { id: 9 }, flip_x: true, flip_y: false }
    );
    assert_eq!(apply_patch_ui_image(UiImage::default(), tinted), tinted);
    let onto = ButtonBundle { image: textured, ..ButtonBundle::default() };
    let patch = ButtonBundle { image: tinted, ..ButtonBundle::default() };
    assert_eq!(overlay_buttons(&patch, &onto).image, apply_patch_ui_image(tinted, textured));
    assert_eq!(overlay_buttons(&ButtonBundle::default(), &onto).image, textured);
}

#[test]
fn the_shrink_factor_of_a_fragment_always_counts_as_set() {
    // a record in which nothing is set shrinks by one, and one is not the default of a number
    let onto = Style { flex_shrink: 2_000, row_gap: px(4_000), ..Style::default() };
    let merged = Classes::overlay(&Style::default(), &onto);
    assert_eq!(merged.flex_shrink, 1_000);
    assert_eq!(merged.row_gap, px(0));
    let zero = Style { flex_shrink: 0, row_gap: Val::Auto, ..Style::default() };
    let kept = Classes::overlay(&zero, &onto);
    assert_eq!(kept.flex_shrink, 2_000);
    assert_eq!(kept.row_gap, px(4_000));
}

#[test]
fn outlines_for_debugging_are_off() {
    assert!(!DEBUG);
    assert_eq!(when_debugging(UiRect::all(px(1_000))), UiRect::default());
    let red = Color { red: 255, green: 0, blue: 0, alpha: 255 };
    assert_eq!(when_debugging(BorderColor(red)), BorderColor::default());
}

#[test]
fn the_fragments_of_a_text_carry_no_characters() {
    let css = CSS::default();
    assert_eq!(css.text_style(&Class::ButtonText).text.sections[0].value, "");
    assert_eq!(css.text_style(&Class::HeaderMessage).text.sections.len(), 1);
}

#[test]
fn a_later_box_fragment_that_sets_no_colour_still_clears_the_fill() {
    // the fragment of a class without colours is the default box, which is transparent,
    // and transparent is not the colour that stands for "not set"
    let css = CSS::default();
    let clear = Color { red: 0, green: 0, blue: 0, alpha: 0 };
    let node = Classes(vec![Class::LayoutHeader, Class::HeaderContent]).as_node(&css);
    assert_eq!(node.background_color, BackgroundColor(clear));
    assert_eq!(node.border_color, BorderColor(clear));
    // the layout record of the same list does fall through
    assert_eq!(node.style.border, UiRect::bottom(px(2_000)));
    assert_eq!(node.style.max_width, px(1_200_000));
}
