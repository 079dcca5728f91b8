use style_cascade::bundle::{ButtonBundle, NodeBundle, TextBundle};
use style_cascade::color::Color;
use style_cascade::css::{Class, Classes, CSS};
use style_cascade::layout::{Display, Style};
use style_cascade::paint::{
    BackgroundColor, BorderColor, BreakLineOn, Handle, JustifyText, Node, PositionedGlyph, Text,
    TextLayoutInfo, TextSection, TextStyle, UiImage, ZIndex,
};
use style_cascade::patch::{patch_single_field, Patch};
use style_cascade::replace::Replaceable;
use style_cascade::units::{Val, Vec2};

#[test]
fn single_field_rule() {
    assert_eq!(patch_single_field(&Val::Px(1), &Val::Auto), Val::Px(1));
    assert_eq!(patch_single_field(&Val::Px(1), &Val::Px(0)), Val::Px(0));
    assert_eq!(patch_single_field(&Display::Grid, &Display::Flex), Display::Grid);
    assert_eq!(patch_single_field(&Display::Grid, &Display::Block), Display::Block);
    assert_eq!(patch_single_field(&5, &0), 5);
    assert_eq!(patch_single_field(&true, &false), true);
    assert_eq!(Val::Px(1).unless_non_default(Val::Auto), Val::Px(1));
    assert_eq!(Val::Px(1).unless_non_default(Val::Percent(2)), Val::Percent(2));
}

#[test]
fn an_image_is_patched_field_by_field() {
    let tinted = UiImage { color: Color { red: 1, green: 2, blue: 3, alpha: 255 }, ..UiImage::default() };
    let textured = UiImage { texture: Handle { id: 9 }, flip_x: true, ..UiImage::default() };
    assert_eq!(
        tinted.apply(&textured),
        UiImage {
            color: Color { red: 1, green: 2, blue: 3, alpha: 255 },
            texture: Handle { id: 9 },
            flip_x: true,
            flip_y: false,
        }
    );
    let base = ButtonBundle { image: tinted, ..ButtonBundle::default() };
    let patch = ButtonBundle { image: textured, ..ButtonBundle::default() };
    assert_eq!(base.apply(&patch).image, tinted.apply(&textured));
}

#[test]
fn colours_and_stacking_order() {
    let white = Color { red: 255, green: 255, blue: 255, alpha: 255 };
    let blue = Color { red: 0, green: 0, blue: 255, alpha: 255 };
    assert_eq!(BackgroundColor(blue).apply(&BackgroundColor(white)), BackgroundColor(blue));
    assert_eq!(BackgroundColor(white).apply(&BackgroundColor(blue)), BackgroundColor(blue));
    assert_eq!(BorderColor(blue).apply(&BorderColor(white)), BorderColor(blue));
    assert_eq!(BorderColor(white).apply(&BorderColor(blue)), BorderColor(blue));
    assert_eq!(ZIndex::Global(2).apply(&ZIndex::Local(0)), ZIndex::Global(2));
    assert_eq!(ZIndex::Global(2).apply(&ZIndex::Local(1)), ZIndex::Local(1));
}

#[test]
fn layout_measures_are_taken_whole() {
    let measured = Node { stack_index: 4, size: Vec2 { x: 10, y: 20 }, ..Node::default() };
    let offset_only = Node { outline_offset: 5, ..Node::default() };
    assert_eq!(measured.apply(&Node::default()), measured);
    assert_eq!(Node::default().apply(&measured), measured);
    // the outline offset cannot be read back, so a patch that holds nothing else is blank
    assert_eq!(measured.apply(&offset_only), measured);
}

#[test]
fn lists_are_replaced_whole() {
    assert_eq!(vec![1u8, 2, 3].apply(&vec![9u8]), vec![9u8]);
    assert_eq!(vec![1u8, 2, 3].apply(&vec![]), vec![1u8, 2, 3]);
    let glyph = PositionedGlyph {
        position: Vec2 { x: 1, y: 2 },
        size: Vec2 { x: 3, y: 4 },
        section_index: 0,
        byte_index: 5,
    };
    let base = TextLayoutInfo { glyphs: vec![glyph, glyph], logical_size: Vec2 { x: 7, y: 8 } };
    let patch = TextLayoutInfo { glyphs: vec![], logical_size: Vec2 { x: 1, y: 1 } };
    assert_eq!(
        base.apply(&patch),
        TextLayoutInfo { glyphs: vec![glyph, glyph], logical_size: Vec2 { x: 1, y: 1 } }
    );
}

#[test]
fn a_text_is_patched_field_by_field() {
    let style = TextStyle { font_size: 10_000, ..TextStyle::default() };
    let base = Text {
        sections: vec![TextSection::new("kept", style)],
        justify: JustifyText::Center,
        linebreak_behavior: BreakLineOn::NoWrap,
    };
    let patch = Text { justify: JustifyText::Right, ..Text::default() };
    assert_eq!(
        base.apply(&patch),
        Text {
            sections: vec![TextSection::new("kept", style)],
            justify: JustifyText::Right,
            linebreak_behavior: BreakLineOn::NoWrap,
        }
    );
    let bundle = TextBundle { text: base.clone(), ..TextBundle::default() };
    let bundle_patch = TextBundle { text: patch.clone(), ..TextBundle::default() };
    assert_eq!(bundle.apply(&bundle_patch).text, base.apply(&patch));
}

#[test]
fn a_layout_record_is_patched_as_the_cascade_merges_it() {
    let css = CSS::default();
    let button = css.style(&Class::Button);
    let pink = css.style(&Class::ButtonPink);
    assert_eq!(button.apply(&pink), Classes(vec![Class::Button, Class::ButtonPink]).as_style(&css));
    assert_eq!(Style::default().apply(&button), button);
}

#[test]
fn a_patched_bundle_keeps_the_layout_fields_that_the_patch_leaves_unset() {
    let width_only = Style { width: Val::Percent(100_000), ..Style::default() };
    let height_only = Style { height: Val::Px(28_000), ..Style::default() };
    let both = Style { width: Val::Percent(100_000), height: Val::Px(28_000), ..Style::default() };

    let base = NodeBundle { style: width_only.clone(), ..NodeBundle::default() };
    let patch = NodeBundle { style: height_only.clone(), ..NodeBundle::default() };
    assert_eq!(base.apply(&patch).style, both);
    assert_eq!(base.apply(&patch).style, width_only.apply(&height_only));

    let base = ButtonBundle { style: width_only.clone(), ..ButtonBundle::default() };
    let patch = ButtonBundle { style: height_only.clone(), ..ButtonBundle::default() };
    assert_eq!(base.apply(&patch).style, both);

    let base = TextBundle { style: width_only.clone(), ..TextBundle::default() };
    let patch = TextBundle { style: height_only.clone(), ..TextBundle::default() };
    assert_eq!(base.apply(&patch).style, both);
}

#[test]
fn patching_and_overlaying_a_bundle_agree() {
    let css = CSS::default();
    let pink = css.button_style(&Class::ButtonPink);
    let plain = css.button_style(&Class::Button);
    assert_eq!(plain.apply(&pink), style_cascade::css::overlay_buttons(&pink, &plain));
    let message = css.text_style(&Class::HeaderMessage);
    let label = css.text_style(&Class::ButtonText);
    assert_eq!(message.apply(&label), style_cascade::css::overlay_text(&label, &message));
}

#[test]
fn a_box_is_patched_attribute_by_attribute() {
    let css = CSS::default();
    let header = css.node_style(&Class::LayoutHeader);
    let patched = NodeBundle::default().apply(&header);
    assert_eq!(patched, header);
    assert_eq!(patched, Classes(vec![Class::LayoutHeader]).fold_nodes(&css));
}
