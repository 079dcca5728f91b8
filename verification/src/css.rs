//! The style sheet: its variables, its classes, and the cascade that merges
//! the fragments of an element's classes into one resolved record.

use vstd::prelude::*;
use crate::bundle::{
    pick_node, Button, ButtonBundle, ButtonBundleView, NodeBundle, NodeBundleView,
    TextBundle, TextBundleView,
};
use crate::color::Color;
use crate::layout::{AlignItems, JustifyContent, PositionType, Style, StyleView};
use crate::paint::{
    overlay_sections, BackgroundColor, BorderColor, Handle, Node, Text, TextLayoutInfo, TextLayoutInfoView,
    TextStyle, TextView, Transform, UiImage, ZIndex,
};
use crate::replace::{copy_list, overlay_list, pick, Replaceable};
use crate::units::{Milli, UiRect, Val, Vec3};

verus! {

/// Whether the outlines that help with debugging a layout are drawn.
pub const DEBUG: bool = false;

/// What is used only while debugging: the value itself then, and the
/// value that stands for "not set" otherwise.
pub open spec fn debug_only<T: Replaceable>(value: T) -> T {
    if DEBUG {
        value
    } else {
        T::unset()
    }
}

/// Hands `value` on while debugging, and the default of its type otherwise.
pub fn when_debugging<T: Default>(value: T) -> (r: T)
    ensures
        DEBUG ==> r == value,
        !DEBUG ==> call_ensures(T::default, (), r),
{
    if DEBUG {
        value
    } else {
        T::default()
    }
}

/// The product of a factor and a value, both in thousandths, cut off towards
/// zero and kept within the range of the type.
pub open spec fn scaled(factor: Milli, value: Milli) -> Milli {
    let product = factor * value;
    let quotient = if product >= 0 {
        product / 1_000
    } else {
        -((-product) / 1_000)
    };
    if quotient > i32::MAX {
        i32::MAX
    } else if quotient < i32::MIN {
        i32::MIN
    } else {
        quotient as i32
    }
}

/// Multiplies `value` by `factor`; see [`scaled`].
pub fn scale(factor: Milli, value: Milli) -> (r: Milli)
    ensures
        r == scaled(factor, value),
{
    let f: i64 = factor as i64;
    let v: i64 = value as i64;
    assert(-0x8000_0000 * 0x8000_0000 <= f * v <= 0x8000_0000 * 0x8000_0000) by (nonlinear_arith)
        requires
            -0x8000_0000 <= f <= 0x7fff_ffff,
            -0x8000_0000 <= v <= 0x7fff_ffff,
    ;
    let product: i64 = f * v;
    let quotient: i64 = if product >= 0 {
        product / 1_000
    } else {
        -((-product) / 1_000)
    };
    if quotient > 0x7fff_ffff {
        i32::MAX
    } else if quotient < -0x8000_0000 {
        i32::MIN
    } else {
        quotient as i32
    }
}

/// The names of the style rules. The set is closed: an element can carry
/// no class that the style sheet does not know.
#[derive(Clone, Copy, Debug, PartialEq, Eq, Structural)]
pub enum Class {
    /// `layout__header`: the bar across the top of the page.
    LayoutHeader,
    /// `header__logo`: the link round the logo.
    HeaderLogo,
    /// `main-menu__link`: one link of the main menu.
    MainMenuLink,
    /// `header__content`: the content of the bar.
    HeaderContent,
    /// `header__left-block`: the logo and the message beside it.
    HeaderLeftBlock,
    /// `logo`: the logo itself.
    Logo,
    /// `header__message`: the message beside the logo.
    HeaderMessage,
    /// `main-menu__entry`: one entry of the main menu.
    MainMenuEntry,
    /// The text inside a `main-menu__link`.
    MainMenuLinkText,
    /// `header__cta-container`: the buttons at the right end.
    HeaderCtaContainer,
    /// `button--pink`: the pink variant of a button.
    ButtonPink,
    /// `button`: any button.
    Button,
    /// `button__icon`: the icon inside a button.
    ButtonIcon,
    /// The text inside a `button`.
    ButtonText,
    /// `header__cta--github`: the link to the repository.
    HeaderCtaGitHub,
    /// The image inside a `header__cta--github`.
    HeaderCtaGitHubImg,
}

/// The variables of the style sheet. Those that depend on the width of the
/// window are set anew by [`recalculate`].
#[derive(Clone, Copy, Debug, PartialEq, Eq, Structural)]
pub struct CSS {
    /// The root font size.
    pub rem: Milli,
    /// The font size of the message beside the logo.
    pub header_message_font_size: Milli,
    /// The height of the logo.
    pub logo_height: Val,
    /// The height of the bar across the top.
    pub header_height: Val,
    /// The padding of that bar.
    pub header_padding: UiRect,
    /// The font of the page.
    pub fira_sans: Handle,
    /// The height of the image in the link to the repository.
    pub github_img_height: Val,
}

impl Default for CSS {
    fn default() -> (r: CSS)
        ensures
            r == CSS::initial(),
    {
        CSS {
            rem: 19_500,
            header_message_font_size: 25_350,
            logo_height: Val::Px(28_000),
            header_height: Val::Px(60_000),
            header_padding: UiRect::right(Val::Px(8_000)),
            fira_sans: Handle::default(),
            github_img_height: Val::Px(35_000),
        }
    }
}

/// The background of the bar across the top.
fn header_fill() -> (c: Color)
    ensures
        c == Color::opaque(0x1e, 0x1e, 0x22),
{
    proof {
        reveal_strlit("#1e1e22");
    }
    Color::literal("#1e1e22")
}

/// The line under the bar across the top.
fn header_line() -> (c: Color)
    ensures
        c == Color::opaque(0x2c, 0x2c, 0x2d),
{
    proof {
        reveal_strlit("#2c2c2d");
    }
    Color::literal("#2c2c2d")
}

/// The text of a menu link at rest.
pub(crate) fn link_text() -> (c: Color)
    ensures
        c == Color::opaque(0xec, 0xec, 0xec),
{
    proof {
        reveal_strlit("#ececec");
    }
    Color::literal("#ececec")
}

/// The text of a menu link under the pointer.
pub(crate) fn link_text_hovered() -> (c: Color)
    ensures
        c == Color::opaque(0xb1, 0xd9, 0xff),
{
    proof {
        reveal_strlit("#b1d9ff");
    }
    Color::literal("#b1d9ff")
}

/// The text of the message beside the logo.
fn message_text() -> (c: Color)
    ensures
        c == Color::opaque(0x86, 0x86, 0x86),
{
    proof {
        reveal_strlit("#868686");
    }
    Color::literal("#868686")
}

/// The fill of the pink button.
fn pink_fill() -> (c: Color)
    ensures
        c == Color::opaque(0x9f, 0x51, 0x7a),
{
    proof {
        reveal_strlit("#9f517a");
    }
    Color::literal("#9f517a")
}

/// The border of the pink button.
fn pink_line() -> (c: Color)
    ensures
        c == Color::opaque(0xba, 0x78, 0x9b),
{
    proof {
        reveal_strlit("#ba789b");
    }
    Color::literal("#ba789b")
}

impl CSS {
    /// The variables before the window has been measured.
    pub open spec fn initial() -> CSS {
        CSS {
            rem: 19_500,
            header_message_font_size: 25_350,
            logo_height: Val::Px(28_000),
            header_height: Val::Px(60_000),
            header_padding: UiRect { right: Val::Px(8_000), ..UiRect::unset() },
            fira_sans: Handle::unset(),
            github_img_height: Val::Px(35_000),
        }
    }

    /// The layout fragment of `class`: the fields that its rule sets, over the
    /// record in which nothing is set.
    pub open spec fn style_of(self, class: Class) -> StyleView {
        match class {
            Class::LayoutHeader => StyleView {
                position_type: PositionType::Absolute,
                top: Val::Px(0),
                width: Val::Percent(100_000),
                height: self.header_height,
                border: UiRect { bottom: Val::Px(2_000), ..UiRect::unset() },
                padding: self.header_padding,
                ..StyleView::default_record()
            },
            Class::HeaderLogo => StyleView {
                align_items: AlignItems::Center,
                ..StyleView::default_record()
            },
            Class::MainMenuLink => StyleView {
                align_items: AlignItems::Center,
                justify_content: JustifyContent::Center,
                padding: UiRect { left: Val::Px(7_000), right: Val::Px(7_000), top: Val::Px(0), bottom: Val::Px(0) },
                height: self.header_height,
                border: debug_only(UiRect { left: Val::Px(1_000), right: Val::Px(1_000), top: Val::Px(1_000), bottom: Val::Px(1_000) }),
                ..StyleView::default_record()
            },
            Class::HeaderContent => StyleView {
                width: Val::Percent(100_000),
                max_width: Val::Px(1_200_000),
                height: self.header_height,
                align_items: AlignItems::Center,
                justify_content: JustifyContent::SpaceBetween,
                margin: UiRect { left: Val::Auto, right: Val::Auto, top: Val::Px(0), bottom: Val::Px(0) },
                ..StyleView::default_record()
            },
            Class::HeaderLeftBlock => StyleView {
                align_items: AlignItems::Center,
                margin: UiRect { right: Val::Auto, ..UiRect::unset() },
                ..StyleView::default_record()
            },
            Class::Logo => StyleView {
                height: self.logo_height,
                width: Val::Auto,
                ..StyleView::default_record()
            },
            Class::HeaderMessage => StyleView {
                margin: UiRect { left: Val::Px(12_000), ..UiRect::unset() },
                ..StyleView::default_record()
            },
            Class::MainMenuEntry => StyleView {
                border: debug_only(UiRect { left: Val::Px(1_000), right: Val::Px(1_000), top: Val::Px(1_000), bottom: Val::Px(1_000) }),
                ..StyleView::default_record()
            },
            Class::HeaderCtaContainer => StyleView {
                align_items: AlignItems::Center,
                margin: UiRect { left: Val::Px(16_000), ..UiRect::unset() },
                ..StyleView::default_record()
            },
            Class::Button => StyleView {
                align_items: AlignItems::Center,
                border: UiRect { left: Val::Px(3_000), right: Val::Px(3_000), top: Val::Px(3_000), bottom: Val::Px(3_000) },
                padding: UiRect { left: Val::Px(8_000), right: Val::Px(8_000), top: Val::Px(6_000), bottom: Val::Px(6_000) },
                ..StyleView::default_record()
            },
            Class::ButtonPink => StyleView {
                margin: UiRect { right: Val::Px(8_000), ..UiRect::unset() },
                ..StyleView::default_record()
            },
            Class::ButtonIcon => StyleView {
                height: Val::Px(18_700),
                margin: UiRect { left: Val::Px(scaled(200, self.rem)), ..UiRect::unset() },
                ..StyleView::default_record()
            },
            Class::HeaderCtaGitHub => StyleView {
                align_items: AlignItems::Center,
                justify_content: JustifyContent::Center,
                ..StyleView::default_record()
            },
            Class::HeaderCtaGitHubImg => StyleView {
                height: self.github_img_height,
                width: Val::Auto,
                ..StyleView::default_record()
            },
            _ => StyleView::default_record(),
        }
    }

    /// Looks up the layout fragment of `class`.
    #[verifier::rlimit(50)]
    #[verifier::spinoff_prover]
    pub fn style(&self, class: &Class) -> (r: Style)
        ensures
            r@ == self.style_of(*class),
    {
        match class {
            // The bar across the top of the page.
            Class::LayoutHeader => Style {
                position_type: PositionType::Absolute,
                top: Val::Px(0),
                width: Val::Percent(100_000),
                height: self.header_height,
                border: UiRect::bottom(Val::Px(2_000)),
                padding: self.header_padding,
                ..Style::default()
            },
            // The link round the logo.
            Class::HeaderLogo => Style {
                align_items: AlignItems::Center,
                ..Style::default()
            },
            // One link of the main menu.
            Class::MainMenuLink => Style {
                align_items: AlignItems::Center,
                justify_content: JustifyContent::Center,
                padding: UiRect::new(Val::Px(7_000), Val::Px(7_000), Val::Px(0), Val::Px(0)),
                height: self.header_height,
                border: when_debugging(UiRect::all(Val::Px(1_000))),
                ..Style::default()
            },
            // The content of the bar, centred.
            Class::HeaderContent => Style {
                width: Val::Percent(100_000),
                max_width: Val::Px(1_200_000),
                height: self.header_height,
                align_items: AlignItems::Center,
                justify_content: JustifyContent::SpaceBetween,
                margin: UiRect::new(Val::Auto, Val::Auto, Val::Px(0), Val::Px(0)),
                ..Style::default()
            },
            // The logo and the message beside it.
            Class::HeaderLeftBlock => Style {
                align_items: AlignItems::Center,
                margin: UiRect::right(Val::Auto),
                ..Style::default()
            },
            // The logo itself.
            Class::Logo => Style {
                height: self.logo_height,
                width: Val::Auto,
                ..Style::default()
            },
            // The message beside the logo.
            Class::HeaderMessage => Style {
                margin: UiRect::left(Val::Px(12_000)),
                ..Style::default()
            },
            // One entry of the main menu.
            Class::MainMenuEntry => Style {
                border: when_debugging(UiRect::all(Val::Px(1_000))),
                ..Style::default()
            },
            // The buttons at the right end.
            Class::HeaderCtaContainer => Style {
                align_items: AlignItems::Center,
                margin: UiRect::left(Val::Px(16_000)),
                ..Style::default()
            },
            // Any button.
            Class::Button => Style {
                align_items: AlignItems::Center,
                border: UiRect::all(Val::Px(3_000)),
                padding: UiRect::px(8_000, 8_000, 6_000, 6_000),
                ..Style::default()
            },
            // The pink button.
            Class::ButtonPink => Style {
                margin: UiRect::right(Val::Px(8_000)),
                ..Style::default()
            },
            // The icon inside a button.
            Class::ButtonIcon => Style {
                height: Val::Px(18_700),
                margin: UiRect::left(Val::Px(scale(200, self.rem))),
                ..Style::default()
            },
            // The link to the repository.
            Class::HeaderCtaGitHub => Style {
                align_items: AlignItems::Center,
                justify_content: JustifyContent::Center,
                ..Style::default()
            },
            // The image in that link.
            Class::HeaderCtaGitHubImg => Style {
                height: self.github_img_height,
                width: Val::Auto,
                ..Style::default()
            },
            _ => Style::default(),
        }
    }

    /// The paint fragment that `class` gives to a plain box.
    pub open spec fn node_of(self, class: Class) -> NodeBundleView {
        match class {
            Class::LayoutHeader => NodeBundleView {
                background_color: BackgroundColor(Color::opaque(0x1e, 0x1e, 0x22)),
                border_color: BorderColor(Color::opaque(0x2c, 0x2c, 0x2d)),
                ..NodeBundleView::default_record()
            },
            Class::MainMenuEntry => NodeBundleView {
                border_color: debug_only(BorderColor(Color::red())),
                ..NodeBundleView::default_record()
            },
            _ => NodeBundleView::default_record(),
        }
    }

    /// Looks up the paint fragment that `class` gives to a plain box.
    pub fn node_style(&self, class: &Class) -> (r: NodeBundle)
        ensures
            r@ == self.node_of(*class),
    {
        match class {
            Class::LayoutHeader => NodeBundle {
                background_color: BackgroundColor(header_fill()),
                border_color: BorderColor(header_line()),
                ..NodeBundle::default()
            },
            Class::MainMenuEntry => NodeBundle {
                border_color: when_debugging(
                    BorderColor(Color { red: 255, green: 0, blue: 0, alpha: 255 }),
                ),
                ..NodeBundle::default()
            },
            _ => NodeBundle::default(),
        }
    }

    /// The paint fragment that `class` gives to a piece of text.
    pub open spec fn text_of(self, class: Class) -> TextBundleView {
        match class {
            Class::MainMenuLinkText => TextBundleView {
                text: TextView::one_run(
                    Seq::empty(),
                    TextStyle {
                        font: self.fira_sans,
                        font_size: scaled(1_300, self.rem),
                        color: Color::opaque(0xec, 0xec, 0xec),
                    },
                ),
                transform: narrowed(),
                ..TextBundleView::default_record()
            },
            Class::HeaderMessage => TextBundleView {
                text: TextView::one_run(
                    Seq::empty(),
                    TextStyle {
                        font: self.fira_sans,
                        font_size: self.header_message_font_size,
                        color: Color::opaque(0x86, 0x86, 0x86),
                    },
                ),
                transform: narrowed(),
                ..TextBundleView::default_record()
            },
            Class::ButtonIcon => TextBundleView {
                text: TextView::one_run(
                    Seq::empty(),
                    TextStyle { font_size: scaled(900, self.rem), ..TextStyle::unset() },
                ),
                ..TextBundleView::default_record()
            },
            Class::ButtonText => TextBundleView {
                text: TextView::one_run(
                    Seq::empty(),
                    TextStyle {
                        font: self.fira_sans,
                        font_size: scaled(1_200, self.rem),
                        ..TextStyle::unset()
                    },
                ),
                ..TextBundleView::default_record()
            },
            _ => TextBundleView::default_record(),
        }
    }

    /// Looks up the paint fragment that `class` gives to a piece of text.
    pub fn text_style(&self, class: &Class) -> (r: TextBundle)
        ensures
            r@ == self.text_of(*class),
    {
        proof {
            reveal_strlit("");
            assert(""@ =~= Seq::<char>::empty());
        }
        match class {
            Class::MainMenuLinkText => TextBundle {
                text: Text::from_section(
                    "",
                    TextStyle {
                        font: self.fira_sans,
                        font_size: scale(1_300, self.rem),
                        color: link_text(),
                    },
                ),
                transform: Transform::from_scale(Vec3::new(970, 1_000, 1_000)),
                ..TextBundle::default()
            },
            Class::HeaderMessage => TextBundle {
                text: Text::from_section(
                    "",
                    TextStyle {
                        font: self.fira_sans,
                        font_size: self.header_message_font_size,
                        color: message_text(),
                    },
                ),
                transform: Transform::from_scale(Vec3::new(970, 1_000, 1_000)),
                ..TextBundle::default()
            },
            Class::ButtonIcon => TextBundle {
                text: Text::from_section(
                    "",
                    TextStyle { font_size: scale(900, self.rem), ..TextStyle::default() },
                ),
                ..TextBundle::default()
            },
            Class::ButtonText => TextBundle {
                text: Text::from_section(
                    "",
                    TextStyle {
                        font: self.fira_sans,
                        font_size: scale(1_200, self.rem),
                        ..TextStyle::default()
                    },
                ),
                ..TextBundle::default()
            },
            _ => TextBundle::default(),
        }
    }

    /// The paint fragment that `class` gives to a button. A button of any
    /// class but the pink one is given a transparent fill.
    pub open spec fn button_of(self, class: Class) -> ButtonBundleView {
        match class {
            Class::ButtonPink => ButtonBundleView {
                image: UiImage { color: Color::opaque(0x9f, 0x51, 0x7a), ..UiImage::unset() },
                border_color: BorderColor(Color::opaque(0xba, 0x78, 0x9b)),
                ..ButtonBundleView::default_record()
            },
            _ => ButtonBundleView {
                image: UiImage { color: Color::none(), ..UiImage::unset() },
                ..ButtonBundleView::default_record()
            },
        }
    }

    /// Looks up the paint fragment that `class` gives to a button.
    pub fn button_style(&self, class: &Class) -> (r: ButtonBundle)
        ensures
            r@ == self.button_of(*class),
    {
        match class {
            Class::ButtonPink => ButtonBundle {
                image: UiImage::default().with_color(pink_fill()),
                border_color: BorderColor(pink_line()),
                ..ButtonBundle::default()
            },
            _ => ButtonBundle {
                image: UiImage::default().with_color(
                    Color { red: 0, green: 0, blue: 0, alpha: 0 },
                ),
                ..ButtonBundle::default()
            },
        }
    }
}

/// The transform that narrows text a little, to make up for a wide font.
pub open spec fn narrowed() -> Transform {
    Transform { scale: Vec3 { x: 970, y: 1_000, z: 1_000 }, ..Transform::unset() }
}

/// Keeps `onto` where the layout pass has left `patch` blank.
pub fn apply_patch_node(patch: Node, onto: Node) -> (r: Node)
    ensures
        r == pick_node(onto, patch),
{
    if patch.stack_index == 0 && patch.size.is_unset() && patch.outline_width == 0
        && patch.unrounded_size.is_unset() {
        onto
    } else {
        patch
    }
}

/// Keeps `onto` where `patch` is the border colour that stands for "not set".
pub fn apply_patch_border_color(patch: BorderColor, onto: BorderColor) -> (r: BorderColor)
    ensures
        r == pick(onto, patch),
{
    if patch.0.is_unset() {
        onto
    } else {
        patch
    }
}

/// Keeps `onto` where `patch` is the local stacking order zero.
pub fn apply_patch_z_index(patch: ZIndex, onto: ZIndex) -> (r: ZIndex)
    ensures
        r == pick(onto, patch),
{
    match patch {
        ZIndex::Local(0) => onto,
        _ => patch,
    }
}

/// Merges the image `patch` into `onto`, field by field: a tint, a texture
/// or a flip that the patch sets replaces that of `onto`, and nothing else.
pub fn apply_patch_ui_image(patch: UiImage, onto: UiImage) -> (r: UiImage)
    ensures
        r == UiImage::overlay(patch, onto),
{
    UiImage {
        color: onto.color.unless_non_default(patch.color),
        texture: onto.texture.unless_non_default(patch.texture),
        flip_x: onto.flip_x.unless_non_default(patch.flip_x),
        flip_y: onto.flip_y.unless_non_default(patch.flip_y),
    }
}

/// Merges the text `patch` into `onto`, field by field. The runs are a list:
/// runs of the patch replace those of `onto` whole, and a patch without runs
/// leaves them as they are.
pub fn apply_patch_text(patch: Text, onto: Text) -> (r: Text)
    ensures
        r@ == TextView::overlay(patch@, onto@),
{
    Text {
        sections: overlay_sections(&patch.sections, &onto.sections),
        justify: onto.justify.unless_non_default(patch.justify),
        linebreak_behavior: onto.linebreak_behavior.unless_non_default(patch.linebreak_behavior),
    }
}

/// Merges the computed layout `patch` into `onto`, field by field. The
/// glyphs are a list: glyphs of the patch replace those of `onto` whole, and
/// a patch without glyphs leaves them as they are.
pub fn apply_patch_text_layout_info(patch: TextLayoutInfo, onto: TextLayoutInfo) -> (r:
    TextLayoutInfo)
    ensures
        r@ == TextLayoutInfoView::overlay(patch@, onto@),
{
    TextLayoutInfo {
        glyphs: overlay_list(&patch.glyphs, &onto.glyphs),
        logical_size: onto.logical_size.unless_non_default(patch.logical_size),
    }
}

/// Keeps `onto` where `patch` is the fill colour that stands for "not set".
pub fn apply_patch_background_color(patch: BackgroundColor, onto: BackgroundColor) -> (r:
    BackgroundColor)
    ensures
        r == pick(onto, patch),
{
    if patch.0.is_unset() {
        onto
    } else {
        patch
    }
}

/// Merges the fragment `patch` into the running box `onto`, attribute by
/// attribute: of each attribute the patch wins where it is set.
pub fn overlay_nodes(patch: &NodeBundle, onto: &NodeBundle) -> (r: NodeBundle)
    ensures
        r@ == NodeBundleView::overlay(patch@, onto@),
{
    NodeBundle {
        node: apply_patch_node(patch.node, onto.node),
        style: Classes::overlay(&patch.style, &onto.style),
        background_color: apply_patch_background_color(patch.background_color, onto.background_color),
        border_color: apply_patch_border_color(patch.border_color, onto.border_color),
        focus_policy: onto.focus_policy.unless_non_default(patch.focus_policy),
        transform: onto.transform.unless_non_default(patch.transform),
        global_transform: onto.global_transform.unless_non_default(patch.global_transform),
        visibility: onto.visibility.unless_non_default(patch.visibility),
        inherited_visibility: onto.inherited_visibility.unless_non_default(patch.inherited_visibility),
        view_visibility: onto.view_visibility.unless_non_default(patch.view_visibility),
        z_index: apply_patch_z_index(patch.z_index, onto.z_index),
    }
}

/// Merges the fragment `patch` into the running button `onto`, attribute by
/// attribute: of each attribute the patch wins where it is set.
pub fn overlay_buttons(patch: &ButtonBundle, onto: &ButtonBundle) -> (r: ButtonBundle)
    ensures
        r@ == ButtonBundleView::overlay(patch@, onto@),
{
    ButtonBundle {
        node: apply_patch_node(patch.node, onto.node),
        button: Button,
        style: Classes::overlay(&patch.style, &onto.style),
        interaction: onto.interaction.unless_non_default(patch.interaction),
        focus_policy: onto.focus_policy.unless_non_default(patch.focus_policy),
        border_color: apply_patch_border_color(patch.border_color, onto.border_color),
        image: apply_patch_ui_image(patch.image, onto.image),
        transform: onto.transform.unless_non_default(patch.transform),
        global_transform: onto.global_transform.unless_non_default(patch.global_transform),
        visibility: onto.visibility.unless_non_default(patch.visibility),
        inherited_visibility: onto.inherited_visibility.unless_non_default(patch.inherited_visibility),
        view_visibility: onto.view_visibility.unless_non_default(patch.view_visibility),
        z_index: apply_patch_z_index(patch.z_index, onto.z_index),
    }
}

/// Merges the fragment `patch` into the running text `onto`, attribute by
/// attribute: of each attribute the patch wins where it is set.
pub fn overlay_text(patch: &TextBundle, onto: &TextBundle) -> (r: TextBundle)
    ensures
        r@ == TextBundleView::overlay(patch@, onto@),
{
    TextBundle {
        node: apply_patch_node(patch.node, onto.node),
        style: Classes::overlay(&patch.style, &onto.style),
        text: apply_patch_text(patch.text.clone(), onto.text.clone()),
        text_layout_info: apply_patch_text_layout_info(patch.text_layout_info.clone(), onto.text_layout_info.clone()),
        focus_policy: onto.focus_policy.unless_non_default(patch.focus_policy),
        transform: onto.transform.unless_non_default(patch.transform),
        global_transform: onto.global_transform.unless_non_default(patch.global_transform),
        visibility: onto.visibility.unless_non_default(patch.visibility),
        inherited_visibility: onto.inherited_visibility.unless_non_default(patch.inherited_visibility),
        view_visibility: onto.view_visibility.unless_non_default(patch.view_visibility),
        z_index: apply_patch_z_index(patch.z_index, onto.z_index),
        background_color: apply_patch_background_color(patch.background_color, onto.background_color),
    }
}

/// The classes of one element, in cascade order: a later class overrides an
/// earlier one, field by field.
#[derive(Debug, PartialEq, Eq)]
pub struct Classes(pub Vec<Class>);

impl Clone for Classes {
    fn clone(&self) -> (r: Classes)
        ensures
            r.0@ == self.0@,
    {
        Classes(copy_list(&self.0))
    }
}

impl Classes {
    /// Merges the fragment `patch` into the running record `onto`, field by
    /// field.
    pub fn overlay(patch: &Style, onto: &Style) -> (r: Style)
        ensures
            r@ == StyleView::overlay(patch@, onto@),
    {
        Style {
            display: onto.display.unless_non_default(patch.display),
            position_type: onto.position_type.unless_non_default(patch.position_type),
            overflow: onto.overflow.unless_non_default(patch.overflow),
            direction: onto.direction.unless_non_default(patch.direction),
            left: onto.left.unless_non_default(patch.left),
            right: onto.right.unless_non_default(patch.right),
            top: onto.top.unless_non_default(patch.top),
            bottom: onto.bottom.unless_non_default(patch.bottom),
            width: onto.width.unless_non_default(patch.width),
            height: onto.height.unless_non_default(patch.height),
            min_width: onto.min_width.unless_non_default(patch.min_width),
            min_height: onto.min_height.unless_non_default(patch.min_height),
            max_width: onto.max_width.unless_non_default(patch.max_width),
            max_height: onto.max_height.unless_non_default(patch.max_height),
            aspect_ratio: onto.aspect_ratio.unless_non_default(patch.aspect_ratio),
            align_items: onto.align_items.unless_non_default(patch.align_items),
            justify_items: onto.justify_items.unless_non_default(patch.justify_items),
            align_self: onto.align_self.unless_non_default(patch.align_self),
            justify_self: onto.justify_self.unless_non_default(patch.justify_self),
            align_content: onto.align_content.unless_non_default(patch.align_content),
            justify_content: onto.justify_content.unless_non_default(patch.justify_content),
            margin: onto.margin.unless_non_default(patch.margin),
            padding: onto.padding.unless_non_default(patch.padding),
            border: onto.border.unless_non_default(patch.border),
            flex_direction: onto.flex_direction.unless_non_default(patch.flex_direction),
            flex_wrap: onto.flex_wrap.unless_non_default(patch.flex_wrap),
            flex_grow: onto.flex_grow.unless_non_default(patch.flex_grow),
            flex_shrink: onto.flex_shrink.unless_non_default(patch.flex_shrink),
            flex_basis: onto.flex_basis.unless_non_default(patch.flex_basis),
            row_gap: onto.row_gap.unless_non_default(patch.row_gap),
            column_gap: onto.column_gap.unless_non_default(patch.column_gap),
            grid_auto_flow: onto.grid_auto_flow.unless_non_default(patch.grid_auto_flow),
            grid_template_rows: overlay_list(&patch.grid_template_rows, &onto.grid_template_rows),
            grid_template_columns: overlay_list(&patch.grid_template_columns, &onto.grid_template_columns),
            grid_auto_rows: overlay_list(&patch.grid_auto_rows, &onto.grid_auto_rows),
            grid_auto_columns: overlay_list(&patch.grid_auto_columns, &onto.grid_auto_columns),
            grid_row: onto.grid_row.unless_non_default(patch.grid_row),
            grid_column: onto.grid_column.unless_non_default(patch.grid_column),
        }
    }

    /// Resolves the layout record of an element: starts from the record in
    /// which nothing is set and merges the fragment of each class into it,
    /// in the order of the list.
    pub fn as_style(&self, css: &CSS) -> (r: Style)
        ensures
            r@ == resolved_style(self.0@, *css),
    {
        let mut acc = Style::default();
        let mut i: usize = 0;
        while i < self.0.len()
            invariant
                i <= self.0.len(),
                acc@ == resolved_style(self.0@.subrange(0, i as int), *css),
            decreases self.0.len() - i,
        {
            let patch = css.style(&self.0[i]);
            acc = Classes::overlay(&patch, &acc);
            i += 1;
            proof {
                lemma_subrange_step(self.0@, i as int);
            }
        }
        proof {
            assert(self.0@.subrange(0, i as int) =~= self.0@);
        }
        acc
    }

    /// Merges the paint fragments that the classes give to a plain box, in
    /// the order of the list.
    pub fn fold_nodes(&self, css: &CSS) -> (r: NodeBundle)
        ensures
            r@ == folded_node(self.0@, *css),
    {
        let mut acc = NodeBundle::default();
        let mut i: usize = 0;
        while i < self.0.len()
            invariant
                i <= self.0.len(),
                acc@ == folded_node(self.0@.subrange(0, i as int), *css),
            decreases self.0.len() - i,
        {
            let patch = css.node_style(&self.0[i]);
            acc = overlay_nodes(&patch, &acc);
            i += 1;
            proof {
                lemma_subrange_step(self.0@, i as int);
            }
        }
        proof {
            assert(self.0@.subrange(0, i as int) =~= self.0@);
        }
        acc
    }

    /// Merges the paint fragments that the classes give to a button, in the
    /// order of the list.
    pub fn fold_buttons(&self, css: &CSS) -> (r: ButtonBundle)
        ensures
            r@ == folded_button(self.0@, *css),
    {
        let mut acc = ButtonBundle::default();
        let mut i: usize = 0;
        while i < self.0.len()
            invariant
                i <= self.0.len(),
                acc@ == folded_button(self.0@.subrange(0, i as int), *css),
            decreases self.0.len() - i,
        {
            let patch = css.button_style(&self.0[i]);
            acc = overlay_buttons(&patch, &acc);
            i += 1;
            proof {
                lemma_subrange_step(self.0@, i as int);
            }
        }
        proof {
            assert(self.0@.subrange(0, i as int) =~= self.0@);
        }
        acc
    }

    /// Merges the paint fragments that the classes give to a piece of text,
    /// in the order of the list.
    pub fn fold_text(&self, css: &CSS) -> (r: TextBundle)
        ensures
            r@ == folded_text(self.0@, *css),
    {
        let mut acc = TextBundle::default();
        let mut i: usize = 0;
        while i < self.0.len()
            invariant
                i <= self.0.len(),
                acc@ == folded_text(self.0@.subrange(0, i as int), *css),
            decreases self.0.len() - i,
        {
            let patch = css.text_style(&self.0[i]);
            acc = overlay_text(&patch, &acc);
            i += 1;
            proof {
                lemma_subrange_step(self.0@, i as int);
            }
        }
        proof {
            assert(self.0@.subrange(0, i as int) =~= self.0@);
        }
        acc
    }

    /// Resolves a plain box: the merged paint attributes, with the resolved
    /// layout record in place of theirs.
    pub fn as_node(&self, css: &CSS) -> (r: NodeBundle)
        ensures
            r@ == resolved_node(self.0@, *css),
    {
        let mut bundle = self.fold_nodes(css);
        bundle.style = self.as_style(css);
        bundle
    }

    /// Resolves a button: the merged paint attributes, with the resolved
    /// layout record in place of theirs.
    pub fn as_button(&self, css: &CSS) -> (r: ButtonBundle)
        ensures
            r@ == resolved_button(self.0@, *css),
    {
        let mut bundle = self.fold_buttons(css);
        bundle.style = self.as_style(css);
        bundle
    }

    /// Resolves a piece of text: the merged paint attributes, with the
    /// resolved layout record in place of theirs and a single run, the
    /// characters `text` in the style of the first merged run. Where no class
    /// of the list gives the text a run, there is nothing to resolve.
    pub fn as_text(&self, css: &CSS, text: &str) -> (r: Option<TextBundle>)
        ensures
            r is Some <==> folded_text(self.0@, *css).text.sections.len() > 0,
            r matches Some(bundle) ==> bundle@ == resolved_text(self.0@, *css, text@),
    {
        let mut bundle = self.fold_text(css);
        if bundle.text.sections.len() == 0 {
            None
        } else {
            bundle.text = Text::from_section(text, bundle.text.sections[0].style);
            bundle.style = self.as_style(css);
            Some(bundle)
        }
    }
}

/// Taking one more item of a list: the longer prefix ends in that item and
/// is the shorter prefix without it.
proof fn lemma_subrange_step(classes: Seq<Class>, i: int)
    requires
        0 < i <= classes.len(),
    ensures
        classes.subrange(0, i).len() == i,
        classes.subrange(0, i).last() == classes[i - 1],
        classes.subrange(0, i).drop_last() == classes.subrange(0, i - 1),
{
    assert(classes.subrange(0, i).drop_last() =~= classes.subrange(0, i - 1));
}

/// The resolved layout record of a class list: the fragments of the classes
/// merged, first to last, into the record in which nothing is set.
pub open spec fn resolved_style(classes: Seq<Class>, css: CSS) -> StyleView
    decreases classes.len(),
{
    if classes.len() == 0 {
        StyleView::default_record()
    } else {
        StyleView::overlay(css.style_of(classes.last()), resolved_style(classes.drop_last(), css))
    }
}

/// The paint fragments that the classes give to a plain box, merged first to
/// last into the box in which nothing is set.
pub open spec fn folded_node(classes: Seq<Class>, css: CSS) -> NodeBundleView
    decreases classes.len(),
{
    if classes.len() == 0 {
        NodeBundleView::default_record()
    } else {
        NodeBundleView::overlay(css.node_of(classes.last()), folded_node(classes.drop_last(), css))
    }
}

/// The paint fragments that the classes give to a button, merged first to
/// last into the button in which nothing is set.
pub open spec fn folded_button(classes: Seq<Class>, css: CSS) -> ButtonBundleView
    decreases classes.len(),
{
    if classes.len() == 0 {
        ButtonBundleView::default_record()
    } else {
        ButtonBundleView::overlay(
            css.button_of(classes.last()),
            folded_button(classes.drop_last(), css),
        )
    }
}

/// The paint fragments that the classes give to a piece of text, merged
/// first to last into the text in which nothing is set.
pub open spec fn folded_text(classes: Seq<Class>, css: CSS) -> TextBundleView
    decreases classes.len(),
{
    if classes.len() == 0 {
        TextBundleView::default_record()
    } else {
        TextBundleView::overlay(css.text_of(classes.last()), folded_text(classes.drop_last(), css))
    }
}

/// The resolved plain box of a class list.
pub open spec fn resolved_node(classes: Seq<Class>, css: CSS) -> NodeBundleView {
    NodeBundleView { style: resolved_style(classes, css), ..folded_node(classes, css) }
}

/// The resolved button of a class list.
pub open spec fn resolved_button(classes: Seq<Class>, css: CSS) -> ButtonBundleView {
    ButtonBundleView { style: resolved_style(classes, css), ..folded_button(classes, css) }
}

/// The resolved piece of text of a class list in which some class gives the
/// text a run.
pub open spec fn resolved_text(classes: Seq<Class>, css: CSS, text: Seq<char>) -> TextBundleView
    recommends
        folded_text(classes, css).text.sections.len() > 0,
{
    let folded = folded_text(classes, css);
    TextBundleView {
        style: resolved_style(classes, css),
        text: TextView::one_run(text, folded.text.sections[0].style),
        ..folded
    }
}

} // verus!
