//! The paint attributes of an element: what the host keeps outside the
//! layout record. Each type names the value that stands for "not set".

use vstd::prelude::*;
use crate::color::Color;
use crate::replace::{copy_list, pick, pick_seq, Replaceable};
use crate::units::{Milli, Quat, Vec2, Vec3};

verus! {

/// Whether an element lets pointer events through to what lies below it.
#[derive(Clone, Copy, Debug, PartialEq, Eq, Structural)]
pub enum FocusPolicy {
    /// Events reach the elements below.
    Pass,
    /// Events stop here.
    Block,
}

impl Default for FocusPolicy {
    fn default() -> (r: FocusPolicy)
        ensures
            r == FocusPolicy::unset(),
    {
        FocusPolicy::Pass
    }
}

impl Replaceable for FocusPolicy {
    open spec fn unset() -> FocusPolicy {
        FocusPolicy::Pass
    }

    fn is_unset(&self) -> (b: bool) {
        *self == FocusPolicy::Pass
    }
}

/// What the pointer is doing to an element.
#[derive(Clone, Copy, Debug, PartialEq, Eq, Structural)]
pub enum Interaction {
    /// The element is being pressed.
    Pressed,
    /// The pointer is over the element.
    Hovered,
    /// Nothing is happening to the element.
    Idle,
}

impl Default for Interaction {
    fn default() -> (r: Interaction)
        ensures
            r == Interaction::unset(),
    {
        Interaction::Idle
    }
}

impl Replaceable for Interaction {
    open spec fn unset() -> Interaction {
        Interaction::Idle
    }

    fn is_unset(&self) -> (b: bool) {
        *self == Interaction::Idle
    }
}

/// Whether an element is shown.
#[derive(Clone, Copy, Debug, PartialEq, Eq, Structural)]
pub enum Visibility {
    /// As the parent is.
    Inherited,
    /// Never.
    Hidden,
    /// Always.
    Visible,
}

impl Default for Visibility {
    fn default() -> (r: Visibility)
        ensures
            r == Visibility::unset(),
    {
        Visibility::Inherited
    }
}

impl Replaceable for Visibility {
    open spec fn unset() -> Visibility {
        Visibility::Inherited
    }

    fn is_unset(&self) -> (b: bool) {
        *self == Visibility::Inherited
    }
}

/// Whether an element is shown once its ancestors are taken into account.
#[derive(Clone, Copy, Debug, PartialEq, Eq, Structural)]
pub struct InheritedVisibility(pub bool);

impl Default for InheritedVisibility {
    fn default() -> (r: InheritedVisibility)
        ensures
            r == InheritedVisibility::unset(),
    {
        InheritedVisibility(false)
    }
}

impl Replaceable for InheritedVisibility {
    open spec fn unset() -> InheritedVisibility {
        InheritedVisibility(false)
    }

    fn is_unset(&self) -> (b: bool) {
        !self.0
    }
}

/// Whether an element is shown in some view.
#[derive(Clone, Copy, Debug, PartialEq, Eq, Structural)]
pub struct ViewVisibility(pub bool);

impl Default for ViewVisibility {
    fn default() -> (r: ViewVisibility)
        ensures
            r == ViewVisibility::unset(),
    {
        ViewVisibility(false)
    }
}

impl Replaceable for ViewVisibility {
    open spec fn unset() -> ViewVisibility {
        ViewVisibility(false)
    }

    fn is_unset(&self) -> (b: bool) {
        !self.0
    }
}

/// Where an element stands relative to its parent.
#[derive(Clone, Copy, Debug, PartialEq, Eq, Structural)]
pub struct Transform {
    pub translation: Vec3,
    pub rotation: Quat,
    pub scale: Vec3,
}

impl Transform {
    /// The transform that scales by `scale` and does nothing else.
    pub fn from_scale(scale: Vec3) -> (r: Transform)
        ensures
            r == (Transform { scale, ..Transform::unset() }),
    {
        Transform {
            translation: Vec3 { x: 0, y: 0, z: 0 },
            rotation: Quat { x: 0, y: 0, z: 0, w: 1_000 },
            scale,
        }
    }
}

impl Default for Transform {
    fn default() -> (r: Transform)
        ensures
            r == Transform::unset(),
    {
        Transform {
            translation: Vec3 { x: 0, y: 0, z: 0 },
            rotation: Quat { x: 0, y: 0, z: 0, w: 1_000 },
            scale: Vec3 { x: 1_000, y: 1_000, z: 1_000 },
        }
    }
}

impl Replaceable for Transform {
    open spec fn unset() -> Transform {
        Transform {
            translation: Vec3 { x: 0, y: 0, z: 0 },
            rotation: Quat { x: 0, y: 0, z: 0, w: 1_000 },
            scale: Vec3 { x: 1_000, y: 1_000, z: 1_000 },
        }
    }

    fn is_unset(&self) -> (b: bool) {
        *self == Transform {
            translation: Vec3 { x: 0, y: 0, z: 0 },
            rotation: Quat { x: 0, y: 0, z: 0, w: 1_000 },
            scale: Vec3 { x: 1_000, y: 1_000, z: 1_000 },
        }
    }
}

/// Where an element stands in the window: three axes and an offset.
#[derive(Clone, Copy, Debug, PartialEq, Eq, Structural)]
pub struct GlobalTransform {
    pub x_axis: Vec3,
    pub y_axis: Vec3,
    pub z_axis: Vec3,
    pub translation: Vec3,
}

impl Default for GlobalTransform {
    fn default() -> (r: GlobalTransform)
        ensures
            r == GlobalTransform::unset(),
    {
        GlobalTransform {
            x_axis: Vec3 { x: 1_000, y: 0, z: 0 },
            y_axis: Vec3 { x: 0, y: 1_000, z: 0 },
            z_axis: Vec3 { x: 0, y: 0, z: 1_000 },
            translation: Vec3 { x: 0, y: 0, z: 0 },
        }
    }
}

impl Replaceable for GlobalTransform {
    open spec fn unset() -> GlobalTransform {
        GlobalTransform {
            x_axis: Vec3 { x: 1_000, y: 0, z: 0 },
            y_axis: Vec3 { x: 0, y: 1_000, z: 0 },
            z_axis: Vec3 { x: 0, y: 0, z: 1_000 },
            translation: Vec3 { x: 0, y: 0, z: 0 },
        }
    }

    fn is_unset(&self) -> (b: bool) {
        *self == GlobalTransform {
            x_axis: Vec3 { x: 1_000, y: 0, z: 0 },
            y_axis: Vec3 { x: 0, y: 1_000, z: 0 },
            z_axis: Vec3 { x: 0, y: 0, z: 1_000 },
            translation: Vec3 { x: 0, y: 0, z: 0 },
        }
    }
}

/// The stacking order of an element: among its siblings, or among all
/// elements.
#[derive(Clone, Copy, Debug, PartialEq, Eq, Structural)]
pub enum ZIndex {
    Local(i32),
    Global(i32),
}

impl Default for ZIndex {
    fn default() -> (r: ZIndex)
        ensures
            r == ZIndex::unset(),
    {
        ZIndex::Local(0)
    }
}

impl Replaceable for ZIndex {
    open spec fn unset() -> ZIndex {
        ZIndex::Local(0)
    }

    fn is_unset(&self) -> (b: bool) {
        *self == ZIndex::Local(0)
    }
}

/// The fill colour of an element.
#[derive(Clone, Copy, Debug, PartialEq, Eq, Structural)]
pub struct BackgroundColor(pub Color);

impl Default for BackgroundColor {
    fn default() -> (r: BackgroundColor)
        ensures
            r == BackgroundColor::unset(),
    {
        BackgroundColor(Color { red: 255, green: 255, blue: 255, alpha: 255 })
    }
}

impl Replaceable for BackgroundColor {
    open spec fn unset() -> BackgroundColor {
        BackgroundColor(Color { red: 255, green: 255, blue: 255, alpha: 255 })
    }

    fn is_unset(&self) -> (b: bool) {
        *self == BackgroundColor(Color { red: 255, green: 255, blue: 255, alpha: 255 })
    }
}

/// The colour of an element's border.
#[derive(Clone, Copy, Debug, PartialEq, Eq, Structural)]
pub struct BorderColor(pub Color);

impl Default for BorderColor {
    fn default() -> (r: BorderColor)
        ensures
            r == BorderColor::unset(),
    {
        BorderColor(Color { red: 255, green: 255, blue: 255, alpha: 255 })
    }
}

impl Replaceable for BorderColor {
    open spec fn unset() -> BorderColor {
        BorderColor(Color { red: 255, green: 255, blue: 255, alpha: 255 })
    }

    fn is_unset(&self) -> (b: bool) {
        *self == BorderColor(Color { red: 255, green: 255, blue: 255, alpha: 255 })
    }
}

/// An opaque reference to an asset that the host has loaded. The cascade
/// hands it on and compares it; it never looks behind it. The number 0 is the
/// handle that refers to nothing in particular.
#[derive(Clone, Copy, Debug, PartialEq, Eq, Structural)]
pub struct Handle {
    pub id: u64,
}

impl Default for Handle {
    fn default() -> (r: Handle)
        ensures
            r == Handle::unset(),
    {
        Handle { id: 0 }
    }
}

impl Replaceable for Handle {
    open spec fn unset() -> Handle {
        Handle { id: 0 }
    }

    fn is_unset(&self) -> (b: bool) {
        *self == Handle { id: 0 }
    }
}

/// The image that fills an element, with its tint.
#[derive(Clone, Copy, Debug, PartialEq, Eq, Structural)]
pub struct UiImage {
    pub color: Color,
    pub texture: Handle,
    pub flip_x: bool,
    pub flip_y: bool,
}

impl UiImage {
    /// The same image with the tint `color`.
    pub fn with_color(self, color: Color) -> (r: UiImage)
        ensures
            r == (UiImage { color, ..self }),
    {
        UiImage { color, texture: self.texture, flip_x: self.flip_x, flip_y: self.flip_y }
    }
}

impl Default for UiImage {
    fn default() -> (r: UiImage)
        ensures
            r == UiImage::unset(),
    {
        UiImage { color: Color { red: 255, green: 255, blue: 255, alpha: 255 }, texture: Handle { id: 0 }, flip_x: false, flip_y: false }
    }
}

impl Replaceable for UiImage {
    open spec fn unset() -> UiImage {
        UiImage { color: Color { red: 255, green: 255, blue: 255, alpha: 255 }, texture: Handle { id: 0 }, flip_x: false, flip_y: false }
    }

    fn is_unset(&self) -> (b: bool) {
        *self == UiImage { color: Color { red: 255, green: 255, blue: 255, alpha: 255 }, texture: Handle { id: 0 }, flip_x: false, flip_y: false }
    }
}

/// What the layout pass has computed for an element.
#[derive(Clone, Copy, Debug, PartialEq, Eq, Structural)]
pub struct Node {
    pub stack_index: u32,
    pub size: Vec2,
    pub outline_width: Milli,
    pub outline_offset: Milli,
    pub unrounded_size: Vec2,
}

impl Node {
    /// Whether the layout pass has left no trace in the four measures that
    /// can be read back: stack index, size, outline width and unrounded size.
    pub open spec fn is_blank(self) -> bool {
        &&& self.stack_index == 0
        &&& self.size == (Vec2 { x: 0, y: 0 })
        &&& self.outline_width == 0
        &&& self.unrounded_size == (Vec2 { x: 0, y: 0 })
    }

    /// The record before any layout pass.
    pub open spec fn blank() -> Node {
        Node {
            stack_index: 0,
            size: Vec2 { x: 0, y: 0 },
            outline_width: 0,
            outline_offset: 0,
            unrounded_size: Vec2 { x: 0, y: 0 },
        }
    }
}

impl Default for Node {
    fn default() -> (r: Node)
        ensures
            r == Node::blank(),
    {
        Node {
            stack_index: 0,
            size: Vec2 { x: 0, y: 0 },
            outline_width: 0,
            outline_offset: 0,
            unrounded_size: Vec2 { x: 0, y: 0 },
        }
    }
}

/// How the lines of a text are aligned.
#[derive(Clone, Copy, Debug, PartialEq, Eq, Structural)]
pub enum JustifyText {
    /// Flush left.
    Left,
    /// Centred.
    Center,
    /// Flush right.
    Right,
}

impl Default for JustifyText {
    fn default() -> (r: JustifyText)
        ensures
            r == JustifyText::unset(),
    {
        JustifyText::Left
    }
}

impl Replaceable for JustifyText {
    open spec fn unset() -> JustifyText {
        JustifyText::Left
    }

    fn is_unset(&self) -> (b: bool) {
        *self == JustifyText::Left
    }
}

/// Where a text may be broken into lines.
#[derive(Clone, Copy, Debug, PartialEq, Eq, Structural)]
pub enum BreakLineOn {
    /// Between words.
    WordBoundary,
    /// Between any two characters.
    AnyCharacter,
    /// Nowhere.
    NoWrap,
}

impl Default for BreakLineOn {
    fn default() -> (r: BreakLineOn)
        ensures
            r == BreakLineOn::unset(),
    {
        BreakLineOn::WordBoundary
    }
}

impl Replaceable for BreakLineOn {
    open spec fn unset() -> BreakLineOn {
        BreakLineOn::WordBoundary
    }

    fn is_unset(&self) -> (b: bool) {
        *self == BreakLineOn::WordBoundary
    }
}

/// The appearance of a run of text.
#[derive(Clone, Copy, Debug, PartialEq, Eq, Structural)]
pub struct TextStyle {
    pub font: Handle,
    pub font_size: Milli,
    pub color: Color,
}

impl Default for TextStyle {
    fn default() -> (r: TextStyle)
        ensures
            r == TextStyle::unset(),
    {
        TextStyle { font: Handle { id: 0 }, font_size: 24_000, color: Color { red: 255, green: 255, blue: 255, alpha: 255 } }
    }
}

impl Replaceable for TextStyle {
    open spec fn unset() -> TextStyle {
        TextStyle { font: Handle { id: 0 }, font_size: 24_000, color: Color { red: 255, green: 255, blue: 255, alpha: 255 } }
    }

    fn is_unset(&self) -> (b: bool) {
        *self == TextStyle { font: Handle { id: 0 }, font_size: 24_000, color: Color { red: 255, green: 255, blue: 255, alpha: 255 } }
    }
}

/// One run of text in one style.
#[derive(Debug, PartialEq, Eq)]
pub struct TextSection {
    /// The characters of the run.
    pub value: String,
    /// How they look.
    pub style: TextStyle,
}

/// A run of text as a mathematical value.
pub ghost struct TextSectionView {
    pub value: Seq<char>,
    pub style: TextStyle,
}

impl View for TextSection {
    type V = TextSectionView;

    open spec fn view(&self) -> TextSectionView {
        TextSectionView { value: self.value@, style: self.style }
    }
}

impl Clone for TextSection {
    fn clone(&self) -> (r: TextSection)
        ensures
            r@ == self@,
    {
        TextSection { value: self.value.clone(), style: self.style }
    }
}

impl TextSection {
    /// The run of the given characters in the given style.
    pub fn new(value: &str, style: TextStyle) -> (r: TextSection)
        ensures
            r@ == (TextSectionView { value: value@, style }),
    {
        TextSection { value: value.to_owned(), style }
    }
}

/// The runs of a list as mathematical values, in their order.
pub open spec fn runs(sections: Seq<TextSection>) -> Seq<TextSectionView> {
    Seq::new(sections.len(), |i: int| sections[i]@)
}

/// A fresh list with the runs of `list`, in their order.
pub fn copy_sections(list: &Vec<TextSection>) -> (r: Vec<TextSection>)
    ensures
        runs(r@) == runs(list@),
{
    let mut r: Vec<TextSection> = Vec::new();
    let mut i: usize = 0;
    while i < list.len()
        invariant
            i <= list.len(),
            r@.len() == i,
            forall|j: int| 0 <= j < i ==> r@[j]@ == list@[j]@,
        decreases list.len() - i,
    {
        r.push(list[i].clone());
        i += 1;
    }
    proof {
        assert(runs(r@) =~= runs(list@));
    }
    r
}

/// The merge of two lists of runs: a patch that is not empty replaces the
/// list whole.
pub fn overlay_sections(patch: &Vec<TextSection>, onto: &Vec<TextSection>) -> (r: Vec<TextSection>)
    ensures
        runs(r@) == pick_seq(runs(onto@), runs(patch@)),
{
    if patch.len() == 0 {
        copy_sections(onto)
    } else {
        copy_sections(patch)
    }
}

/// One glyph as the text layout has placed it.
#[derive(Clone, Copy, Debug, PartialEq, Eq, Structural)]
pub struct PositionedGlyph {
    pub position: Vec2,
    pub size: Vec2,
    pub section_index: usize,
    pub byte_index: usize,
}

impl UiImage {
    /// The field-wise merge of two images.
    pub open spec fn overlay(patch: UiImage, onto: UiImage) -> UiImage {
        UiImage {
            color: pick(onto.color, patch.color),
            texture: pick(onto.texture, patch.texture),
            flip_x: pick(onto.flip_x, patch.flip_x),
            flip_y: pick(onto.flip_y, patch.flip_y),
        }
    }
}

/// The text of an element: its runs, and how its lines are set.
#[derive(Debug, PartialEq, Eq)]
pub struct Text {
    /// The runs, in reading order.
    pub sections: Vec<TextSection>,
    /// How the lines are aligned.
    pub justify: JustifyText,
    /// Where the lines may break.
    pub linebreak_behavior: BreakLineOn,
}

/// The text of an element as a mathematical value.
#[verifier::ext_equal]
pub ghost struct TextView {
    pub sections: Seq<TextSectionView>,
    pub justify: JustifyText,
    pub linebreak_behavior: BreakLineOn,
}

impl View for Text {
    type V = TextView;

    open spec fn view(&self) -> TextView {
        TextView {
            sections: runs(self.sections@),
            justify: self.justify,
            linebreak_behavior: self.linebreak_behavior,
        }
    }
}

impl Default for Text {
    fn default() -> (r: Text)
        ensures
            r@ == TextView::default_record(),
    {
        Text {
            sections: Vec::new(),
            justify: JustifyText::Left,
            linebreak_behavior: BreakLineOn::WordBoundary,
        }
    }
}

impl Clone for Text {
    fn clone(&self) -> (r: Text)
        ensures
            r@ == self@,
    {
        Text {
            sections: copy_sections(&self.sections),
            justify: self.justify,
            linebreak_behavior: self.linebreak_behavior,
        }
    }
}

impl TextView {
    /// The record in which nothing is set.
    pub open spec fn default_record() -> TextView {
        TextView {
            sections: Seq::empty(),
            justify: JustifyText::Left,
            linebreak_behavior: BreakLineOn::WordBoundary,
        }
    }

    /// The text of one run, nothing else set.
    pub open spec fn one_run(value: Seq<char>, style: TextStyle) -> TextView {
        TextView {
            sections: seq![TextSectionView { value, style }],
            ..TextView::default_record()
        }
    }

    /// The field-wise merge. A list of runs that is not empty replaces the
    /// runs of `onto` whole.
    pub open spec fn overlay(patch: TextView, onto: TextView) -> TextView {
        TextView {
            sections: pick_seq(onto.sections, patch.sections),
            justify: pick(onto.justify, patch.justify),
            linebreak_behavior: pick(onto.linebreak_behavior, patch.linebreak_behavior),
        }
    }
}

impl Text {
    /// A text of one run: the given characters in the given style.
    pub fn from_section(value: &str, style: TextStyle) -> (r: Text)
        ensures
            r@ == TextView::one_run(value@, style),
    {
        let mut sections: Vec<TextSection> = Vec::new();
        sections.push(TextSection::new(value, style));
        proof {
            assert(runs(sections@) =~= seq![TextSectionView { value: value@, style }]);
        }
        Text { sections, justify: JustifyText::Left, linebreak_behavior: BreakLineOn::WordBoundary }
    }
}

/// What the text layout has computed for an element.
#[derive(Debug, PartialEq, Eq)]
pub struct TextLayoutInfo {
    /// The glyphs, as placed.
    pub glyphs: Vec<PositionedGlyph>,
    /// The extent of the text.
    pub logical_size: Vec2,
}

/// The computed text layout as a mathematical value.
#[verifier::ext_equal]
pub ghost struct TextLayoutInfoView {
    pub glyphs: Seq<PositionedGlyph>,
    pub logical_size: Vec2,
}

impl View for TextLayoutInfo {
    type V = TextLayoutInfoView;

    open spec fn view(&self) -> TextLayoutInfoView {
        TextLayoutInfoView {
            glyphs: self.glyphs@,
            logical_size: self.logical_size,
        }
    }
}

impl Default for TextLayoutInfo {
    fn default() -> (r: TextLayoutInfo)
        ensures
            r@ == TextLayoutInfoView::default_record(),
    {
        TextLayoutInfo {
            glyphs: Vec::new(),
            logical_size: Vec2 { x: 0, y: 0 },
        }
    }
}

impl Clone for TextLayoutInfo {
    fn clone(&self) -> (r: TextLayoutInfo)
        ensures
            r@ == self@,
    {
        TextLayoutInfo {
            glyphs: copy_list(&self.glyphs),
            logical_size: self.logical_size,
        }
    }
}

impl TextLayoutInfoView {
    /// The record in which nothing is set.
    pub open spec fn default_record() -> TextLayoutInfoView {
        TextLayoutInfoView {
            glyphs: Seq::empty(),
            logical_size: Vec2 { x: 0, y: 0 },
        }
    }

    /// The field-wise merge. A list of glyphs that is not empty replaces the
    /// glyphs of `onto` whole.
    pub open spec fn overlay(patch: TextLayoutInfoView, onto: TextLayoutInfoView) -> TextLayoutInfoView {
        TextLayoutInfoView {
            glyphs: pick_seq(onto.glyphs, patch.glyphs),
            logical_size: pick(onto.logical_size, patch.logical_size),
        }
    }
}

} // verus!
