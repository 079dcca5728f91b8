//! Patching as a capability of a type: a value that can take a patch of its
//! own type, and keeps what the patch leaves unset.

use vstd::prelude::*;
use crate::bundle::{
    pick_node, Button, ButtonBundle, ButtonBundleView, NodeBundle, NodeBundleView, TextBundle,
    TextBundleView,
};
use crate::css::{apply_patch_node, Classes};
use crate::layout::{Style, StyleView};
use crate::paint::{
    overlay_sections, BackgroundColor, BorderColor, Node, Text, TextLayoutInfo, TextLayoutInfoView, TextView,
    UiImage, ZIndex,
};
use crate::replace::{overlay_list, pick, pick_seq, Replaceable};

verus! {

/// A value that can be overwritten by a patch of its own type, wherever the
/// patch is set.
pub trait Patch: Sized {
    /// Whether `result` is `base` with `patch` applied, as the type
    /// understands it.
    spec fn is_patched(base: Self, patch: Self, result: Self) -> bool;

    /// Applies `patch` to `self` and returns the patched value; neither
    /// argument is changed.
    fn apply(&self, patch: &Self) -> (r: Self)
        ensures
            Self::is_patched(*self, *patch, r),
    ;
}

/// The rule for most fields: the patch wins unless it is at the default of
/// its type.
pub fn patch_single_field<T: Replaceable + Copy>(target: &T, patch: &T) -> (r: T)
    ensures
        r == pick(*target, *patch),
{
    if patch.is_unset() {
        *target
    } else {
        *patch
    }
}

impl Patch for BackgroundColor {
    /// The patch wins unless it is the fill that stands for "not set".
    open spec fn is_patched(base: BackgroundColor, patch: BackgroundColor, result: BackgroundColor) -> bool {
        result == pick(base, patch)
    }

    fn apply(&self, patch: &BackgroundColor) -> (r: BackgroundColor) {
        BackgroundColor(patch_single_field(&self.0, &patch.0))
    }
}

impl Patch for BorderColor {
    /// The patch wins unless it is the border colour that stands for "not
    /// set".
    open spec fn is_patched(base: BorderColor, patch: BorderColor, result: BorderColor) -> bool {
        result == pick(base, patch)
    }

    fn apply(&self, patch: &BorderColor) -> (r: BorderColor) {
        if patch.0.is_unset() {
            *self
        } else {
            *patch
        }
    }
}

impl Patch for Node {
    /// The measures cannot be merged one by one: a patch that the layout
    /// pass has left blank keeps the base, any other replaces it whole.
    open spec fn is_patched(base: Node, patch: Node, result: Node) -> bool {
        result == pick_node(base, patch)
    }

    fn apply(&self, patch: &Node) -> (r: Node) {
        apply_patch_node(*patch, *self)
    }
}

impl Patch for ZIndex {
    /// The patch wins unless it is the local stacking order zero.
    open spec fn is_patched(base: ZIndex, patch: ZIndex, result: ZIndex) -> bool {
        result == pick(base, patch)
    }

    fn apply(&self, patch: &ZIndex) -> (r: ZIndex) {
        match patch {
            ZIndex::Local(0) => *self,
            _ => *patch,
        }
    }
}

impl Patch for UiImage {
    /// Field by field.
    open spec fn is_patched(base: UiImage, patch: UiImage, result: UiImage) -> bool {
        result == UiImage::overlay(patch, base)
    }

    fn apply(&self, patch: &UiImage) -> (r: UiImage) {
        UiImage {
            color: patch_single_field(&self.color, &patch.color),
            texture: patch_single_field(&self.texture, &patch.texture),
            flip_x: patch_single_field(&self.flip_x, &patch.flip_x),
            flip_y: patch_single_field(&self.flip_y, &patch.flip_y),
        }
    }
}

impl<T: Copy> Patch for Vec<T> {
    /// A list is not patched item by item: a patch that is not empty
    /// replaces the list whole.
    open spec fn is_patched(base: Vec<T>, patch: Vec<T>, result: Vec<T>) -> bool {
        result@ == pick_seq(base@, patch@)
    }

    fn apply(&self, patch: &Vec<T>) -> (r: Vec<T>) {
        overlay_list(patch, self)
    }
}

impl Patch for Style {
    /// Field by field.
    open spec fn is_patched(base: Style, patch: Style, result: Style) -> bool {
        result@ == StyleView::overlay(patch@, base@)
    }

    fn apply(&self, patch: &Style) -> (r: Style) {
        Classes::overlay(patch, self)
    }
}

impl Patch for Text {
    /// Field by field; the runs as a list.
    open spec fn is_patched(base: Text, patch: Text, result: Text) -> bool {
        result@ == TextView::overlay(patch@, base@)
    }

    fn apply(&self, patch: &Text) -> (r: Text) {
        Text {
            sections: overlay_sections(&patch.sections, &self.sections),
            justify: patch_single_field(&self.justify, &patch.justify),
            linebreak_behavior: patch_single_field(
                &self.linebreak_behavior,
                &patch.linebreak_behavior,
            ),
        }
    }
}

impl Patch for TextLayoutInfo {
    /// Field by field; the glyphs as a list.
    open spec fn is_patched(base: TextLayoutInfo, patch: TextLayoutInfo, result: TextLayoutInfo) -> bool {
        result@ == TextLayoutInfoView::overlay(patch@, base@)
    }

    fn apply(&self, patch: &TextLayoutInfo) -> (r: TextLayoutInfo) {
        TextLayoutInfo {
            glyphs: self.glyphs.apply(&patch.glyphs),
            logical_size: patch_single_field(&self.logical_size, &patch.logical_size),
        }
    }
}

impl Patch for NodeBundle {
    /// Attribute by attribute; the layout record inside field by field.
    open spec fn is_patched(base: NodeBundle, patch: NodeBundle, result: NodeBundle) -> bool {
        result@ == NodeBundleView::overlay(patch@, base@)
    }

    fn apply(&self, patch: &NodeBundle) -> (r: NodeBundle) {
        NodeBundle {
            node: self.node.apply(&patch.node),
            style: self.style.apply(&patch.style),
            background_color: self.background_color.apply(&patch.background_color),
            border_color: self.border_color.apply(&patch.border_color),
            focus_policy: patch_single_field(&self.focus_policy, &patch.focus_policy),
            transform: patch_single_field(&self.transform, &patch.transform),
            global_transform: patch_single_field(&self.global_transform, &patch.global_transform),
            visibility: patch_single_field(&self.visibility, &patch.visibility),
            inherited_visibility: patch_single_field(&self.inherited_visibility, &patch.inherited_visibility),
            view_visibility: patch_single_field(&self.view_visibility, &patch.view_visibility),
            z_index: self.z_index.apply(&patch.z_index),
        }
    }
}

impl Patch for ButtonBundle {
    /// Attribute by attribute; the layout record and the image inside field
    /// by field.
    open spec fn is_patched(base: ButtonBundle, patch: ButtonBundle, result: ButtonBundle) -> bool {
        result@ == ButtonBundleView::overlay(patch@, base@)
    }

    fn apply(&self, patch: &ButtonBundle) -> (r: ButtonBundle) {
        ButtonBundle {
            node: self.node.apply(&patch.node),
            button: Button,
            style: self.style.apply(&patch.style),
            interaction: patch_single_field(&self.interaction, &patch.interaction),
            focus_policy: patch_single_field(&self.focus_policy, &patch.focus_policy),
            border_color: self.border_color.apply(&patch.border_color),
            image: self.image.apply(&patch.image),
            transform: patch_single_field(&self.transform, &patch.transform),
            global_transform: patch_single_field(&self.global_transform, &patch.global_transform),
            visibility: patch_single_field(&self.visibility, &patch.visibility),
            inherited_visibility: patch_single_field(&self.inherited_visibility, &patch.inherited_visibility),
            view_visibility: patch_single_field(&self.view_visibility, &patch.view_visibility),
            z_index: self.z_index.apply(&patch.z_index),
        }
    }
}

impl Patch for TextBundle {
    /// Attribute by attribute; the layout record, the text and the computed
    /// layout inside field by field.
    open spec fn is_patched(base: TextBundle, patch: TextBundle, result: TextBundle) -> bool {
        result@ == TextBundleView::overlay(patch@, base@)
    }

    fn apply(&self, patch: &TextBundle) -> (r: TextBundle) {
        TextBundle {
            node: self.node.apply(&patch.node),
            style: self.style.apply(&patch.style),
            text: self.text.apply(&patch.text),
            text_layout_info: self.text_layout_info.apply(&patch.text_layout_info),
            focus_policy: patch_single_field(&self.focus_policy, &patch.focus_policy),
            transform: patch_single_field(&self.transform, &patch.transform),
            global_transform: patch_single_field(&self.global_transform, &patch.global_transform),
            visibility: patch_single_field(&self.visibility, &patch.visibility),
            inherited_visibility: patch_single_field(&self.inherited_visibility, &patch.inherited_visibility),
            view_visibility: patch_single_field(&self.view_visibility, &patch.view_visibility),
            z_index: self.z_index.apply(&patch.z_index),
            background_color: self.background_color.apply(&patch.background_color),
        }
    }
}

} // verus!
