//! The bundles of attributes that the host attaches to one element, and the
//! merge of two bundles of a kind.

use vstd::prelude::*;
use crate::color::Color;
use crate::layout::{Style, StyleView};
use crate::paint::{
    BackgroundColor, BorderColor, FocusPolicy, GlobalTransform, InheritedVisibility, Interaction,
    Node, Text, TextLayoutInfo, TextLayoutInfoView, TextView, Transform, UiImage, ViewVisibility,
    Visibility, ZIndex,
};
use crate::replace::{pick, Replaceable};

verus! {

/// The merge of the layout measures: a patch that the layout pass has left
/// blank keeps the base; any other patch replaces it whole.
pub open spec fn pick_node(base: Node, patch: Node) -> Node {
    if patch.is_blank() {
        base
    } else {
        patch
    }
}

/// Marks an element as a button; it carries nothing.
#[derive(Clone, Copy, Debug, PartialEq, Eq, Structural)]
pub struct Button;

/// What the host attaches to a plain box.
#[derive(Debug, PartialEq, Eq)]
pub struct NodeBundle {
    /// What the layout pass has computed.
    pub node: Node,
    /// The layout record.
    pub style: Style,
    /// The fill colour.
    pub background_color: BackgroundColor,
    /// The colour of the border.
    pub border_color: BorderColor,
    /// Whether pointer events pass through.
    pub focus_policy: FocusPolicy,
    /// Where the element stands relative to its parent.
    pub transform: Transform,
    /// Where the element stands in the window.
    pub global_transform: GlobalTransform,
    /// Whether the element is shown.
    pub visibility: Visibility,
    /// Whether it is shown, ancestors considered.
    pub inherited_visibility: InheritedVisibility,
    /// Whether it is shown in some view.
    pub view_visibility: ViewVisibility,
    /// The stacking order.
    pub z_index: ZIndex,
}

/// A plain box as a mathematical value.
#[verifier::ext_equal]
pub ghost struct NodeBundleView {
    pub node: Node,
    pub style: StyleView,
    pub background_color: BackgroundColor,
    pub border_color: BorderColor,
    pub focus_policy: FocusPolicy,
    pub transform: Transform,
    pub global_transform: GlobalTransform,
    pub visibility: Visibility,
    pub inherited_visibility: InheritedVisibility,
    pub view_visibility: ViewVisibility,
    pub z_index: ZIndex,
}

impl View for NodeBundle {
    type V = NodeBundleView;

    open spec fn view(&self) -> NodeBundleView {
        NodeBundleView {
            node: self.node,
            style: self.style@,
            background_color: self.background_color,
            border_color: self.border_color,
            focus_policy: self.focus_policy,
            transform: self.transform,
            global_transform: self.global_transform,
            visibility: self.visibility,
            inherited_visibility: self.inherited_visibility,
            view_visibility: self.view_visibility,
            z_index: self.z_index,
        }
    }
}

impl Default for NodeBundle {
    fn default() -> (r: NodeBundle)
        ensures
            r@ == NodeBundleView::default_record(),
    {
        NodeBundle {
            node: Node::default(),
            style: Style::default(),
            background_color: BackgroundColor(Color { red: 0, green: 0, blue: 0, alpha: 0 }),
            border_color: BorderColor(Color { red: 0, green: 0, blue: 0, alpha: 0 }),
            focus_policy: FocusPolicy::Pass,
            transform: Transform::default(),
            global_transform: GlobalTransform::default(),
            visibility: Visibility::Inherited,
            inherited_visibility: InheritedVisibility(false),
            view_visibility: ViewVisibility(false),
            z_index: ZIndex::Local(0),
        }
    }
}

impl Clone for NodeBundle {
    fn clone(&self) -> (r: NodeBundle)
        ensures
            r@ == self@,
    {
        NodeBundle {
            node: self.node,
            style: self.style.clone(),
            background_color: self.background_color,
            border_color: self.border_color,
            focus_policy: self.focus_policy,
            transform: self.transform,
            global_transform: self.global_transform,
            visibility: self.visibility,
            inherited_visibility: self.inherited_visibility,
            view_visibility: self.view_visibility,
            z_index: self.z_index,
        }
    }
}

impl NodeBundleView {
    /// The box before any class has touched it: transparent, without a
    /// border colour, every other attribute at the default of its type.
    /// Transparent is not the colour that stands for "not set": a fragment
    /// that starts from this box and leaves the colours alone sets them to
    /// transparent when it is merged.
    pub open spec fn default_record() -> NodeBundleView {
        NodeBundleView {
            node: Node::blank(),
            style: StyleView::default_record(),
            background_color: BackgroundColor(Color::none()),
            border_color: BorderColor(Color::none()),
            focus_policy: FocusPolicy::Pass,
            transform: Transform::unset(),
            global_transform: GlobalTransform::unset(),
            visibility: Visibility::Inherited,
            inherited_visibility: InheritedVisibility(false),
            view_visibility: ViewVisibility(false),
            z_index: ZIndex::Local(0),
        }
    }

    /// The merge of two boxes, attribute by attribute; the layout record
    /// inside is merged field by field.
    pub open spec fn overlay(patch: NodeBundleView, onto: NodeBundleView) -> NodeBundleView {
        NodeBundleView {
            node: pick_node(onto.node, patch.node),
            style: StyleView::overlay(patch.style, onto.style),
            background_color: pick(onto.background_color, patch.background_color),
            border_color: pick(onto.border_color, patch.border_color),
            focus_policy: pick(onto.focus_policy, patch.focus_policy),
            transform: pick(onto.transform, patch.transform),
            global_transform: pick(onto.global_transform, patch.global_transform),
            visibility: pick(onto.visibility, patch.visibility),
            inherited_visibility: pick(onto.inherited_visibility, patch.inherited_visibility),
            view_visibility: pick(onto.view_visibility, patch.view_visibility),
            z_index: pick(onto.z_index, patch.z_index),
        }
    }
}

/// What the host attaches to a button.
#[derive(Debug, PartialEq, Eq)]
pub struct ButtonBundle {
    /// What the layout pass has computed.
    pub node: Node,
    /// Marks the element as a button.
    pub button: Button,
    /// The layout record.
    pub style: Style,
    /// What the pointer is doing to the element.
    pub interaction: Interaction,
    /// Whether pointer events pass through.
    pub focus_policy: FocusPolicy,
    /// The colour of the border.
    pub border_color: BorderColor,
    /// The image that fills the button, with its tint.
    pub image: UiImage,
    /// Where the element stands relative to its parent.
    pub transform: Transform,
    /// Where the element stands in the window.
    pub global_transform: GlobalTransform,
    /// Whether the element is shown.
    pub visibility: Visibility,
    /// Whether it is shown, ancestors considered.
    pub inherited_visibility: InheritedVisibility,
    /// Whether it is shown in some view.
    pub view_visibility: ViewVisibility,
    /// The stacking order.
    pub z_index: ZIndex,
}

/// A button as a mathematical value.
#[verifier::ext_equal]
pub ghost struct ButtonBundleView {
    pub node: Node,
    pub button: Button,
    pub style: StyleView,
    pub interaction: Interaction,
    pub focus_policy: FocusPolicy,
    pub border_color: BorderColor,
    pub image: UiImage,
    pub transform: Transform,
    pub global_transform: GlobalTransform,
    pub visibility: Visibility,
    pub inherited_visibility: InheritedVisibility,
    pub view_visibility: ViewVisibility,
    pub z_index: ZIndex,
}

impl View for ButtonBundle {
    type V = ButtonBundleView;

    open spec fn view(&self) -> ButtonBundleView {
        ButtonBundleView {
            node: self.node,
            button: self.button,
            style: self.style@,
            interaction: self.interaction,
            focus_policy: self.focus_policy,
            border_color: self.border_color,
            image: self.image,
            transform: self.transform,
            global_transform: self.global_transform,
            visibility: self.visibility,
            inherited_visibility: self.inherited_visibility,
            view_visibility: self.view_visibility,
            z_index: self.z_index,
        }
    }
}

impl Default for ButtonBundle {
    fn default() -> (r: ButtonBundle)
        ensures
            r@ == ButtonBundleView::default_record(),
    {
        ButtonBundle {
            node: Node::default(),
            button: Button,
            style: Style::default(),
            interaction: Interaction::Idle,
            focus_policy: FocusPolicy::Block,
            border_color: BorderColor(Color { red: 0, green: 0, blue: 0, alpha: 0 }),
            image: UiImage::default(),
            transform: Transform::default(),
            global_transform: GlobalTransform::default(),
            visibility: Visibility::Inherited,
            inherited_visibility: InheritedVisibility(false),
            view_visibility: ViewVisibility(false),
            z_index: ZIndex::Local(0),
        }
    }
}

impl Clone for ButtonBundle {
    fn clone(&self) -> (r: ButtonBundle)
        ensures
            r@ == self@,
    {
        ButtonBundle {
            node: self.node,
            button: self.button,
            style: self.style.clone(),
            interaction: self.interaction,
            focus_policy: self.focus_policy,
            border_color: self.border_color,
            image: self.image,
            transform: self.transform,
            global_transform: self.global_transform,
            visibility: self.visibility,
            inherited_visibility: self.inherited_visibility,
            view_visibility: self.view_visibility,
            z_index: self.z_index,
        }
    }
}

impl ButtonBundleView {
    /// The button before any class has touched it: it blocks pointer events
    /// and has a transparent border; every other attribute is at the default
    /// of its type. Neither of the two is the value that stands for "not
    /// set": a fragment that starts from this button sets both when it is
    /// merged.
    pub open spec fn default_record() -> ButtonBundleView {
        ButtonBundleView {
            node: Node::blank(),
            button: Button,
            style: StyleView::default_record(),
            interaction: Interaction::Idle,
            focus_policy: FocusPolicy::Block,
            border_color: BorderColor(Color::none()),
            image: UiImage::unset(),
            transform: Transform::unset(),
            global_transform: GlobalTransform::unset(),
            visibility: Visibility::Inherited,
            inherited_visibility: InheritedVisibility(false),
            view_visibility: ViewVisibility(false),
            z_index: ZIndex::Local(0),
        }
    }

    /// The merge of two buttons, attribute by attribute; the layout record
    /// and the image inside are merged field by field.
    pub open spec fn overlay(patch: ButtonBundleView, onto: ButtonBundleView) -> ButtonBundleView {
        ButtonBundleView {
            node: pick_node(onto.node, patch.node),
            button: Button,
            style: StyleView::overlay(patch.style, onto.style),
            interaction: pick(onto.interaction, patch.interaction),
            focus_policy: pick(onto.focus_policy, patch.focus_policy),
            border_color: pick(onto.border_color, patch.border_color),
            image: UiImage::overlay(patch.image, onto.image),
            transform: pick(onto.transform, patch.transform),
            global_transform: pick(onto.global_transform, patch.global_transform),
            visibility: pick(onto.visibility, patch.visibility),
            inherited_visibility: pick(onto.inherited_visibility, patch.inherited_visibility),
            view_visibility: pick(onto.view_visibility, patch.view_visibility),
            z_index: pick(onto.z_index, patch.z_index),
        }
    }
}

/// What the host attaches to a piece of text.
#[derive(Debug, PartialEq, Eq)]
pub struct TextBundle {
    /// What the layout pass has computed.
    pub node: Node,
    /// The layout record.
    pub style: Style,
    /// The runs of text.
    pub text: Text,
    /// What the text layout has computed.
    pub text_layout_info: TextLayoutInfo,
    /// Whether pointer events pass through.
    pub focus_policy: FocusPolicy,
    /// Where the element stands relative to its parent.
    pub transform: Transform,
    /// Where the element stands in the window.
    pub global_transform: GlobalTransform,
    /// Whether the element is shown.
    pub visibility: Visibility,
    /// Whether it is shown, ancestors considered.
    pub inherited_visibility: InheritedVisibility,
    /// Whether it is shown in some view.
    pub view_visibility: ViewVisibility,
    /// The stacking order.
    pub z_index: ZIndex,
    /// The fill colour.
    pub background_color: BackgroundColor,
}

/// A piece of text as a mathematical value.
#[verifier::ext_equal]
pub ghost struct TextBundleView {
    pub node: Node,
    pub style: StyleView,
    pub text: TextView,
    pub text_layout_info: TextLayoutInfoView,
    pub focus_policy: FocusPolicy,
    pub transform: Transform,
    pub global_transform: GlobalTransform,
    pub visibility: Visibility,
    pub inherited_visibility: InheritedVisibility,
    pub view_visibility: ViewVisibility,
    pub z_index: ZIndex,
    pub background_color: BackgroundColor,
}

impl View for TextBundle {
    type V = TextBundleView;

    open spec fn view(&self) -> TextBundleView {
        TextBundleView {
            node: self.node,
            style: self.style@,
            text: self.text@,
            text_layout_info: self.text_layout_info@,
            focus_policy: self.focus_policy,
            transform: self.transform,
            global_transform: self.global_transform,
            visibility: self.visibility,
            inherited_visibility: self.inherited_visibility,
            view_visibility: self.view_visibility,
            z_index: self.z_index,
            background_color: self.background_color,
        }
    }
}

impl Default for TextBundle {
    fn default() -> (r: TextBundle)
        ensures
            r@ == TextBundleView::default_record(),
    {
        TextBundle {
            node: Node::default(),
            style: Style::default(),
            text: Text::default(),
            text_layout_info: TextLayoutInfo::default(),
            focus_policy: FocusPolicy::Pass,
            transform: Transform::default(),
            global_transform: GlobalTransform::default(),
            visibility: Visibility::Inherited,
            inherited_visibility: InheritedVisibility(false),
            view_visibility: ViewVisibility(false),
            z_index: ZIndex::Local(0),
            background_color: BackgroundColor(Color { red: 0, green: 0, blue: 0, alpha: 0 }),
        }
    }
}

impl Clone for TextBundle {
    fn clone(&self) -> (r: TextBundle)
        ensures
            r@ == self@,
    {
        TextBundle {
            node: self.node,
            style: self.style.clone(),
            text: self.text.clone(),
            text_layout_info: self.text_layout_info.clone(),
            focus_policy: self.focus_policy,
            transform: self.transform,
            global_transform: self.global_transform,
            visibility: self.visibility,
            inherited_visibility: self.inherited_visibility,
            view_visibility: self.view_visibility,
            z_index: self.z_index,
            background_color: self.background_color,
        }
    }
}

impl TextBundleView {
    /// The piece of text before any class has touched it: no runs, a
    /// transparent background, every other attribute at the default of its
    /// type. Transparent is not the colour that stands for "not set": a
    /// fragment that starts from this text sets it when it is merged.
    pub open spec fn default_record() -> TextBundleView {
        TextBundleView {
            node: Node::blank(),
            style: StyleView::default_record(),
            text: TextView::default_record(),
            text_layout_info: TextLayoutInfoView::default_record(),
            focus_policy: FocusPolicy::Pass,
            transform: Transform::unset(),
            global_transform: GlobalTransform::unset(),
            visibility: Visibility::Inherited,
            inherited_visibility: InheritedVisibility(false),
            view_visibility: ViewVisibility(false),
            z_index: ZIndex::Local(0),
            background_color: BackgroundColor(Color::none()),
        }
    }

    /// The merge of two pieces of text, attribute by attribute; the layout
    /// record, the text and the computed layout inside are merged field by
    /// field.
    pub open spec fn overlay(patch: TextBundleView, onto: TextBundleView) -> TextBundleView {
        TextBundleView {
            node: pick_node(onto.node, patch.node),
            style: StyleView::overlay(patch.style, onto.style),
            text: TextView::overlay(patch.text, onto.text),
            text_layout_info: TextLayoutInfoView::overlay(
                patch.text_layout_info,
                onto.text_layout_info,
            ),
            focus_policy: pick(onto.focus_policy, patch.focus_policy),
            transform: pick(onto.transform, patch.transform),
            global_transform: pick(onto.global_transform, patch.global_transform),
            visibility: pick(onto.visibility, patch.visibility),
            inherited_visibility: pick(onto.inherited_visibility, patch.inherited_visibility),
            view_visibility: pick(onto.view_visibility, patch.view_visibility),
            z_index: pick(onto.z_index, patch.z_index),
            background_color: pick(onto.background_color, patch.background_color),
        }
    }
}

} // verus!
