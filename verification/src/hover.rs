//! What the pointer changes: the cursor over links, and the colour of a menu
//! link's text.

use vstd::prelude::*;
use crate::color::Color;
use crate::css::{Class, Classes};
use crate::paint::Interaction;

verus! {

/// The shape of the pointer.
#[derive(Clone, Copy, Debug, PartialEq, Eq, Structural)]
pub enum CursorIcon {
    /// The arrow.
    Default,
    /// The hand that points at a link.
    Pointer,
}

/// Whether the pointer is over the element or presses it.
pub open spec fn is_active(interaction: Interaction) -> bool {
    interaction == Interaction::Hovered || interaction == Interaction::Pressed
}

/// The cursor that a batch of changed link interactions calls for. The
/// interactions are not handled one by one, since leaving one link and
/// entering the next may be reported in either order: if any link at all is
/// hovered or pressed the cursor is the pointing hand; if links changed and
/// none is, it is the arrow; an empty batch changes nothing.
pub fn a_hover(interactions: &Vec<Interaction>) -> (r: Option<CursorIcon>)
    ensures
        r == (if exists|i: int| 0 <= i < interactions@.len() && is_active(interactions@[i]) {
            Some(CursorIcon::Pointer)
        } else if interactions@.len() > 0 {
            Some(CursorIcon::Default)
        } else {
            None
        }),
{
    let mut i: usize = 0;
    while i < interactions.len()
        invariant
            i <= interactions.len(),
            forall|j: int| 0 <= j < i ==> !is_active(interactions@[j]),
        decreases interactions.len() - i,
    {
        match interactions[i] {
            Interaction::Hovered | Interaction::Pressed => {
                assert(is_active(interactions@[i as int]));
                return Some(CursorIcon::Pointer);
            },
            Interaction::Idle => {},
        }
        i += 1;
    }
    if interactions.len() > 0 {
        Some(CursorIcon::Default)
    } else {
        None
    }
}

/// Whether `class` is among the classes.
pub fn has_class(classes: &Classes, class: Class) -> (b: bool)
    ensures
        b == classes.0@.contains(class),
{
    let mut i: usize = 0;
    while i < classes.0.len()
        invariant
            i <= classes.0.len(),
            forall|j: int| 0 <= j < i ==> classes.0@[j] != class,
        decreases classes.0.len() - i,
    {
        if classes.0[i] == class {
            return true;
        }
        i += 1;
    }
    false
}

/// The colour that the text of an element takes when the pointer's dealings
/// with the element change: none unless the element is a link of the main
/// menu; a light blue while such a link is hovered or pressed; the colour of
/// the link at rest otherwise.
pub fn main_menu_link_hover(classes: &Classes, interaction: Interaction) -> (r: Option<Color>)
    ensures
        r == (if !classes.0@.contains(Class::MainMenuLink) {
            None
        } else if is_active(interaction) {
            Some(Color::opaque(0xb1, 0xd9, 0xff))
        } else {
            Some(Color::opaque(0xec, 0xec, 0xec))
        }),
{
    if !has_class(classes, Class::MainMenuLink) {
        return None;
    }
    match interaction {
        Interaction::Hovered | Interaction::Pressed => Some(crate::css::link_text_hovered()),
        Interaction::Idle => Some(crate::css::link_text()),
    }
}

} // verus!
