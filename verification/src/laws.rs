//! What holds of the merge and of the cascade, whatever the values.

use vstd::prelude::*;
use crate::bundle::{
    ButtonBundle, ButtonBundleView, NodeBundle, NodeBundleView, TextBundle, TextBundleView,
};
use crate::css::{
    folded_button, folded_node, folded_text, resolved_button, resolved_node, resolved_style,
    resolved_text, Class, Classes, CSS,
};
use crate::layout::{Style, StyleField, StyleView};
use crate::color::Color;
use crate::paint::{BackgroundColor, BorderColor, Handle, TextView, UiImage};
use crate::replace::{pick, pick_seq, Replaceable};
use crate::responsive::{lemma_one_breakpoint, MEDIUM, WIDE};
use crate::units::{Milli, UiRect, Val};

verus! {

/// One field, merged twice: a patch that sets the field decides it,
/// whatever was merged before.
pub proof fn lemma_set_patch_wins<T: Replaceable>(base: T, earlier: T, later: T)
    requires
        later != T::unset(),
    ensures
        pick(pick(base, earlier), later) == later,
{
}

/// One field, merged twice: a patch that leaves the field unset lets the
/// earlier value through. This holds also where the author of the patch
/// meant to set the field back to its default: the merge cannot tell the
/// two apart, and the earlier value survives.
pub proof fn lemma_unset_patch_falls_through<T: Replaceable>(base: T, earlier: T, later: T)
    requires
        later == T::unset(),
    ensures
        pick(pick(base, earlier), later) == pick(base, earlier),
        earlier != T::unset() ==> pick(pick(base, earlier), later) == earlier,
{
}

/// A list-valued field is taken whole from a patch whose list is not empty,
/// and left whole by a patch whose list is empty.
pub proof fn lemma_lists_are_replaced_whole<T>(base: Seq<T>, patch: Seq<T>)
    ensures
        patch.len() > 0 ==> pick_seq(base, patch) == patch,
        patch.len() == 0 ==> pick_seq(base, patch) == base,
{
}

/// The merge of two layout records, field by field: in every field that the
/// patch sets, the result agrees with the patch.
pub proof fn lemma_overlay_takes_set_fields(patch: StyleView, onto: StyleView, field: StyleField)
    requires
        patch.sets(field),
    ensures
        StyleView::overlay(patch, onto).agrees(patch, field),
{
}

/// The merge of two layout records, field by field: in every field that the
/// patch holds at the value that stands for "not set", the result agrees
/// with the record merged into, also where the patch was meant to set the
/// field back to that very value.
pub proof fn lemma_overlay_keeps_unset_fields(patch: StyleView, onto: StyleView, field: StyleField)
    requires
        !patch.sets(field),
    ensures
        StyleView::overlay(patch, onto).agrees(onto, field),
{
}

/// A bundle is never replaced whole by a patch: the layout record inside a
/// box is merged field by field, so that a field which only the box merged
/// into sets is still set afterwards.
pub proof fn lemma_nested_records_merge_by_field(
    patch: NodeBundleView,
    onto: NodeBundleView,
    field: StyleField,
)
    ensures
        NodeBundleView::overlay(patch, onto).style == StyleView::overlay(patch.style, onto.style),
        !patch.style.sets(field) ==> NodeBundleView::overlay(patch, onto).style.agrees(
            onto.style,
            field,
        ),
        patch.style.sets(field) ==> NodeBundleView::overlay(patch, onto).style.agrees(
            patch.style,
            field,
        ),
{
}

/// Tint and texture of an image are merged apart: a patch that sets only
/// the tint leaves the texture of the image merged into, and the other way
/// round.
pub proof fn lemma_image_merges_by_field(patch: UiImage, onto: UiImage)
    ensures
        patch.texture == Handle::unset() ==> UiImage::overlay(patch, onto).texture
            == onto.texture,
        patch.color != Color::unset() ==> UiImage::overlay(patch, onto).color == patch.color,
        patch.color == Color::unset() ==> UiImage::overlay(patch, onto).color == onto.color,
        patch.texture != Handle::unset() ==> UiImage::overlay(patch, onto).texture
            == patch.texture,
{
}

/// A text whose patch has no runs keeps its runs, whatever else the patch
/// sets.
pub proof fn lemma_runs_survive_a_patch_without_runs(patch: TextView, onto: TextView)
    requires
        patch.sections.len() == 0,
    ensures
        TextView::overlay(patch, onto).sections == onto.sections,
        TextView::overlay(patch, onto).justify == pick(onto.justify, patch.justify),
{
}

/// Resolving a list with one more class at its end merges the fragment of
/// that class into what the list resolves to.
pub proof fn lemma_resolve_one_more(classes: Seq<Class>, last: Class, css: CSS)
    ensures
        resolved_style(classes.push(last), css) == StyleView::overlay(
            css.style_of(last),
            resolved_style(classes, css),
        ),
{
    assert(classes.push(last).drop_last() =~= classes);
}

/// Resolving a list of two classes.
pub proof fn lemma_resolve_pair(a: Class, b: Class, css: CSS)
    ensures
        resolved_style(seq![a, b], css) == StyleView::overlay(
            css.style_of(b),
            StyleView::overlay(css.style_of(a), StyleView::default_record()),
        ),
{
    assert(seq![a, b] =~= Seq::<Class>::empty().push(a).push(b));
    lemma_resolve_one_more(Seq::<Class>::empty().push(a), b, css);
    lemma_resolve_one_more(Seq::<Class>::empty(), a, css);
}

/// The order of the classes decides: where two classes both set a field,
/// the list of the two resolves to the value of whichever comes last.
pub proof fn lemma_order_sensitivity(a: Class, b: Class, css: CSS, field: StyleField)
    requires
        css.style_of(a).sets(field),
        css.style_of(b).sets(field),
    ensures
        resolved_style(seq![a, b], css).agrees(css.style_of(b), field),
        resolved_style(seq![b, a], css).agrees(css.style_of(a), field),
{
    lemma_resolve_pair(a, b, css);
    lemma_resolve_pair(b, a, css);
}

/// The last class of any list decides every field that it sets.
pub proof fn lemma_last_class_wins(classes: Seq<Class>, last: Class, css: CSS, field: StyleField)
    requires
        css.style_of(last).sets(field),
    ensures
        resolved_style(classes.push(last), css).agrees(css.style_of(last), field),
{
    lemma_resolve_one_more(classes, last, css);
}

/// A field that the first of two classes sets and the second leaves unset
/// resolves to the value of the first.
pub proof fn lemma_fall_through(a: Class, b: Class, css: CSS, field: StyleField)
    requires
        css.style_of(a).sets(field),
        !css.style_of(b).sets(field),
    ensures
        resolved_style(seq![a, b], css).agrees(css.style_of(a), field),
{
    lemma_resolve_pair(a, b, css);
}

/// Merging the paint fragments of a list with one more class at its end
/// merges the fragment of that class into what the list gives.
pub proof fn lemma_fold_one_more(classes: Seq<Class>, last: Class, css: CSS)
    ensures
        folded_node(classes.push(last), css) == NodeBundleView::overlay(
            css.node_of(last),
            folded_node(classes, css),
        ),
        folded_button(classes.push(last), css) == ButtonBundleView::overlay(
            css.button_of(last),
            folded_button(classes, css),
        ),
        folded_text(classes.push(last), css) == TextBundleView::overlay(
            css.text_of(last),
            folded_text(classes, css),
        ),
{
    assert(classes.push(last).drop_last() =~= classes);
}

/// The colours, the image and the runs of text follow the last class that
/// sets them: whatever the classes before it, a fill, a border colour, a
/// tint or a texture that the last class sets, and runs that it gives, are
/// those of the resolved element. Tint and texture are decided apart.
pub proof fn lemma_last_class_paints(classes: Seq<Class>, last: Class, css: CSS)
    ensures
        css.node_of(last).background_color != BackgroundColor::unset() ==> folded_node(
            classes.push(last),
            css,
        ).background_color == css.node_of(last).background_color,
        css.node_of(last).border_color != BorderColor::unset() ==> folded_node(
            classes.push(last),
            css,
        ).border_color == css.node_of(last).border_color,
        css.button_of(last).image.color != Color::unset() ==> folded_button(
            classes.push(last),
            css,
        ).image.color == css.button_of(last).image.color,
        css.button_of(last).image.texture != Handle::unset() ==> folded_button(
            classes.push(last),
            css,
        ).image.texture == css.button_of(last).image.texture,
        css.button_of(last).border_color != BorderColor::unset() ==> folded_button(
            classes.push(last),
            css,
        ).border_color == css.button_of(last).border_color,
        css.text_of(last).text.sections.len() > 0 ==> folded_text(
            classes.push(last),
            css,
        ).text.sections == css.text_of(last).text.sections,
{
    lemma_fold_one_more(classes, last, css);
}

/// What the last class leaves unset among the colours, the image and the
/// runs of text stays as the classes before it resolved it.
pub proof fn lemma_unset_paint_falls_through(classes: Seq<Class>, last: Class, css: CSS)
    ensures
        css.node_of(last).background_color == BackgroundColor::unset() ==> folded_node(
            classes.push(last),
            css,
        ).background_color == folded_node(classes, css).background_color,
        css.node_of(last).border_color == BorderColor::unset() ==> folded_node(
            classes.push(last),
            css,
        ).border_color == folded_node(classes, css).border_color,
        css.button_of(last).image.color == Color::unset() ==> folded_button(
            classes.push(last),
            css,
        ).image.color == folded_button(classes, css).image.color,
        css.button_of(last).image.texture == Handle::unset() ==> folded_button(
            classes.push(last),
            css,
        ).image.texture == folded_button(classes, css).image.texture,
        css.button_of(last).border_color == BorderColor::unset() ==> folded_button(
            classes.push(last),
            css,
        ).border_color == folded_button(classes, css).border_color,
        css.text_of(last).text.sections.len() == 0 ==> folded_text(
            classes.push(last),
            css,
        ).text.sections == folded_text(classes, css).text.sections,
{
    lemma_fold_one_more(classes, last, css);
}

/// A field that the last class of any list leaves unset resolves as the
/// list without that class resolves it.
pub proof fn lemma_unset_field_falls_through(
    classes: Seq<Class>,
    last: Class,
    css: CSS,
    field: StyleField,
)
    requires
        !css.style_of(last).sets(field),
    ensures
        resolved_style(classes.push(last), css).agrees(resolved_style(classes, css), field),
{
    lemma_resolve_one_more(classes, last, css);
}

/// An element without classes resolves to the default records.
pub proof fn lemma_empty_list_identity(css: CSS)
    ensures
        resolved_style(Seq::empty(), css) == StyleView::default_record(),
        resolved_node(Seq::empty(), css) == NodeBundleView::default_record(),
        resolved_button(Seq::empty(), css) == ButtonBundleView::default_record(),
        folded_text(Seq::empty(), css) == TextBundleView::default_record(),
{
    assert(resolved_node(Seq::empty(), css) =~= NodeBundleView::default_record());
    assert(resolved_button(Seq::empty(), css) =~= ButtonBundleView::default_record());
}

/// Resolution is a function of the class list and the variables alone:
/// whatever two resolutions of the same list under the same variables
/// return, the two layout records hold the same values.
pub proof fn lemma_resolution_is_pure(classes: Classes, css: CSS, first: Style, second: Style)
    requires
        first@ == resolved_style(classes.0@, css),
        second@ == resolved_style(classes.0@, css),
    ensures
        first@ == second@,
{
}

/// The same of the paint records of a box, a button and a piece of text.
pub proof fn lemma_paint_resolution_is_pure(
    classes: Classes,
    css: CSS,
    text: Seq<char>,
    first: (NodeBundle, ButtonBundle, TextBundle),
    second: (NodeBundle, ButtonBundle, TextBundle),
)
    requires
        first.0@ == resolved_node(classes.0@, css),
        second.0@ == resolved_node(classes.0@, css),
        first.1@ == resolved_button(classes.0@, css),
        second.1@ == resolved_button(classes.0@, css),
        first.2@ == resolved_text(classes.0@, css, text),
        second.2@ == resolved_text(classes.0@, css, text),
    ensures
        first.0@ == second.0@,
        first.1@ == second.1@,
        first.2@ == second.2@,
{
}

/// A variable with one breakpoint takes its wide value from the breakpoint
/// on, the breakpoint included, and its narrow value below.
pub proof fn lemma_breakpoint_boundaries(css: CSS, width: Milli)
    ensures
        width >= WIDE ==> css.at_width(width).logo_height == Val::Px(40_000),
        width < WIDE ==> css.at_width(width).logo_height == Val::Px(28_000),
        width >= WIDE ==> css.at_width(width).header_height == Val::Px(72_000),
        width < WIDE ==> css.at_width(width).header_height == Val::Px(60_000),
        width >= MEDIUM ==> css.at_width(width).github_img_height == Val::Px(35_000),
        width < MEDIUM ==> css.at_width(width).github_img_height == Val::Px(30_000),
        width >= WIDE ==> css.at_width(width).header_padding == (UiRect {
            left: Val::Px(16_000),
            right: Val::Px(16_000),
            top: Val::Px(0),
            bottom: Val::Px(0),
        }),
        width < WIDE ==> css.at_width(width).header_padding == (UiRect {
            right: Val::Px(8_000),
            ..UiRect::unset()
        }),
{
    lemma_one_breakpoint(WIDE, Val::Px(40_000), Val::Px(28_000), width);
    lemma_one_breakpoint(WIDE, Val::Px(72_000), Val::Px(60_000), width);
    lemma_one_breakpoint(MEDIUM, Val::Px(35_000), Val::Px(30_000), width);
    lemma_one_breakpoint(
        WIDE,
        UiRect { left: Val::Px(16_000), right: Val::Px(16_000), top: Val::Px(0), bottom: Val::Px(0) },
        UiRect { right: Val::Px(8_000), ..UiRect::unset() },
        width,
    );
}

} // verus!
