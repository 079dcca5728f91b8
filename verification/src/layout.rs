//! The layout record: the dense, fixed-shape aggregate of independent layout
//! fields that every element carries, and the types of its fields.

use vstd::prelude::*;
use crate::replace::{copy_list, pick, pick_seq, Replaceable};
use crate::units::{Milli, UiRect, Val};

verus! {

/// How the children of a container are placed on the cross axis.
#[derive(Clone, Copy, Debug, PartialEq, Eq, Structural)]
pub enum AlignItems {
    Default,
    Start,
    End,
    FlexStart,
    FlexEnd,
    Center,
    Baseline,
    Stretch,
}

impl Default for AlignItems {
    fn default() -> (r: AlignItems)
        ensures
            r == AlignItems::Default,
    {
        AlignItems::Default
    }
}

impl Replaceable for AlignItems {
    open spec fn unset() -> AlignItems {
        AlignItems::Default
    }

    fn is_unset(&self) -> (b: bool) {
        *self == AlignItems::Default
    }
}

/// How the children of a grid container are placed on the inline axis.
#[derive(Clone, Copy, Debug, PartialEq, Eq, Structural)]
pub enum JustifyItems {
    Default,
    Start,
    End,
    Center,
    Baseline,
    Stretch,
}

impl Default for JustifyItems {
    fn default() -> (r: JustifyItems)
        ensures
            r == JustifyItems::Default,
    {
        JustifyItems::Default
    }
}

impl Replaceable for JustifyItems {
    open spec fn unset() -> JustifyItems {
        JustifyItems::Default
    }

    fn is_unset(&self) -> (b: bool) {
        *self == JustifyItems::Default
    }
}

/// How one element is placed on the cross axis of its container.
#[derive(Clone, Copy, Debug, PartialEq, Eq, Structural)]
pub enum AlignSelf {
    Auto,
    Start,
    End,
    FlexStart,
    FlexEnd,
    Center,
    Baseline,
    Stretch,
}

impl Default for AlignSelf {
    fn default() -> (r: AlignSelf)
        ensures
            r == AlignSelf::Auto,
    {
        AlignSelf::Auto
    }
}

impl Replaceable for AlignSelf {
    open spec fn unset() -> AlignSelf {
        AlignSelf::Auto
    }

    fn is_unset(&self) -> (b: bool) {
        *self == AlignSelf::Auto
    }
}

/// How one element is placed on the inline axis of its grid cell.
#[derive(Clone, Copy, Debug, PartialEq, Eq, Structural)]
pub enum JustifySelf {
    Auto,
    Start,
    End,
    Center,
    Baseline,
    Stretch,
}

impl Default for JustifySelf {
    fn default() -> (r: JustifySelf)
        ensures
            r == JustifySelf::Auto,
    {
        JustifySelf::Auto
    }
}

impl Replaceable for JustifySelf {
    open spec fn unset() -> JustifySelf {
        JustifySelf::Auto
    }

    fn is_unset(&self) -> (b: bool) {
        *self == JustifySelf::Auto
    }
}

/// How the lines of a container are spread over the cross axis.
#[derive(Clone, Copy, Debug, PartialEq, Eq, Structural)]
pub enum AlignContent {
    Default,
    Start,
    End,
    FlexStart,
    FlexEnd,
    Center,
    Stretch,
    SpaceBetween,
    SpaceEvenly,
    SpaceAround,
}

impl Default for AlignContent {
    fn default() -> (r: AlignContent)
        ensures
            r == AlignContent::Default,
    {
        AlignContent::Default
    }
}

impl Replaceable for AlignContent {
    open spec fn unset() -> AlignContent {
        AlignContent::Default
    }

    fn is_unset(&self) -> (b: bool) {
        *self == AlignContent::Default
    }
}

/// How the children of a container are spread over the main axis.
#[derive(Clone, Copy, Debug, PartialEq, Eq, Structural)]
pub enum JustifyContent {
    Default,
    Start,
    End,
    FlexStart,
    FlexEnd,
    Center,
    Stretch,
    SpaceBetween,
    SpaceEvenly,
    SpaceAround,
}

impl Default for JustifyContent {
    fn default() -> (r: JustifyContent)
        ensures
            r == JustifyContent::Default,
    {
        JustifyContent::Default
    }
}

impl Replaceable for JustifyContent {
    open spec fn unset() -> JustifyContent {
        JustifyContent::Default
    }

    fn is_unset(&self) -> (b: bool) {
        *self == JustifyContent::Default
    }
}

/// The writing direction of an element.
#[derive(Clone, Copy, Debug, PartialEq, Eq, Structural)]
pub enum Direction {
    Inherit,
    LeftToRight,
    RightToLeft,
}

impl Default for Direction {
    fn default() -> (r: Direction)
        ensures
            r == Direction::Inherit,
    {
        Direction::Inherit
    }
}

impl Replaceable for Direction {
    open spec fn unset() -> Direction {
        Direction::Inherit
    }

    fn is_unset(&self) -> (b: bool) {
        *self == Direction::Inherit
    }
}

/// The layout algorithm of an element.
#[derive(Clone, Copy, Debug, PartialEq, Eq, Structural)]
pub enum Display {
    Flex,
    Grid,
    Block,
    Removed,
}

impl Default for Display {
    fn default() -> (r: Display)
        ensures
            r == Display::Flex,
    {
        Display::Flex
    }
}

impl Replaceable for Display {
    open spec fn unset() -> Display {
        Display::Flex
    }

    fn is_unset(&self) -> (b: bool) {
        *self == Display::Flex
    }
}

/// The main axis of a flex container.
#[derive(Clone, Copy, Debug, PartialEq, Eq, Structural)]
pub enum FlexDirection {
    Row,
    Column,
    RowReverse,
    ColumnReverse,
}

impl Default for FlexDirection {
    fn default() -> (r: FlexDirection)
        ensures
            r == FlexDirection::Row,
    {
        FlexDirection::Row
    }
}

impl Replaceable for FlexDirection {
    open spec fn unset() -> FlexDirection {
        FlexDirection::Row
    }

    fn is_unset(&self) -> (b: bool) {
        *self == FlexDirection::Row
    }
}

/// What happens to content that leaves its box along one axis.
#[derive(Clone, Copy, Debug, PartialEq, Eq, Structural)]
pub enum OverflowAxis {
    Visible,
    Clip,
    Hidden,
}

impl Default for OverflowAxis {
    fn default() -> (r: OverflowAxis)
        ensures
            r == OverflowAxis::Visible,
    {
        OverflowAxis::Visible
    }
}

impl Replaceable for OverflowAxis {
    open spec fn unset() -> OverflowAxis {
        OverflowAxis::Visible
    }

    fn is_unset(&self) -> (b: bool) {
        *self == OverflowAxis::Visible
    }
}

/// Whether an element is laid out in the flow or taken out of it.
#[derive(Clone, Copy, Debug, PartialEq, Eq, Structural)]
pub enum PositionType {
    Relative,
    Absolute,
}

impl Default for PositionType {
    fn default() -> (r: PositionType)
        ensures
            r == PositionType::Relative,
    {
        PositionType::Relative
    }
}

impl Replaceable for PositionType {
    open spec fn unset() -> PositionType {
        PositionType::Relative
    }

    fn is_unset(&self) -> (b: bool) {
        *self == PositionType::Relative
    }
}

/// Whether a flex container breaks its children into lines.
#[derive(Clone, Copy, Debug, PartialEq, Eq, Structural)]
pub enum FlexWrap {
    NoWrap,
    Wrap,
    WrapReverse,
}

impl Default for FlexWrap {
    fn default() -> (r: FlexWrap)
        ensures
            r == FlexWrap::NoWrap,
    {
        FlexWrap::NoWrap
    }
}

impl Replaceable for FlexWrap {
    open spec fn unset() -> FlexWrap {
        FlexWrap::NoWrap
    }

    fn is_unset(&self) -> (b: bool) {
        *self == FlexWrap::NoWrap
    }
}

/// How a grid places the children that name no cell.
#[derive(Clone, Copy, Debug, PartialEq, Eq, Structural)]
pub enum GridAutoFlow {
    Row,
    Column,
    RowDense,
    ColumnDense,
}

impl Default for GridAutoFlow {
    fn default() -> (r: GridAutoFlow)
        ensures
            r == GridAutoFlow::Row,
    {
        GridAutoFlow::Row
    }
}

impl Replaceable for GridAutoFlow {
    open spec fn unset() -> GridAutoFlow {
        GridAutoFlow::Row
    }

    fn is_unset(&self) -> (b: bool) {
        *self == GridAutoFlow::Row
    }
}

/// What happens to content that leaves its box, per axis.
#[derive(Clone, Copy, Debug, PartialEq, Eq, Structural)]
pub struct Overflow {
    pub x: OverflowAxis,
    pub y: OverflowAxis,
}

impl Default for Overflow {
    fn default() -> (r: Overflow)
        ensures
            r == Overflow::unset(),
    {
        Overflow { x: OverflowAxis::Visible, y: OverflowAxis::Visible }
    }
}

impl Replaceable for Overflow {
    open spec fn unset() -> Overflow {
        Overflow { x: OverflowAxis::Visible, y: OverflowAxis::Visible }
    }

    fn is_unset(&self) -> (b: bool) {
        self.x == OverflowAxis::Visible && self.y == OverflowAxis::Visible
    }
}

/// The grid lines that an element covers along one axis. A line or a span
/// that is not given is `None`; lines count from one, or from minus one at
/// the far end.
#[derive(Clone, Copy, Debug, PartialEq, Eq)]
pub struct GridPlacement {
    pub start: Option<i16>,
    pub span: Option<u16>,
    pub end: Option<i16>,
}

impl Default for GridPlacement {
    fn default() -> (r: GridPlacement)
        ensures
            r == GridPlacement::unset(),
    {
        GridPlacement { start: None, span: Some(1), end: None }
    }
}

impl Replaceable for GridPlacement {
    open spec fn unset() -> GridPlacement {
        GridPlacement { start: None, span: Some(1u16), end: None }
    }

    fn is_unset(&self) -> (b: bool) {
        let span_is_one = match self.span {
            Some(n) => n == 1,
            None => false,
        };
        self.start.is_none() && span_is_one && self.end.is_none()
    }
}

/// The least size of a grid track.
#[derive(Clone, Copy, Debug, PartialEq, Eq, Structural)]
pub enum MinTrackSizingFunction {
    Px(Milli),
    Percent(Milli),
    MinContent,
    MaxContent,
    Auto,
}

/// The greatest size of a grid track.
#[derive(Clone, Copy, Debug, PartialEq, Eq, Structural)]
pub enum MaxTrackSizingFunction {
    Px(Milli),
    Percent(Milli),
    MinContent,
    MaxContent,
    FitContentPx(Milli),
    FitContentPercent(Milli),
    Auto,
    Fraction(Milli),
}

/// One row or column of a grid.
#[derive(Clone, Copy, Debug, PartialEq, Eq, Structural)]
pub struct GridTrack {
    pub min_sizing_function: MinTrackSizingFunction,
    pub max_sizing_function: MaxTrackSizingFunction,
}

/// How often a track of a template is laid out.
#[derive(Clone, Copy, Debug, PartialEq, Eq, Structural)]
pub enum GridTrackRepetition {
    Count(u16),
    AutoFill,
    AutoFit,
}

/// One track of a grid template, with the number of times it is laid out.
#[derive(Clone, Copy, Debug, PartialEq, Eq, Structural)]
pub struct RepeatedGridTrack {
    pub repetition: GridTrackRepetition,
    pub track: GridTrack,
}

/// The layout record of one element, or the fragment of it that one class
/// contributes.
#[derive(Debug, PartialEq, Eq)]
pub struct Style {
    /// The layout algorithm.
    pub display: Display,
    /// In the flow, or out of it.
    pub position_type: PositionType,
    /// What happens to content that leaves the box.
    pub overflow: Overflow,
    /// The writing direction.
    pub direction: Direction,
    /// Distance from the left edge of the parent.
    pub left: Val,
    /// Distance from the right edge of the parent.
    pub right: Val,
    /// Distance from the top edge of the parent.
    pub top: Val,
    /// Distance from the bottom edge of the parent.
    pub bottom: Val,
    /// The wanted width.
    pub width: Val,
    /// The wanted height.
    pub height: Val,
    /// The least width.
    pub min_width: Val,
    /// The least height.
    pub min_height: Val,
    /// The greatest width.
    pub max_width: Val,
    /// The greatest height.
    pub max_height: Val,
    /// Width over height, where one is imposed.
    pub aspect_ratio: Option<Milli>,
    /// Placement of the children on the cross axis.
    pub align_items: AlignItems,
    /// Placement of the children on the inline axis.
    pub justify_items: JustifyItems,
    /// Placement of this element on the cross axis.
    pub align_self: AlignSelf,
    /// Placement of this element on the inline axis.
    pub justify_self: JustifySelf,
    /// Spreading of the lines over the cross axis.
    pub align_content: AlignContent,
    /// Spreading of the children over the main axis.
    pub justify_content: JustifyContent,
    /// Space outside the border.
    pub margin: UiRect,
    /// Space between border and content.
    pub padding: UiRect,
    /// Thickness of the border.
    pub border: UiRect,
    /// The main axis.
    pub flex_direction: FlexDirection,
    /// Whether the children break into lines.
    pub flex_wrap: FlexWrap,
    /// Share of the free space that the element takes.
    pub flex_grow: Milli,
    /// Share of the missing space that the element gives up.
    pub flex_shrink: Milli,
    /// Size along the main axis before growing and shrinking.
    pub flex_basis: Val,
    /// Space between rows.
    pub row_gap: Val,
    /// Space between columns.
    pub column_gap: Val,
    /// Placement of the children that name no cell.
    pub grid_auto_flow: GridAutoFlow,
    /// The rows of the grid.
    pub grid_template_rows: Vec<RepeatedGridTrack>,
    /// The columns of the grid.
    pub grid_template_columns: Vec<RepeatedGridTrack>,
    /// The rows that the grid adds by itself.
    pub grid_auto_rows: Vec<GridTrack>,
    /// The columns that the grid adds by itself.
    pub grid_auto_columns: Vec<GridTrack>,
    /// The rows that the element covers.
    pub grid_row: GridPlacement,
    /// The columns that the element covers.
    pub grid_column: GridPlacement,
}

/// The layout record as a mathematical value: the lists are sequences.
#[verifier::ext_equal]
pub ghost struct StyleView {
    pub display: Display,
    pub position_type: PositionType,
    pub overflow: Overflow,
    pub direction: Direction,
    pub left: Val,
    pub right: Val,
    pub top: Val,
    pub bottom: Val,
    pub width: Val,
    pub height: Val,
    pub min_width: Val,
    pub min_height: Val,
    pub max_width: Val,
    pub max_height: Val,
    pub aspect_ratio: Option<Milli>,
    pub align_items: AlignItems,
    pub justify_items: JustifyItems,
    pub align_self: AlignSelf,
    pub justify_self: JustifySelf,
    pub align_content: AlignContent,
    pub justify_content: JustifyContent,
    pub margin: UiRect,
    pub padding: UiRect,
    pub border: UiRect,
    pub flex_direction: FlexDirection,
    pub flex_wrap: FlexWrap,
    pub flex_grow: Milli,
    pub flex_shrink: Milli,
    pub flex_basis: Val,
    pub row_gap: Val,
    pub column_gap: Val,
    pub grid_auto_flow: GridAutoFlow,
    pub grid_template_rows: Seq<RepeatedGridTrack>,
    pub grid_template_columns: Seq<RepeatedGridTrack>,
    pub grid_auto_rows: Seq<GridTrack>,
    pub grid_auto_columns: Seq<GridTrack>,
    pub grid_row: GridPlacement,
    pub grid_column: GridPlacement,
}

impl View for Style {
    type V = StyleView;

    open spec fn view(&self) -> StyleView {
        StyleView {
            display: self.display,
            position_type: self.position_type,
            overflow: self.overflow,
            direction: self.direction,
            left: self.left,
            right: self.right,
            top: self.top,
            bottom: self.bottom,
            width: self.width,
            height: self.height,
            min_width: self.min_width,
            min_height: self.min_height,
            max_width: self.max_width,
            max_height: self.max_height,
            aspect_ratio: self.aspect_ratio,
            align_items: self.align_items,
            justify_items: self.justify_items,
            align_self: self.align_self,
            justify_self: self.justify_self,
            align_content: self.align_content,
            justify_content: self.justify_content,
            margin: self.margin,
            padding: self.padding,
            border: self.border,
            flex_direction: self.flex_direction,
            flex_wrap: self.flex_wrap,
            flex_grow: self.flex_grow,
            flex_shrink: self.flex_shrink,
            flex_basis: self.flex_basis,
            row_gap: self.row_gap,
            column_gap: self.column_gap,
            grid_auto_flow: self.grid_auto_flow,
            grid_template_rows: self.grid_template_rows@,
            grid_template_columns: self.grid_template_columns@,
            grid_auto_rows: self.grid_auto_rows@,
            grid_auto_columns: self.grid_auto_columns@,
            grid_row: self.grid_row,
            grid_column: self.grid_column,
        }
    }
}

impl StyleView {
    /// The record in which no class has set anything.
    pub open spec fn default_record() -> StyleView {
        StyleView {
            display: Display::Flex,
            position_type: PositionType::Relative,
            overflow: Overflow { x: OverflowAxis::Visible, y: OverflowAxis::Visible },
            direction: Direction::Inherit,
            left: Val::Auto,
            right: Val::Auto,
            top: Val::Auto,
            bottom: Val::Auto,
            width: Val::Auto,
            height: Val::Auto,
            min_width: Val::Auto,
            min_height: Val::Auto,
            max_width: Val::Auto,
            max_height: Val::Auto,
            aspect_ratio: None,
            align_items: AlignItems::Default,
            justify_items: JustifyItems::Default,
            align_self: AlignSelf::Auto,
            justify_self: JustifySelf::Auto,
            align_content: AlignContent::Default,
            justify_content: JustifyContent::Default,
            margin: UiRect { left: Val::Px(0), right: Val::Px(0), top: Val::Px(0), bottom: Val::Px(0) },
            padding: UiRect { left: Val::Px(0), right: Val::Px(0), top: Val::Px(0), bottom: Val::Px(0) },
            border: UiRect { left: Val::Px(0), right: Val::Px(0), top: Val::Px(0), bottom: Val::Px(0) },
            flex_direction: FlexDirection::Row,
            flex_wrap: FlexWrap::NoWrap,
            flex_grow: 0,
            flex_shrink: 1_000,
            flex_basis: Val::Auto,
            row_gap: Val::Px(0),
            column_gap: Val::Px(0),
            grid_auto_flow: GridAutoFlow::Row,
            grid_template_rows: Seq::empty(),
            grid_template_columns: Seq::empty(),
            grid_auto_rows: Seq::empty(),
            grid_auto_columns: Seq::empty(),
            grid_row: GridPlacement { start: None, span: Some(1), end: None },
            grid_column: GridPlacement { start: None, span: Some(1), end: None },
        }
    }

    /// The field-wise merge: each field of `patch` that is set replaces the
    /// field of `onto`; each that is unset leaves it as it was.
    pub open spec fn overlay(patch: StyleView, onto: StyleView) -> StyleView {
        StyleView {
            display: pick(onto.display, patch.display),
            position_type: pick(onto.position_type, patch.position_type),
            overflow: pick(onto.overflow, patch.overflow),
            direction: pick(onto.direction, patch.direction),
            left: pick(onto.left, patch.left),
            right: pick(onto.right, patch.right),
            top: pick(onto.top, patch.top),
            bottom: pick(onto.bottom, patch.bottom),
            width: pick(onto.width, patch.width),
            height: pick(onto.height, patch.height),
            min_width: pick(onto.min_width, patch.min_width),
            min_height: pick(onto.min_height, patch.min_height),
            max_width: pick(onto.max_width, patch.max_width),
            max_height: pick(onto.max_height, patch.max_height),
            aspect_ratio: pick(onto.aspect_ratio, patch.aspect_ratio),
            align_items: pick(onto.align_items, patch.align_items),
            justify_items: pick(onto.justify_items, patch.justify_items),
            align_self: pick(onto.align_self, patch.align_self),
            justify_self: pick(onto.justify_self, patch.justify_self),
            align_content: pick(onto.align_content, patch.align_content),
            justify_content: pick(onto.justify_content, patch.justify_content),
            margin: pick(onto.margin, patch.margin),
            padding: pick(onto.padding, patch.padding),
            border: pick(onto.border, patch.border),
            flex_direction: pick(onto.flex_direction, patch.flex_direction),
            flex_wrap: pick(onto.flex_wrap, patch.flex_wrap),
            flex_grow: pick(onto.flex_grow, patch.flex_grow),
            flex_shrink: pick(onto.flex_shrink, patch.flex_shrink),
            flex_basis: pick(onto.flex_basis, patch.flex_basis),
            row_gap: pick(onto.row_gap, patch.row_gap),
            column_gap: pick(onto.column_gap, patch.column_gap),
            grid_auto_flow: pick(onto.grid_auto_flow, patch.grid_auto_flow),
            grid_template_rows: pick_seq(onto.grid_template_rows, patch.grid_template_rows),
            grid_template_columns: pick_seq(onto.grid_template_columns, patch.grid_template_columns),
            grid_auto_rows: pick_seq(onto.grid_auto_rows, patch.grid_auto_rows),
            grid_auto_columns: pick_seq(onto.grid_auto_columns, patch.grid_auto_columns),
            grid_row: pick(onto.grid_row, patch.grid_row),
            grid_column: pick(onto.grid_column, patch.grid_column),
        }
    }
}

impl Default for Style {
    fn default() -> (r: Style)
        ensures
            r@ == StyleView::default_record(),
    {
        Style {
            display: Display::Flex,
            position_type: PositionType::Relative,
            overflow: Overflow { x: OverflowAxis::Visible, y: OverflowAxis::Visible },
            direction: Direction::Inherit,
            left: Val::Auto,
            right: Val::Auto,
            top: Val::Auto,
            bottom: Val::Auto,
            width: Val::Auto,
            height: Val::Auto,
            min_width: Val::Auto,
            min_height: Val::Auto,
            max_width: Val::Auto,
            max_height: Val::Auto,
            aspect_ratio: None,
            align_items: AlignItems::Default,
            justify_items: JustifyItems::Default,
            align_self: AlignSelf::Auto,
            justify_self: JustifySelf::Auto,
            align_content: AlignContent::Default,
            justify_content: JustifyContent::Default,
            margin: UiRect { left: Val::Px(0), right: Val::Px(0), top: Val::Px(0), bottom: Val::Px(0) },
            padding: UiRect { left: Val::Px(0), right: Val::Px(0), top: Val::Px(0), bottom: Val::Px(0) },
            border: UiRect { left: Val::Px(0), right: Val::Px(0), top: Val::Px(0), bottom: Val::Px(0) },
            flex_direction: FlexDirection::Row,
            flex_wrap: FlexWrap::NoWrap,
            flex_grow: 0,
            flex_shrink: 1_000,
            flex_basis: Val::Auto,
            row_gap: Val::Px(0),
            column_gap: Val::Px(0),
            grid_auto_flow: GridAutoFlow::Row,
            grid_template_rows: Vec::new(),
            grid_template_columns: Vec::new(),
            grid_auto_rows: Vec::new(),
            grid_auto_columns: Vec::new(),
            grid_row: GridPlacement { start: None, span: Some(1), end: None },
            grid_column: GridPlacement { start: None, span: Some(1), end: None },
        }
    }
}

impl Clone for Style {
    fn clone(&self) -> (r: Style)
        ensures
            r@ == self@,
    {
        Style {
            display: self.display,
            position_type: self.position_type,
            overflow: self.overflow,
            direction: self.direction,
            left: self.left,
            right: self.right,
            top: self.top,
            bottom: self.bottom,
            width: self.width,
            height: self.height,
            min_width: self.min_width,
            min_height: self.min_height,
            max_width: self.max_width,
            max_height: self.max_height,
            aspect_ratio: self.aspect_ratio,
            align_items: self.align_items,
            justify_items: self.justify_items,
            align_self: self.align_self,
            justify_self: self.justify_self,
            align_content: self.align_content,
            justify_content: self.justify_content,
            margin: self.margin,
            padding: self.padding,
            border: self.border,
            flex_direction: self.flex_direction,
            flex_wrap: self.flex_wrap,
            flex_grow: self.flex_grow,
            flex_shrink: self.flex_shrink,
            flex_basis: self.flex_basis,
            row_gap: self.row_gap,
            column_gap: self.column_gap,
            grid_auto_flow: self.grid_auto_flow,
            grid_template_rows: copy_list(&self.grid_template_rows),
            grid_template_columns: copy_list(&self.grid_template_columns),
            grid_auto_rows: copy_list(&self.grid_auto_rows),
            grid_auto_columns: copy_list(&self.grid_auto_columns),
            grid_row: self.grid_row,
            grid_column: self.grid_column,
        }
    }
}

/// The fields of the layout record, by name.
#[derive(Clone, Copy, Debug, PartialEq, Eq)]
pub enum StyleField {
    Display,
    PositionType,
    Overflow,
    Direction,
    Left,
    Right,
    Top,
    Bottom,
    Width,
    Height,
    MinWidth,
    MinHeight,
    MaxWidth,
    MaxHeight,
    AspectRatio,
    AlignItems,
    JustifyItems,
    AlignSelf,
    JustifySelf,
    AlignContent,
    JustifyContent,
    Margin,
    Padding,
    Border,
    FlexDirection,
    FlexWrap,
    FlexGrow,
    FlexShrink,
    FlexBasis,
    RowGap,
    ColumnGap,
    GridAutoFlow,
    GridTemplateRows,
    GridTemplateColumns,
    GridAutoRows,
    GridAutoColumns,
    GridRow,
    GridColumn,
}

impl StyleView {
    /// Whether the fragment sets the field: whether it differs from the
    /// value that stands for "not set".
    pub open spec fn sets(self, field: StyleField) -> bool {
        match field {
            StyleField::Display => self.display != <Display as Replaceable>::unset(),
            StyleField::PositionType => self.position_type != <PositionType as Replaceable>::unset(),
            StyleField::Overflow => self.overflow != <Overflow as Replaceable>::unset(),
            StyleField::Direction => self.direction != <Direction as Replaceable>::unset(),
            StyleField::Left => self.left != <Val as Replaceable>::unset(),
            StyleField::Right => self.right != <Val as Replaceable>::unset(),
            StyleField::Top => self.top != <Val as Replaceable>::unset(),
            StyleField::Bottom => self.bottom != <Val as Replaceable>::unset(),
            StyleField::Width => self.width != <Val as Replaceable>::unset(),
            StyleField::Height => self.height != <Val as Replaceable>::unset(),
            StyleField::MinWidth => self.min_width != <Val as Replaceable>::unset(),
            StyleField::MinHeight => self.min_height != <Val as Replaceable>::unset(),
            StyleField::MaxWidth => self.max_width != <Val as Replaceable>::unset(),
            StyleField::MaxHeight => self.max_height != <Val as Replaceable>::unset(),
            StyleField::AspectRatio => self.aspect_ratio != <Option<Milli> as Replaceable>::unset(),
            StyleField::AlignItems => self.align_items != <AlignItems as Replaceable>::unset(),
            StyleField::JustifyItems => self.justify_items != <JustifyItems as Replaceable>::unset(),
            StyleField::AlignSelf => self.align_self != <AlignSelf as Replaceable>::unset(),
            StyleField::JustifySelf => self.justify_self != <JustifySelf as Replaceable>::unset(),
            StyleField::AlignContent => self.align_content != <AlignContent as Replaceable>::unset(),
            StyleField::JustifyContent => self.justify_content != <JustifyContent as Replaceable>::unset(),
            StyleField::Margin => self.margin != <UiRect as Replaceable>::unset(),
            StyleField::Padding => self.padding != <UiRect as Replaceable>::unset(),
            StyleField::Border => self.border != <UiRect as Replaceable>::unset(),
            StyleField::FlexDirection => self.flex_direction != <FlexDirection as Replaceable>::unset(),
            StyleField::FlexWrap => self.flex_wrap != <FlexWrap as Replaceable>::unset(),
            StyleField::FlexGrow => self.flex_grow != <Milli as Replaceable>::unset(),
            StyleField::FlexShrink => self.flex_shrink != <Milli as Replaceable>::unset(),
            StyleField::FlexBasis => self.flex_basis != <Val as Replaceable>::unset(),
            StyleField::RowGap => self.row_gap != <Val as Replaceable>::unset(),
            StyleField::ColumnGap => self.column_gap != <Val as Replaceable>::unset(),
            StyleField::GridAutoFlow => self.grid_auto_flow != <GridAutoFlow as Replaceable>::unset(),
            StyleField::GridTemplateRows => self.grid_template_rows.len() != 0,
            StyleField::GridTemplateColumns => self.grid_template_columns.len() != 0,
            StyleField::GridAutoRows => self.grid_auto_rows.len() != 0,
            StyleField::GridAutoColumns => self.grid_auto_columns.len() != 0,
            StyleField::GridRow => self.grid_row != <GridPlacement as Replaceable>::unset(),
            StyleField::GridColumn => self.grid_column != <GridPlacement as Replaceable>::unset(),
        }
    }

    /// Whether two records hold the same value in the field.
    pub open spec fn agrees(self, other: StyleView, field: StyleField) -> bool {
        match field {
            StyleField::Display => self.display == other.display,
            StyleField::PositionType => self.position_type == other.position_type,
            StyleField::Overflow => self.overflow == other.overflow,
            StyleField::Direction => self.direction == other.direction,
            StyleField::Left => self.left == other.left,
            StyleField::Right => self.right == other.right,
            StyleField::Top => self.top == other.top,
            StyleField::Bottom => self.bottom == other.bottom,
            StyleField::Width => self.width == other.width,
            StyleField::Height => self.height == other.height,
            StyleField::MinWidth => self.min_width == other.min_width,
            StyleField::MinHeight => self.min_height == other.min_height,
            StyleField::MaxWidth => self.max_width == other.max_width,
            StyleField::MaxHeight => self.max_height == other.max_height,
            StyleField::AspectRatio => self.aspect_ratio == other.aspect_ratio,
            StyleField::AlignItems => self.align_items == other.align_items,
            StyleField::JustifyItems => self.justify_items == other.justify_items,
            StyleField::AlignSelf => self.align_self == other.align_self,
            StyleField::JustifySelf => self.justify_self == other.justify_self,
            StyleField::AlignContent => self.align_content == other.align_content,
            StyleField::JustifyContent => self.justify_content == other.justify_content,
            StyleField::Margin => self.margin == other.margin,
            StyleField::Padding => self.padding == other.padding,
            StyleField::Border => self.border == other.border,
            StyleField::FlexDirection => self.flex_direction == other.flex_direction,
            StyleField::FlexWrap => self.flex_wrap == other.flex_wrap,
            StyleField::FlexGrow => self.flex_grow == other.flex_grow,
            StyleField::FlexShrink => self.flex_shrink == other.flex_shrink,
            StyleField::FlexBasis => self.flex_basis == other.flex_basis,
            StyleField::RowGap => self.row_gap == other.row_gap,
            StyleField::ColumnGap => self.column_gap == other.column_gap,
            StyleField::GridAutoFlow => self.grid_auto_flow == other.grid_auto_flow,
            StyleField::GridTemplateRows => self.grid_template_rows == other.grid_template_rows,
            StyleField::GridTemplateColumns => self.grid_template_columns == other.grid_template_columns,
            StyleField::GridAutoRows => self.grid_auto_rows == other.grid_auto_rows,
            StyleField::GridAutoColumns => self.grid_auto_columns == other.grid_auto_columns,
            StyleField::GridRow => self.grid_row == other.grid_row,
            StyleField::GridColumn => self.grid_column == other.grid_column,
        }
    }
}

} // verus!
