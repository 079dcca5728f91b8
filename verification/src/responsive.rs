//! The variables of the style sheet that depend on the width of the window,
//! and the step that sets them anew after a resize.

use vstd::prelude::*;
use crate::css::{scale, scaled, CSS};
use crate::units::{Milli, UiRect, Val};
use crate::replace::Replaceable;

verus! {

/// Reads a breakpoint table: the rows are `(least width, value)`, the
/// widest first; the first row whose least width the window reaches gives
/// the value, and `fallback` is the value of a window narrower than all.
pub open spec fn first_match<T>(table: Seq<(Milli, T)>, fallback: T, width: Milli) -> T
    decreases table.len(),
{
    if table.len() == 0 {
        fallback
    } else if width >= table[0].0 {
        table[0].1
    } else {
        first_match(table.drop_first(), fallback, width)
    }
}

/// The width from which the wide layout of the bar applies.
pub const WIDE: Milli = 992_000;

/// The width from which the message beside the logo is set largest.
pub const LARGE: Milli = 1_200_000;

/// The width from which the message is set in its middle size.
pub const MEDIUM: Milli = 768_000;

/// The width from which the message is shown at all.
pub const SMALL: Milli = 550_000;

impl CSS {
    /// The variables for a window of the given width. The font of the page is
    /// kept; everything else depends on the width alone.
    pub open spec fn at_width(self, width: Milli) -> CSS {
        CSS {
            rem: 19_500,
            header_message_font_size: first_match(
                seq![(LARGE, 25_350i32), (MEDIUM, 24_960i32), (SMALL, 21_840i32)],
                0i32,
                width,
            ),
            logo_height: first_match(seq![(WIDE, Val::Px(40_000))], Val::Px(28_000), width),
            header_height: first_match(seq![(WIDE, Val::Px(72_000))], Val::Px(60_000), width),
            header_padding: first_match(
                seq![
                    (
                        WIDE,
                        UiRect {
                            left: Val::Px(16_000),
                            right: Val::Px(16_000),
                            top: Val::Px(0),
                            bottom: Val::Px(0),
                        },
                    ),
                ],
                UiRect { right: Val::Px(8_000), ..UiRect::unset() },
                width,
            ),
            fira_sans: self.fira_sans,
            github_img_height: first_match(
                seq![(MEDIUM, Val::Px(35_000))],
                Val::Px(30_000),
                width,
            ),
        }
    }
}

/// A table of one row: its value from the row's width on, the fallback
/// below it. The boundary itself belongs to the row.
pub proof fn lemma_one_breakpoint<T>(least: Milli, value: T, fallback: T, width: Milli)
    ensures
        width >= least ==> first_match(seq![(least, value)], fallback, width) == value,
        width < least ==> first_match(seq![(least, value)], fallback, width) == fallback,
{
    let table = seq![(least, value)];
    assert(table.len() == 1);
    assert(table[0] == (least, value));
    assert(table.drop_first().len() == 0);
    reveal_with_fuel(first_match, 2);
}

/// A table of three rows, the widest first: each row's value from its width
/// up to the row before it, the fallback below the last.
pub proof fn lemma_three_breakpoints<T>(
    first: (Milli, T),
    second: (Milli, T),
    third: (Milli, T),
    fallback: T,
    width: Milli,
)
    ensures
        first_match(seq![first, second, third], fallback, width) == (if width >= first.0 {
            first.1
        } else if width >= second.0 {
            second.1
        } else if width >= third.0 {
            third.1
        } else {
            fallback
        }),
{
    let table = seq![first, second, third];
    assert(table.len() == 3 && table[0] == first);
    let rest = table.drop_first();
    assert(rest.len() == 2 && rest[0] == second);
    let last = rest.drop_first();
    assert(last.len() == 1 && last[0] == third);
    assert(last.drop_first().len() == 0);
    reveal_with_fuel(first_match, 4);
}

/// Whether the variables are up to date with the window.
#[derive(Clone, Copy, Debug, PartialEq, Eq, Structural)]
pub enum Refresh {
    /// No resize has been observed since the variables were last set.
    Idle,
    /// A resize has been observed and not yet served.
    Recomputing,
}

impl Refresh {
    /// The state after a batch of resize notifications has come in: a batch
    /// that is not empty leaves a resize to serve; an empty one changes
    /// nothing.
    pub fn observe(self, notifications: usize) -> (r: Refresh)
        ensures
            r == (if notifications > 0 {
                Refresh::Recomputing
            } else {
                self
            }),
    {
        if notifications > 0 {
            Refresh::Recomputing
        } else {
            self
        }
    }
}

/// The step of every tick. While idle it leaves the variables as they are.
/// With a resize to serve it sets every variable that depends on the width
/// anew, for a window `width` wide, at once and without regard to the width
/// before; this serves the whole batch. Either way the next state is idle.
pub fn recalculate(css: &mut CSS, state: Refresh, width: Milli) -> (next: Refresh)
    ensures
        next == Refresh::Idle,
        state == Refresh::Idle ==> *final(css) == *old(css),
        state == Refresh::Recomputing ==> *final(css) == old(css).at_width(width),
{
    if state == Refresh::Idle {
        return Refresh::Idle;
    }
    css.rem = 19_500;

    css.logo_height = if width >= WIDE {
        Val::Px(40_000)
    } else {
        Val::Px(28_000)
    };

    css.header_height = if width >= WIDE {
        Val::Px(72_000)
    } else {
        Val::Px(60_000)
    };

    css.header_message_font_size = if width >= LARGE {
        scale(1_300, css.rem)
    } else if width >= MEDIUM {
        scale(1_280, css.rem)
    } else if width >= SMALL {
        scale(scale(875, 1_280), css.rem)
    } else {
        // a size of zero stands for a message that is not shown
        0
    };

    css.header_padding = if width >= WIDE {
        UiRect::px(16_000, 16_000, 0, 0)
    } else {
        UiRect::right(Val::Px(8_000))
    };

    css.github_img_height = if width >= MEDIUM {
        Val::Px(35_000)
    } else {
        Val::Px(30_000)
    };

    proof {
        assert(scaled(1_300, 19_500) == 25_350);
        assert(scaled(1_280, 19_500) == 24_960);
        assert(scaled(875, 1_280) == 1_120);
        assert(scaled(1_120, 19_500) == 21_840);
        lemma_three_breakpoints((LARGE, 25_350i32), (MEDIUM, 24_960i32), (SMALL, 21_840i32), 0i32, width);
        lemma_one_breakpoint(WIDE, Val::Px(40_000), Val::Px(28_000), width);
        lemma_one_breakpoint(WIDE, Val::Px(72_000), Val::Px(60_000), width);
        lemma_one_breakpoint(
            WIDE,
            UiRect {
                left: Val::Px(16_000),
                right: Val::Px(16_000),
                top: Val::Px(0),
                bottom: Val::Px(0),
            },
            UiRect { right: Val::Px(8_000), ..UiRect::unset() },
            width,
        );
        lemma_one_breakpoint(MEDIUM, Val::Px(35_000), Val::Px(30_000), width);
    }
    Refresh::Idle
}

} // verus!
