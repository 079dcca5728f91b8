//! A small style-cascade engine: class-based style fragments are merged, in
//! class-list order, into one resolved layout record and one resolved paint
//! record per user-interface element.
//!
//! A fragment has no way to say "this field is not set": a field counts as
//! unset exactly when it holds the default of its type. The merge therefore
//! cannot set a field back to its default; [`laws`] states this among the
//! properties of the merge.
//!
//! All lengths, font sizes and scale factors are held as whole thousandths
//! (a value of `19_500` stands for 19.5), so that equality against a default
//! is exact.
//!
//! - [`replace`]: the rule for one field.
//! - [`units`], [`color`], [`layout`], [`paint`], [`bundle`]: the records.
//! - [`css`]: the variables and classes of the style sheet, the fragment of
//!   each class, and the cascade over a class list.
//! - [`responsive`]: the variables that depend on the width of the window.
//! - [`hover`]: what the pointer changes.
//! - [`patch`]: patching as a capability of a type.
//! - [`laws`]: what holds of all of it.

pub mod bundle;
pub mod color;
pub mod css;
pub mod hover;
pub mod laws;
pub mod layout;
pub mod paint;
pub mod patch;
pub mod replace;
pub mod responsive;
pub mod units;
