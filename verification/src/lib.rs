//! RemixIcon icons for a GPUI-style renderer.
//!
//! The crate models an icon element: a value built from a catalog identifier
//! (or a raw asset path) together with style overrides (size, color, rotation,
//! box styling), and the resolution of that value into a single vector-graphic
//! node. Resolution is a pure function of the element's fields plus two
//! ambient inputs supplied by the surrounding render context: the current text
//! color and the current text font size.

use vstd::prelude::*;

pub mod arrows;
pub mod assets;
pub mod icon;

pub use icon::Hsla;
pub use icon::Icon;
pub use icon::IconNamed;
pub use icon::Pixels;
pub use icon::Radians;
pub use icon::Sizable;
pub use icon::Size;
pub use icon::StyleRefinement;
pub use icon::SvgNode;
pub use icon::Transformation;

verus! {

/// Trait for types that can be used as RemixIcon names.
///
/// Each catalog identifier resolves to exactly one asset path; `spec_path`
/// is that path as a mathematical value, and `path` produces it.
pub trait RemixIcon: Sized {
    /// The asset path this icon resolves to.
    spec fn spec_path(&self) -> Seq<char>;

    /// Returns the asset path for this icon.
    fn path(self) -> (r: String)
        ensures
            r@ == self.spec_path(),
    ;
}

} // verus!
