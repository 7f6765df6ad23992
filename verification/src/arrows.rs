//! Arrow icons: a small catalog category whose identifiers resolve to
//! bundled asset paths.

use vstd::prelude::*;

verus! {

/// Arrow icon identifiers.
#[derive(Debug, Clone, Copy, PartialEq, Eq)]
pub enum Icon {
    /// `arrow-up-s-line`
    ArrowUpSLine,
    /// `arrow-down-s-line`
    ArrowDownSLine,
    /// `arrow-left-s-line`
    ArrowLeftSLine,
    /// `arrow-right-s-line`
    ArrowRightSLine,
}

impl crate::RemixIcon for Icon {
    open spec fn spec_path(&self) -> Seq<char> {
        match self {
            Icon::ArrowUpSLine => "icons/arrows/arrow-up-s-line.svg"@,
            Icon::ArrowDownSLine => "icons/arrows/arrow-down-s-line.svg"@,
            Icon::ArrowLeftSLine => "icons/arrows/arrow-left-s-line.svg"@,
            Icon::ArrowRightSLine => "icons/arrows/arrow-right-s-line.svg"@,
        }
    }

    fn path(self) -> (r: String) {
        match self {
            Icon::ArrowUpSLine => String::from_str("icons/arrows/arrow-up-s-line.svg"),
            Icon::ArrowDownSLine => String::from_str("icons/arrows/arrow-down-s-line.svg"),
            Icon::ArrowLeftSLine => String::from_str("icons/arrows/arrow-left-s-line.svg"),
            Icon::ArrowRightSLine => String::from_str("icons/arrows/arrow-right-s-line.svg"),
        }
    }
}

} // verus!
