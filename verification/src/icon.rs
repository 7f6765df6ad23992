//! The icon element: construction from a catalog identifier or raw path,
//! style configuration, and resolution into a single vector-graphic node.

use vstd::prelude::*;

verus! {

/// A pixel length in fixed point: thousandths of a pixel, so fractional
/// sizes (for example 14.5px, stored as 14_500) are exact values.
#[derive(Debug, Clone, Copy, PartialEq, Eq)]
pub struct Pixels {
    /// Thousandths of a pixel.
    pub thousandths: i64,
}

impl Pixels {
    /// A whole-pixel length.
    pub fn px(n: i64) -> (r: Pixels)
        requires
            -9_000_000_000_000_000 <= n <= 9_000_000_000_000_000,
        ensures
            r.thousandths == n * 1000,
    {
        Pixels { thousandths: n * 1000 }
    }
}

/// A color in HSL space with alpha. Components are in ten-thousandths of
/// full scale (0 ..= 10_000 stands for 0.0 ..= 1.0); the element never
/// inspects them, it only stores and forwards the value.
#[derive(Debug, Clone, Copy, PartialEq, Eq)]
pub struct Hsla {
    /// Hue, in ten-thousandths of a turn.
    pub h: u16,
    /// Saturation, in ten-thousandths of full scale.
    pub s: u16,
    /// Lightness, in ten-thousandths of full scale.
    pub l: u16,
    /// Alpha, in ten-thousandths of full scale.
    pub a: u16,
}

/// An angle in fixed point: millionths of a radian.
#[derive(Debug, Clone, Copy, PartialEq, Eq)]
pub struct Radians {
    /// Millionths of a radian.
    pub microradians: i64,
}

/// An affine transformation applied to the vector graphic: a scale, a
/// translation and a rotation.
#[derive(Debug, Clone, Copy, PartialEq, Eq)]
pub struct Transformation {
    /// Horizontal scale factor, in thousandths.
    pub scale_x: i64,
    /// Vertical scale factor, in thousandths.
    pub scale_y: i64,
    /// Horizontal translation.
    pub translate_x: Pixels,
    /// Vertical translation.
    pub translate_y: Pixels,
    /// Rotation angle.
    pub rotate: Radians,
}

impl Transformation {
    /// A pure rotation: unit scale, no translation.
    pub open spec fn spec_rotate(angle: Radians) -> Transformation {
        Transformation {
            scale_x: 1000,
            scale_y: 1000,
            translate_x: Pixels { thousandths: 0 },
            translate_y: Pixels { thousandths: 0 },
            rotate: angle,
        }
    }

    /// A transformation that only rotates by the given angle.
    pub fn rotate(angle: Radians) -> (r: Transformation)
        ensures
            r == Transformation::spec_rotate(angle),
    {
        Transformation {
            scale_x: 1000,
            scale_y: 1000,
            translate_x: Pixels { thousandths: 0 },
            translate_y: Pixels { thousandths: 0 },
            rotate: angle,
        }
    }
}

/// Generic box-model style overrides carried by the element and passed
/// through to the emitted node. An explicit `width` or `height` here takes
/// precedence over the structured size field at resolution time.
#[derive(Debug, Clone, Copy, PartialEq, Eq)]
pub struct StyleRefinement {
    /// Explicit box width, if set.
    pub width: Option<Pixels>,
    /// Explicit box height, if set.
    pub height: Option<Pixels>,
    /// Top margin, if set.
    pub margin_top: Option<Pixels>,
    /// Right margin, if set.
    pub margin_right: Option<Pixels>,
    /// Bottom margin, if set.
    pub margin_bottom: Option<Pixels>,
    /// Left margin, if set.
    pub margin_left: Option<Pixels>,
}

/// The style refinement with nothing set.
pub open spec fn spec_empty_style() -> StyleRefinement {
    StyleRefinement {
        width: None,
        height: None,
        margin_top: None,
        margin_right: None,
        margin_bottom: None,
        margin_left: None,
    }
}

impl Default for StyleRefinement {
    /// A refinement with nothing set.
    fn default() -> (r: Self)
        ensures
            r == spec_empty_style(),
    {
        StyleRefinement {
            width: None,
            height: None,
            margin_top: None,
            margin_right: None,
            margin_bottom: None,
            margin_left: None,
        }
    }
}

/// Icon size variants.
#[derive(Debug, Clone, Copy, PartialEq, Eq)]
pub enum Size {
    /// Extra small: 12px
    XSmall,
    /// Small: 14px
    Small,
    /// Medium: 16px (default)
    Medium,
    /// Large: 24px
    Large,
    /// Custom size in pixels
    Size(Pixels),
}

/// The pixel magnitude a size variant resolves to: the fixed magnitude of
/// each named preset, or the carried value of a custom size.
pub open spec fn size_magnitude(size: Size) -> Pixels {
    match size {
        Size::XSmall => Pixels { thousandths: 12_000 },
        Size::Small => Pixels { thousandths: 14_000 },
        Size::Medium => Pixels { thousandths: 16_000 },
        Size::Large => Pixels { thousandths: 24_000 },
        Size::Size(px) => px,
    }
}

/// Resolves a size variant to its pixel magnitude.
pub fn resolve_size(size: Size) -> (r: Pixels)
    ensures
        r == size_magnitude(size),
{
    match size {
        Size::XSmall => Pixels { thousandths: 12_000 },
        Size::Small => Pixels { thousandths: 14_000 },
        Size::Medium => Pixels { thousandths: 16_000 },
        Size::Large => Pixels { thousandths: 24_000 },
        Size::Size(px) => px,
    }
}

impl From<Pixels> for Size {
    /// A bare pixel length is a custom size.
    fn from(px: Pixels) -> (r: Self) {
        Size::Size(px)
    }
}

impl vstd::std_specs::convert::FromSpecImpl<Pixels> for Size {
    open spec fn obeys_from_spec() -> bool {
        true
    }

    open spec fn from_spec(px: Pixels) -> Size {
        Size::Size(px)
    }
}

/// Trait for types that can have a size.
pub trait Sizable: Sized {
    /// Set the size of the element.
    fn with_size(self, size: Size) -> Self;
}

/// Types implementing this trait can automatically be converted to [`Icon`].
///
/// This allows icon catalogs, and application-defined identifiers, to be
/// handed directly to [`Icon::new`].
pub trait IconNamed: Sized {
    /// The asset path this identifier resolves to.
    spec fn spec_path(&self) -> Seq<char>;

    /// Returns the embedded path of the icon.
    fn path(self) -> (r: String)
        ensures
            r@ == self.spec_path(),
    ;
}

impl<T: crate::RemixIcon> IconNamed for T {
    open spec fn spec_path(&self) -> Seq<char> {
        crate::RemixIcon::spec_path(self)
    }

    fn path(self) -> (r: String) {
        crate::RemixIcon::path(self)
    }
}

/// A RemixIcon element.
///
/// A configurable value that resolves an icon identifier and a set of style
/// overrides into a renderable vector-graphic node; see [`Icon::render`].
#[derive(Debug)]
pub struct Icon {
    /// Resolved asset path (default empty).
    pub path: String,
    /// Generic box-model style overrides.
    pub style: StyleRefinement,
    /// Explicit paint color; `None` means the ambient text color at render
    /// time.
    pub text_color: Option<Hsla>,
    /// Structured size; `None` means inherit an explicit box size if one is
    /// set, else the ambient text font size at render time.
    pub size: Option<Size>,
    /// Rotation angle; `None` means no rotation transform.
    pub rotation: Option<Radians>,
    /// A transformation applied to the graphic, set aside from rotation.
    pub transformation: Option<Transformation>,
}

/// The vector-graphic drawable node an icon element resolves to: the value
/// handed to the host toolkit's render pipeline, which fetches the bytes for
/// `path` from its asset source and paints them.
#[derive(Debug, PartialEq)]
pub struct SvgNode {
    /// Asset path of the graphic to paint.
    pub path: String,
    /// Box-model style, with the resolved size written into `width` and
    /// `height` whenever no explicit box size was configured.
    pub style: StyleRefinement,
    /// Paint color.
    pub color: Hsla,
    /// Transformation to apply, if any.
    pub transformation: Option<Transformation>,
}

impl Default for Icon {
    /// An icon with an empty path and no overrides set.
    fn default() -> (r: Self)
        ensures
            r.path@ == Seq::<char>::empty(),
            r.style == spec_empty_style(),
            r.text_color is None,
            r.size is None,
            r.rotation is None,
            r.transformation is None,
    {
        let path = String::new();
        proof {
            assert(path@ =~= Seq::<char>::empty());
        }
        Self {
            path,
            style: StyleRefinement::default(),
            text_color: None,
            size: None,
            rotation: None,
            transformation: None,
        }
    }
}

impl Clone for Icon {
    /// A field-for-field copy of the element.
    fn clone(&self) -> (r: Self)
        ensures
            r.path@ == self.path@,
            r.style == self.style,
            r.text_color == self.text_color,
            r.size == self.size,
            r.rotation == self.rotation,
            r.transformation == self.transformation,
    {
        Icon {
            path: self.path.clone(),
            style: self.style,
            text_color: self.text_color,
            size: self.size,
            rotation: self.rotation,
            transformation: self.transformation,
        }
    }
}

impl Icon {
    /// Create a new Icon from any type that implements IconNamed.
    ///
    /// The resolved path of the new element is exactly the path the
    /// identifier itself resolves to; every other field is at its default.
    pub fn new<T: IconNamed>(icon: T) -> (r: Self)
        ensures
            r.path@ == icon.spec_path(),
            r.style == spec_empty_style(),
            r.text_color is None,
            r.size is None,
            r.rotation is None,
            r.transformation is None,
    {
        Self::build(icon)
    }

    fn build<T: IconNamed>(name: T) -> (r: Self)
        ensures
            r.path@ == name.spec_path(),
            r.style == spec_empty_style(),
            r.text_color is None,
            r.size is None,
            r.rotation is None,
            r.transformation is None,
    {
        Self::default().path(name.path())
    }

    /// Set the icon path of the Assets bundle.
    ///
    /// For example: `icons/foo.svg`. The path is stored as given; an
    /// unresolvable path is not an error here, it surfaces as the asset
    /// source's "missing asset" outcome at render time.
    pub fn path(self, path: String) -> (r: Self)
        ensures
            r.path@ == path@,
            r.style == self.style,
            r.text_color == self.text_color,
            r.size == self.size,
            r.rotation == self.rotation,
            r.transformation == self.transformation,
    {
        Icon { path, ..self }
    }

    /// Create an empty icon (for custom paths).
    pub fn empty() -> (r: Self)
        ensures
            r.path@ == Seq::<char>::empty(),
            r.style == spec_empty_style(),
            r.text_color is None,
            r.size is None,
            r.rotation is None,
            r.transformation is None,
    {
        Self::default()
    }

    /// Apply a transformation to the icon.
    ///
    /// A rotation set with [`Icon::rotate`] takes precedence over this at
    /// resolution time.
    pub fn transform(self, transformation: Transformation) -> (r: Self)
        ensures
            r.transformation == Some(transformation),
            r.path@ == self.path@,
            r.style == self.style,
            r.text_color == self.text_color,
            r.size == self.size,
            r.rotation == self.rotation,
    {
        Icon { transformation: Some(transformation), ..self }
    }

    /// Rotate the icon by the given angle, overwriting any angle set before.
    pub fn rotate(self, radians: Radians) -> (r: Self)
        ensures
            r.rotation == Some(radians),
            r.path@ == self.path@,
            r.style == self.style,
            r.text_color == self.text_color,
            r.size == self.size,
            r.transformation == self.transformation,
    {
        Icon { rotation: Some(radians), ..self }
    }

    /// Set extra small size (12px).
    pub fn xsmall(self) -> (r: Self)
        ensures
            r == self.spec_with_size(Size::XSmall),
    {
        self.with_size(Size::XSmall)
    }

    /// Set small size (14px).
    pub fn small(self) -> (r: Self)
        ensures
            r == self.spec_with_size(Size::Small),
    {
        self.with_size(Size::Small)
    }

    /// Set medium size (16px).
    pub fn medium(self) -> (r: Self)
        ensures
            r == self.spec_with_size(Size::Medium),
    {
        self.with_size(Size::Medium)
    }

    /// Set large size (24px).
    pub fn large(self) -> (r: Self)
        ensures
            r == self.spec_with_size(Size::Large),
    {
        self.with_size(Size::Large)
    }

    /// Set a custom size in pixels. The value is stored as given: zero and
    /// fractional magnitudes pass through unmodified.
    pub fn custom_size(self, px: Pixels) -> (r: Self)
        ensures
            r == self.spec_with_size(Size::Size(px)),
    {
        self.with_size(Size::Size(px))
    }

    /// The element with its structured size field set to `size` and every
    /// other field unchanged.
    pub open spec fn spec_with_size(self, size: Size) -> Icon {
        Icon { size: Some(size), ..self }
    }

    /// Set the paint color, overwriting the ambient-text-color default.
    pub fn text_color(self, color: Hsla) -> (r: Self)
        ensures
            r.text_color == Some(color),
            r.path@ == self.path@,
            r.style == self.style,
            r.size == self.size,
            r.rotation == self.rotation,
            r.transformation == self.transformation,
    {
        Icon { text_color: Some(color), ..self }
    }

    /// Set an explicit box width. An explicit box size takes precedence over
    /// the structured size field, whatever the order of the calls.
    pub fn w(self, width: Pixels) -> (r: Self)
        ensures
            r.style == (StyleRefinement { width: Some(width), ..self.style }),
            r.path@ == self.path@,
            r.text_color == self.text_color,
            r.size == self.size,
            r.rotation == self.rotation,
            r.transformation == self.transformation,
    {
        Icon { style: StyleRefinement { width: Some(width), ..self.style }, ..self }
    }

    /// Set an explicit box height. An explicit box size takes precedence
    /// over the structured size field, whatever the order of the calls.
    pub fn h(self, height: Pixels) -> (r: Self)
        ensures
            r.style == (StyleRefinement { height: Some(height), ..self.style }),
            r.path@ == self.path@,
            r.text_color == self.text_color,
            r.size == self.size,
            r.rotation == self.rotation,
            r.transformation == self.transformation,
    {
        Icon { style: StyleRefinement { height: Some(height), ..self.style }, ..self }
    }

    /// Set all four margins: a passthrough style property, forwarded to the
    /// emitted node untouched by size resolution.
    pub fn m(self, margin: Pixels) -> (r: Self)
        ensures
            r.style == (StyleRefinement {
                margin_top: Some(margin),
                margin_right: Some(margin),
                margin_bottom: Some(margin),
                margin_left: Some(margin),
                ..self.style
            }),
            r.path@ == self.path@,
            r.text_color == self.text_color,
            r.size == self.size,
            r.rotation == self.rotation,
            r.transformation == self.transformation,
    {
        Icon {
            style: StyleRefinement {
                margin_top: Some(margin),
                margin_right: Some(margin),
                margin_bottom: Some(margin),
                margin_left: Some(margin),
                ..self.style
            },
            ..self
        }
    }

    /// Whether an explicit box size was set through the generic style path.
    pub open spec fn spec_has_box_size(self) -> bool {
        self.style.width is Some || self.style.height is Some
    }

    /// The box-model style of the emitted node: the configured style
    /// untouched when an explicit box size is present; otherwise the
    /// configured style with both width and height set to the structured
    /// size's magnitude, or to the ambient text size when no structured size
    /// is set either.
    pub open spec fn spec_resolved_style(self, ambient_text_size: Pixels) -> StyleRefinement {
        if self.spec_has_box_size() {
            self.style
        } else {
            let magnitude = match self.size {
                Some(size) => size_magnitude(size),
                None => ambient_text_size,
            };
            StyleRefinement { width: Some(magnitude), height: Some(magnitude), ..self.style }
        }
    }

    /// The paint color of the emitted node: the explicit color if one was
    /// set, else the ambient text color.
    pub open spec fn spec_resolved_color(self, ambient_color: Hsla) -> Hsla {
        match self.text_color {
            Some(color) => color,
            None => ambient_color,
        }
    }

    /// The transformation of the emitted node: a pure rotation by the
    /// configured angle if one was set, else whatever [`Icon::transform`]
    /// installed, else none.
    pub open spec fn spec_resolved_transformation(self) -> Option<Transformation> {
        match self.rotation {
            Some(angle) => Some(Transformation::spec_rotate(angle)),
            None => self.transformation,
        }
    }

    /// The node the element resolves to under the given ambient inputs.
    pub open spec fn spec_render(self, ambient_color: Hsla, ambient_text_size: Pixels) -> SvgNode {
        SvgNode {
            path: self.path,
            style: self.spec_resolved_style(ambient_text_size),
            color: self.spec_resolved_color(ambient_color),
            transformation: self.spec_resolved_transformation(),
        }
    }

    /// Resolve the element into its vector-graphic node.
    ///
    /// This is the whole render step as a pure function of the element's
    /// fields and the two ambient inputs read from the surrounding render
    /// context: the current text color and the current text font size.
    /// Resolution is total: every element resolves to exactly one node.
    pub fn render(self, ambient_color: Hsla, ambient_text_size: Pixels) -> (node: SvgNode)
        ensures
            node == self.spec_render(ambient_color, ambient_text_size),
            // The path is forwarded exactly: never synthesized or substituted.
            node.path@ == self.path@,
            // An explicit color overrides the ambient text color; omitting it
            // yields the ambient text color.
            node.color == self.spec_resolved_color(ambient_color),
            // A configured rotation becomes a rotation transform of exactly
            // that angle; with no rotation, no transform is introduced.
            self.rotation matches Some(angle) ==> node.transformation == Some(
                Transformation::spec_rotate(angle),
            ),
            self.rotation is None ==> node.transformation == self.transformation,
            // With neither a structured size nor an explicit box size, the
            // node is square at the ambient text font size.
            self.size is None && !self.spec_has_box_size() ==> node.style.width == Some(
                ambient_text_size,
            ) && node.style.height == Some(ambient_text_size),
    {
        let color = match self.text_color {
            Some(c) => c,
            None => ambient_color,
        };
        let has_box_size = self.style.width.is_some() || self.style.height.is_some();
        let style = if has_box_size {
            self.style
        } else {
            let magnitude = match self.size {
                Some(size) => resolve_size(size),
                None => ambient_text_size,
            };
            StyleRefinement { width: Some(magnitude), height: Some(magnitude), ..self.style }
        };
        let transformation = match self.rotation {
            Some(angle) => Some(Transformation::rotate(angle)),
            None => self.transformation,
        };
        SvgNode { path: self.path, style, color, transformation }
    }
}

/// Law: each named size preset resolves to its fixed pixel magnitude —
/// 12, 14, 16 and 24 pixels — whatever element carries it and whatever the
/// ambient inputs, as long as no explicit box size overrides it.
pub proof fn lemma_preset_magnitudes(
    icon: Icon,
    ambient_color: Hsla,
    ambient_text_size: Pixels,
)
    requires
        !icon.spec_has_box_size(),
    ensures
        icon.size == Some(Size::XSmall) ==> icon.spec_render(ambient_color, ambient_text_size).style.width
            == Some(Pixels { thousandths: 12_000 }),
        icon.size == Some(Size::Small) ==> icon.spec_render(ambient_color, ambient_text_size).style.width
            == Some(Pixels { thousandths: 14_000 }),
        icon.size == Some(Size::Medium) ==> icon.spec_render(ambient_color, ambient_text_size).style.width
            == Some(Pixels { thousandths: 16_000 }),
        icon.size == Some(Size::Large) ==> icon.spec_render(ambient_color, ambient_text_size).style.width
            == Some(Pixels { thousandths: 24_000 }),
        icon.size is Some ==> icon.spec_render(ambient_color, ambient_text_size).style.height
            == icon.spec_render(ambient_color, ambient_text_size).style.width,
{
}

/// Law: a custom size resolves to exactly the carried value, for every value
/// including zero and fractional magnitudes, as long as no explicit box size
/// overrides it; the node is square at that value.
pub proof fn lemma_custom_size_exact(
    icon: Icon,
    px: Pixels,
    ambient_color: Hsla,
    ambient_text_size: Pixels,
)
    requires
        !icon.spec_has_box_size(),
        icon.size == Some(Size::Size(px)),
    ensures
        icon.spec_render(ambient_color, ambient_text_size).style.width == Some(px),
        icon.spec_render(ambient_color, ambient_text_size).style.height == Some(px),
{
}

/// Law: an explicit box width or height set through the generic style path
/// takes precedence over any structured size, in whatever order the two were
/// set: the emitted node carries the configured box style untouched, and two
/// elements that agree on every field except the structured size resolve to
/// the same node.
pub proof fn lemma_box_size_precedence(
    a: Icon,
    b: Icon,
    ambient_color: Hsla,
    ambient_text_size: Pixels,
)
    requires
        a.spec_has_box_size(),
        b == (Icon { size: b.size, ..a }),
    ensures
        a.spec_render(ambient_color, ambient_text_size).style == a.style,
        a.spec_render(ambient_color, ambient_text_size) == b.spec_render(
            ambient_color,
            ambient_text_size,
        ),
{
}

/// Law: with neither a structured size nor an explicit box size, the
/// resolved size is the ambient text font size — so rendering the same
/// element under two ambient font sizes yields those two sizes.
pub proof fn lemma_ambient_size_fallback(
    icon: Icon,
    ambient_color: Hsla,
    size_one: Pixels,
    size_two: Pixels,
)
    requires
        !icon.spec_has_box_size(),
        icon.size is None,
    ensures
        icon.spec_render(ambient_color, size_one).style.width == Some(size_one),
        icon.spec_render(ambient_color, size_one).style.height == Some(size_one),
        icon.spec_render(ambient_color, size_two).style.width == Some(size_two),
        icon.spec_render(ambient_color, size_two).style.height == Some(size_two),
{
}

impl Sizable for Icon {
    /// Set the size of the element, overwriting any previous value.
    fn with_size(self, size: Size) -> (r: Self)
        ensures
            r == self.spec_with_size(size),
    {
        Icon { size: Some(size), ..self }
    }
}

} // verus!
