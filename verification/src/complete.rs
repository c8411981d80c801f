//! The cascade resolver: composing a node's raw selection result with its
//! ancestor chain into fully resolved property values.
//!
//! Per property the rule is: a `Specified` winning value resolves to its
//! payload; an `inherit` value resolves to the parent's resolved value, or to
//! the property's initial value at the document root; where nothing matched,
//! a default-inheriting property (`font-family`) inherits, every other
//! property takes its initial value. `Inherit` never escapes past the root.
//!
//! Resolution is eager: `new_from_parent` composes against the parent's
//! already-resolved values, so resolving each property costs a constant
//! amount per node and repeated reads return the stored value unchanged.

use vstd::prelude::*;
use vstd::string::StringSliceAdditionalSpecFns;
use crate::color::{spec_black, Color};
use crate::computed::{
    norm_border_width, norm_color, norm_display, norm_float, norm_font_family, norm_height,
    norm_margin, norm_position, norm_width, spec_norm_border_width, spec_norm_color,
    spec_norm_display, spec_norm_float, spec_norm_font_family, spec_norm_height, spec_norm_margin,
    spec_norm_position, spec_norm_width, spec_winning, winning,
};
use crate::error::{clone_unsupported, unimpl, UnsupportedFeature};
use crate::parse::clone_bytes;
use crate::select::SelectResults;
use crate::stylesheet::{Property, SpecDeclaration};
use crate::units::{GenericFontFamily, Length};
use crate::values::{
    CSSBorderWidth, CSSDisplay, CSSFloat, CSSFontFamily, CSSHeight, CSSMargin, CSSPosition,
    CSSValue, CSSWidth, SpecFontFamily,
};

verus! {

/// The mathematical shape of one resolved property: its value, or the name of
/// the property whose hint was unsupported.
pub open spec fn res_of<T>(r: Result<T, UnsupportedFeature>) -> Result<T, Seq<u8>> {
    match r {
        Ok(c) => Ok(c),
        Err(e) => Err(e.property@),
    }
}

/// The shape of the resolved font-family list.
pub open spec fn res_font(r: Result<Vec<CSSFontFamily>, UnsupportedFeature>) -> Result<
    Seq<SpecFontFamily>,
    Seq<u8>,
> {
    match r {
        Ok(v) => Ok(v.deep_view()),
        Err(e) => Err(e.property@),
    }
}

/// Resolution of a color-valued property against the parent's resolved value
/// (`None` at the document root).
pub open spec fn spec_resolve_color(
    decls: Seq<SpecDeclaration>,
    p: Property,
    initial: Color,
    parent: Option<Result<Color, Seq<u8>>>,
    pname: Seq<u8>,
) -> Result<Color, Seq<u8>> {
    match spec_winning(decls, p) {
        None => Ok(initial),
        Some(v) => match spec_norm_color(v) {
            None => Err(pname),
            Some(CSSValue::Specified(c)) => Ok(c),
            Some(CSSValue::Inherit) => match parent {
                Some(pv) => pv,
                None => Ok(initial),
            },
        },
    }
}

pub open spec fn spec_resolve_border_width(
    decls: Seq<SpecDeclaration>,
    p: Property,
    parent: Option<Result<CSSBorderWidth, Seq<u8>>>,
    pname: Seq<u8>,
) -> Result<CSSBorderWidth, Seq<u8>> {
    match spec_winning(decls, p) {
        None => Ok(CSSBorderWidth::CSSBorderWidthMedium),
        Some(v) => match spec_norm_border_width(v) {
            None => Err(pname),
            Some(CSSValue::Specified(c)) => Ok(c),
            Some(CSSValue::Inherit) => match parent {
                Some(pv) => pv,
                None => Ok(CSSBorderWidth::CSSBorderWidthMedium),
            },
        },
    }
}

pub open spec fn spec_resolve_margin(
    decls: Seq<SpecDeclaration>,
    p: Property,
    parent: Option<Result<CSSMargin, Seq<u8>>>,
    pname: Seq<u8>,
) -> Result<CSSMargin, Seq<u8>> {
    match spec_winning(decls, p) {
        None => Ok(CSSMargin::CSSMarginLength(Length::Px(0))),
        Some(v) => match spec_norm_margin(v) {
            None => Err(pname),
            Some(CSSValue::Specified(c)) => Ok(c),
            Some(CSSValue::Inherit) => match parent {
                Some(pv) => pv,
                None => Ok(CSSMargin::CSSMarginLength(Length::Px(0))),
            },
        },
    }
}

pub open spec fn spec_resolve_display(
    decls: Seq<SpecDeclaration>,
    parent: Option<Result<CSSDisplay, Seq<u8>>>,
    pname: Seq<u8>,
) -> Result<CSSDisplay, Seq<u8>> {
    match spec_winning(decls, Property::Display) {
        None => Ok(CSSDisplay::CSSDisplayInline),
        Some(v) => match spec_norm_display(v) {
            None => Err(pname),
            Some(CSSValue::Specified(c)) => Ok(c),
            Some(CSSValue::Inherit) => match parent {
                Some(pv) => pv,
                None => Ok(CSSDisplay::CSSDisplayInline),
            },
        },
    }
}

pub open spec fn spec_resolve_float(
    decls: Seq<SpecDeclaration>,
    parent: Option<Result<CSSFloat, Seq<u8>>>,
    pname: Seq<u8>,
) -> Result<CSSFloat, Seq<u8>> {
    match spec_winning(decls, Property::Float) {
        None => Ok(CSSFloat::CSSFloatNone),
        Some(v) => match spec_norm_float(v) {
            None => Err(pname),
            Some(CSSValue::Specified(c)) => Ok(c),
            Some(CSSValue::Inherit) => match parent {
                Some(pv) => pv,
                None => Ok(CSSFloat::CSSFloatNone),
            },
        },
    }
}

pub open spec fn spec_resolve_position(
    decls: Seq<SpecDeclaration>,
    parent: Option<Result<CSSPosition, Seq<u8>>>,
    pname: Seq<u8>,
) -> Result<CSSPosition, Seq<u8>> {
    match spec_winning(decls, Property::Position) {
        None => Ok(CSSPosition::CSSPositionStatic),
        Some(v) => match spec_norm_position(v) {
            None => Err(pname),
            Some(CSSValue::Specified(c)) => Ok(c),
            Some(CSSValue::Inherit) => match parent {
                Some(pv) => pv,
                None => Ok(CSSPosition::CSSPositionStatic),
            },
        },
    }
}

pub open spec fn spec_resolve_width(
    decls: Seq<SpecDeclaration>,
    parent: Option<Result<CSSWidth, Seq<u8>>>,
    pname: Seq<u8>,
) -> Result<CSSWidth, Seq<u8>> {
    match spec_winning(decls, Property::Width) {
        None => Ok(CSSWidth::CSSWidthAuto),
        Some(v) => match spec_norm_width(v) {
            None => Err(pname),
            Some(CSSValue::Specified(c)) => Ok(c),
            Some(CSSValue::Inherit) => match parent {
                Some(pv) => pv,
                None => Ok(CSSWidth::CSSWidthAuto),
            },
        },
    }
}

pub open spec fn spec_resolve_height(
    decls: Seq<SpecDeclaration>,
    parent: Option<Result<CSSHeight, Seq<u8>>>,
    pname: Seq<u8>,
) -> Result<CSSHeight, Seq<u8>> {
    match spec_winning(decls, Property::Height) {
        None => Ok(CSSHeight::CSSHeightAuto),
        Some(v) => match spec_norm_height(v) {
            None => Err(pname),
            Some(CSSValue::Specified(c)) => Ok(c),
            Some(CSSValue::Inherit) => match parent {
                Some(pv) => pv,
                None => Ok(CSSHeight::CSSHeightAuto),
            },
        },
    }
}

/// Initial value of `font-family`: the generic serif family.
pub open spec fn spec_initial_font_family() -> Seq<SpecFontFamily> {
    seq![SpecFontFamily::Generic(GenericFontFamily::Serif)]
}

/// Resolution of `font-family`, which CSS inherits by default: where nothing
/// matched it takes the parent's resolved list, and the initial list only at
/// the root.
pub open spec fn spec_resolve_font_family(
    decls: Seq<SpecDeclaration>,
    parent: Option<Result<Seq<SpecFontFamily>, Seq<u8>>>,
    pname: Seq<u8>,
) -> Result<Seq<SpecFontFamily>, Seq<u8>> {
    match spec_winning(decls, Property::FontFamily) {
        None => match parent {
            Some(pv) => pv,
            None => Ok(spec_initial_font_family()),
        },
        Some(v) => match spec_norm_font_family(v) {
            None => Err(pname),
            Some(CSSValue::Specified(f)) => Ok(f),
            Some(CSSValue::Inherit) => match parent {
                Some(pv) => pv,
                None => Ok(spec_initial_font_family()),
            },
        },
    }
}

fn clone_res_color(r: &Result<Color, UnsupportedFeature>) -> (out: Result<
    Color,
    UnsupportedFeature,
>)
    ensures
        res_of(out) == res_of(*r),
{
    match r {
        Ok(c) => Ok(*c),
        Err(e) => Err(clone_unsupported(e)),
    }
}

fn resolve_color(
    results: &SelectResults,
    p: Property,
    initial: Color,
    parent: Option<&Result<Color, UnsupportedFeature>>,
    name: &str,
) -> (r: Result<Color, UnsupportedFeature>)
    ensures
        res_of(r) == spec_resolve_color(
            results@,
            p,
            initial,
            (match parent {
                Some(pv) => Some(res_of(*pv)),
                None => None,
            }),
            name.spec_bytes(),
        ),
{
    match winning(results, p) {
        None => Ok(initial),
        Some(v) => match norm_color(&v) {
            None => Err(unimpl(name)),
            Some(CSSValue::Specified(c)) => Ok(c),
            Some(CSSValue::Inherit) => match parent {
                Some(pv) => clone_res_color(pv),
                None => Ok(initial),
            },
        },
    }
}

fn resolve_border_width(
    results: &SelectResults,
    p: Property,
    parent: Option<&Result<CSSBorderWidth, UnsupportedFeature>>,
    name: &str,
) -> (r: Result<CSSBorderWidth, UnsupportedFeature>)
    ensures
        res_of(r) == spec_resolve_border_width(
            results@,
            p,
            (match parent {
                Some(pv) => Some(res_of(*pv)),
                None => None,
            }),
            name.spec_bytes(),
        ),
{
    match winning(results, p) {
        None => Ok(CSSBorderWidth::CSSBorderWidthMedium),
        Some(v) => match norm_border_width(&v) {
            None => Err(unimpl(name)),
            Some(CSSValue::Specified(c)) => Ok(c),
            Some(CSSValue::Inherit) => match parent {
                Some(pv) => match pv {
                    Ok(c) => Ok(*c),
                    Err(e) => Err(clone_unsupported(e)),
                },
                None => Ok(CSSBorderWidth::CSSBorderWidthMedium),
            },
        },
    }
}

fn resolve_margin(
    results: &SelectResults,
    p: Property,
    parent: Option<&Result<CSSMargin, UnsupportedFeature>>,
    name: &str,
) -> (r: Result<CSSMargin, UnsupportedFeature>)
    ensures
        res_of(r) == spec_resolve_margin(
            results@,
            p,
            (match parent {
                Some(pv) => Some(res_of(*pv)),
                None => None,
            }),
            name.spec_bytes(),
        ),
{
    match winning(results, p) {
        None => Ok(CSSMargin::CSSMarginLength(Length::Px(0))),
        Some(v) => match norm_margin(&v) {
            None => Err(unimpl(name)),
            Some(CSSValue::Specified(c)) => Ok(c),
            Some(CSSValue::Inherit) => match parent {
                Some(pv) => match pv {
                    Ok(c) => Ok(*c),
                    Err(e) => Err(clone_unsupported(e)),
                },
                None => Ok(CSSMargin::CSSMarginLength(Length::Px(0))),
            },
        },
    }
}

fn resolve_display(
    results: &SelectResults,
    parent: Option<&Result<CSSDisplay, UnsupportedFeature>>,
    name: &str,
) -> (r: Result<CSSDisplay, UnsupportedFeature>)
    ensures
        res_of(r) == spec_resolve_display(
            results@,
            (match parent {
                Some(pv) => Some(res_of(*pv)),
                None => None,
            }),
            name.spec_bytes(),
        ),
{
    match winning(results, Property::Display) {
        None => Ok(CSSDisplay::CSSDisplayInline),
        Some(v) => match norm_display(&v) {
            None => Err(unimpl(name)),
            Some(CSSValue::Specified(c)) => Ok(c),
            Some(CSSValue::Inherit) => match parent {
                Some(pv) => match pv {
                    Ok(c) => Ok(*c),
                    Err(e) => Err(clone_unsupported(e)),
                },
                None => Ok(CSSDisplay::CSSDisplayInline),
            },
        },
    }
}

fn resolve_float(
    results: &SelectResults,
    parent: Option<&Result<CSSFloat, UnsupportedFeature>>,
    name: &str,
) -> (r: Result<CSSFloat, UnsupportedFeature>)
    ensures
        res_of(r) == spec_resolve_float(
            results@,
            (match parent {
                Some(pv) => Some(res_of(*pv)),
                None => None,
            }),
            name.spec_bytes(),
        ),
{
    match winning(results, Property::Float) {
        None => Ok(CSSFloat::CSSFloatNone),
        Some(v) => match norm_float(&v) {
            None => Err(unimpl(name)),
            Some(CSSValue::Specified(c)) => Ok(c),
            Some(CSSValue::Inherit) => match parent {
                Some(pv) => match pv {
                    Ok(c) => Ok(*c),
                    Err(e) => Err(clone_unsupported(e)),
                },
                None => Ok(CSSFloat::CSSFloatNone),
            },
        },
    }
}

fn resolve_position(
    results: &SelectResults,
    parent: Option<&Result<CSSPosition, UnsupportedFeature>>,
    name: &str,
) -> (r: Result<CSSPosition, UnsupportedFeature>)
    ensures
        res_of(r) == spec_resolve_position(
            results@,
            (match parent {
                Some(pv) => Some(res_of(*pv)),
                None => None,
            }),
            name.spec_bytes(),
        ),
{
    match winning(results, Property::Position) {
        None => Ok(CSSPosition::CSSPositionStatic),
        Some(v) => match norm_position(&v) {
            None => Err(unimpl(name)),
            Some(CSSValue::Specified(c)) => Ok(c),
            Some(CSSValue::Inherit) => match parent {
                Some(pv) => match pv {
                    Ok(c) => Ok(*c),
                    Err(e) => Err(clone_unsupported(e)),
                },
                None => Ok(CSSPosition::CSSPositionStatic),
            },
        },
    }
}

fn resolve_width(
    results: &SelectResults,
    parent: Option<&Result<CSSWidth, UnsupportedFeature>>,
    name: &str,
) -> (r: Result<CSSWidth, UnsupportedFeature>)
    ensures
        res_of(r) == spec_resolve_width(
            results@,
            (match parent {
                Some(pv) => Some(res_of(*pv)),
                None => None,
            }),
            name.spec_bytes(),
        ),
{
    match winning(results, Property::Width) {
        None => Ok(CSSWidth::CSSWidthAuto),
        Some(v) => match norm_width(&v) {
            None => Err(unimpl(name)),
            Some(CSSValue::Specified(c)) => Ok(c),
            Some(CSSValue::Inherit) => match parent {
                Some(pv) => match pv {
                    Ok(c) => Ok(*c),
                    Err(e) => Err(clone_unsupported(e)),
                },
                None => Ok(CSSWidth::CSSWidthAuto),
            },
        },
    }
}

fn resolve_height(
    results: &SelectResults,
    parent: Option<&Result<CSSHeight, UnsupportedFeature>>,
    name: &str,
) -> (r: Result<CSSHeight, UnsupportedFeature>)
    ensures
        res_of(r) == spec_resolve_height(
            results@,
            (match parent {
                Some(pv) => Some(res_of(*pv)),
                None => None,
            }),
            name.spec_bytes(),
        ),
{
    match winning(results, Property::Height) {
        None => Ok(CSSHeight::CSSHeightAuto),
        Some(v) => match norm_height(&v) {
            None => Err(unimpl(name)),
            Some(CSSValue::Specified(c)) => Ok(c),
            Some(CSSValue::Inherit) => match parent {
                Some(pv) => match pv {
                    Ok(c) => Ok(*c),
                    Err(e) => Err(clone_unsupported(e)),
                },
                None => Ok(CSSHeight::CSSHeightAuto),
            },
        },
    }
}

fn clone_font_list(v: &Vec<CSSFontFamily>) -> (r: Vec<CSSFontFamily>)
    ensures
        r.deep_view() == v.deep_view(),
{
    let mut out: Vec<CSSFontFamily> = Vec::new();
    let mut k: usize = 0;
    while k < v.len()
        invariant
            k <= v@.len(),
            out@.len() == k,
            forall|j: int| 0 <= j < k ==> out@[j]@ == v@[j]@,
        decreases v@.len() - k,
    {
        let e = match &v[k] {
            CSSFontFamily::CSSFontFamilyFamilyName(name) => CSSFontFamily::CSSFontFamilyFamilyName(
                clone_bytes(name),
            ),
            CSSFontFamily::CSSFontFamilyGenericFamily(g) => {
                CSSFontFamily::CSSFontFamilyGenericFamily(*g)
            },
        };
        out.push(e);
        k = k + 1;
    }
    proof {
        assert(out.deep_view() =~~= v.deep_view());
    }
    out
}

fn initial_font_family() -> (r: Vec<CSSFontFamily>)
    ensures
        r.deep_view() == spec_initial_font_family(),
{
    let mut out: Vec<CSSFontFamily> = Vec::new();
    out.push(CSSFontFamily::CSSFontFamilyGenericFamily(GenericFontFamily::Serif));
    proof {
        assert(out.deep_view() =~~= spec_initial_font_family());
    }
    out
}

fn resolve_font_family(
    results: &SelectResults,
    parent: Option<&Result<Vec<CSSFontFamily>, UnsupportedFeature>>,
    name: &str,
) -> (r: Result<Vec<CSSFontFamily>, UnsupportedFeature>)
    ensures
        res_font(r) == spec_resolve_font_family(
            results@,
            (match parent {
                Some(pv) => Some(res_font(*pv)),
                None => None,
            }),
            name.spec_bytes(),
        ),
{
    match winning(results, Property::FontFamily) {
        None => match parent {
            Some(pv) => match pv {
                Ok(fams) => Ok(clone_font_list(fams)),
                Err(e) => Err(clone_unsupported(e)),
            },
            None => Ok(initial_font_family()),
        },
        Some(v) => match norm_font_family(&v) {
            None => Err(unimpl(name)),
            Some(CSSValue::Specified(fams)) => Ok(fams),
            Some(CSSValue::Inherit) => match parent {
                Some(pv) => match pv {
                    Ok(fams) => Ok(clone_font_list(fams)),
                    Err(e) => Err(clone_unsupported(e)),
                },
                None => Ok(initial_font_family()),
            },
        },
    }
}

/// One node's fully resolved style: every modeled property composed with the
/// ancestor chain, eagerly, at construction. The chain topology mirrors the
/// document tree: one value per tree position, built from the root down.
pub struct CompleteSelectResults {
    pub background_color: Result<Color, UnsupportedFeature>,
    pub border_top_color: Result<Color, UnsupportedFeature>,
    pub border_right_color: Result<Color, UnsupportedFeature>,
    pub border_bottom_color: Result<Color, UnsupportedFeature>,
    pub border_left_color: Result<Color, UnsupportedFeature>,
    pub border_top_width: Result<CSSBorderWidth, UnsupportedFeature>,
    pub border_right_width: Result<CSSBorderWidth, UnsupportedFeature>,
    pub border_bottom_width: Result<CSSBorderWidth, UnsupportedFeature>,
    pub border_left_width: Result<CSSBorderWidth, UnsupportedFeature>,
    pub margin_top: Result<CSSMargin, UnsupportedFeature>,
    pub margin_right: Result<CSSMargin, UnsupportedFeature>,
    pub margin_bottom: Result<CSSMargin, UnsupportedFeature>,
    pub margin_left: Result<CSSMargin, UnsupportedFeature>,
    pub display: Result<CSSDisplay, UnsupportedFeature>,
    pub float: Result<CSSFloat, UnsupportedFeature>,
    pub position: Result<CSSPosition, UnsupportedFeature>,
    pub width: Result<CSSWidth, UnsupportedFeature>,
    pub height: Result<CSSHeight, UnsupportedFeature>,
    pub font_family: Result<Vec<CSSFontFamily>, UnsupportedFeature>,
}

/// Whether `c` holds exactly the resolution of `decls` against the parent
/// values `parent` (`None` at the document root), property by property.
pub open spec fn spec_resolved_against(
    c: CompleteSelectResults,
    decls: Seq<SpecDeclaration>,
    parent: Option<CompleteSelectResults>,
) -> bool {
    &&& res_of(c.background_color) == spec_resolve_color(
        decls,
        Property::BackgroundColor,
        Color { r: 0, g: 0, b: 0, a: 0 },
        (match parent {
            Some(p) => Some(res_of(p.background_color)),
            None => None,
        }),
        "background-color".spec_bytes(),
    )
    &&& res_of(c.border_top_color) == spec_resolve_color(
        decls,
        Property::BorderTopColor,
        spec_black(),
        (match parent {
            Some(p) => Some(res_of(p.border_top_color)),
            None => None,
        }),
        "border-top-color".spec_bytes(),
    )
    &&& res_of(c.border_right_color) == spec_resolve_color(
        decls,
        Property::BorderRightColor,
        spec_black(),
        (match parent {
            Some(p) => Some(res_of(p.border_right_color)),
            None => None,
        }),
        "border-right-color".spec_bytes(),
    )
    &&& res_of(c.border_bottom_color) == spec_resolve_color(
        decls,
        Property::BorderBottomColor,
        spec_black(),
        (match parent {
            Some(p) => Some(res_of(p.border_bottom_color)),
            None => None,
        }),
        "border-bottom-color".spec_bytes(),
    )
    &&& res_of(c.border_left_color) == spec_resolve_color(
        decls,
        Property::BorderLeftColor,
        spec_black(),
        (match parent {
            Some(p) => Some(res_of(p.border_left_color)),
            None => None,
        }),
        "border-left-color".spec_bytes(),
    )
    &&& res_of(c.border_top_width) == spec_resolve_border_width(
        decls,
        Property::BorderTopWidth,
        (match parent {
            Some(p) => Some(res_of(p.border_top_width)),
            None => None,
        }),
        "border-top-width".spec_bytes(),
    )
    &&& res_of(c.border_right_width) == spec_resolve_border_width(
        decls,
        Property::BorderRightWidth,
        (match parent {
            Some(p) => Some(res_of(p.border_right_width)),
            None => None,
        }),
        "border-right-width".spec_bytes(),
    )
    &&& res_of(c.border_bottom_width) == spec_resolve_border_width(
        decls,
        Property::BorderBottomWidth,
        (match parent {
            Some(p) => Some(res_of(p.border_bottom_width)),
            None => None,
        }),
        "border-bottom-width".spec_bytes(),
    )
    &&& res_of(c.border_left_width) == spec_resolve_border_width(
        decls,
        Property::BorderLeftWidth,
        (match parent {
            Some(p) => Some(res_of(p.border_left_width)),
            None => None,
        }),
        "border-left-width".spec_bytes(),
    )
    &&& res_of(c.margin_top) == spec_resolve_margin(
        decls,
        Property::MarginTop,
        (match parent {
            Some(p) => Some(res_of(p.margin_top)),
            None => None,
        }),
        "margin-top".spec_bytes(),
    )
    &&& res_of(c.margin_right) == spec_resolve_margin(
        decls,
        Property::MarginRight,
        (match parent {
            Some(p) => Some(res_of(p.margin_right)),
            None => None,
        }),
        "margin-right".spec_bytes(),
    )
    &&& res_of(c.margin_bottom) == spec_resolve_margin(
        decls,
        Property::MarginBottom,
        (match parent {
            Some(p) => Some(res_of(p.margin_bottom)),
            None => None,
        }),
        "margin-bottom".spec_bytes(),
    )
    &&& res_of(c.margin_left) == spec_resolve_margin(
        decls,
        Property::MarginLeft,
        (match parent {
            Some(p) => Some(res_of(p.margin_left)),
            None => None,
        }),
        "margin-left".spec_bytes(),
    )
    &&& res_of(c.display) == spec_resolve_display(
        decls,
        (match parent {
            Some(p) => Some(res_of(p.display)),
            None => None,
        }),
        "display".spec_bytes(),
    )
    &&& res_of(c.float) == spec_resolve_float(
        decls,
        (match parent {
            Some(p) => Some(res_of(p.float)),
            None => None,
        }),
        "float".spec_bytes(),
    )
    &&& res_of(c.position) == spec_resolve_position(
        decls,
        (match parent {
            Some(p) => Some(res_of(p.position)),
            None => None,
        }),
        "position".spec_bytes(),
    )
    &&& res_of(c.width) == spec_resolve_width(
        decls,
        (match parent {
            Some(p) => Some(res_of(p.width)),
            None => None,
        }),
        "width".spec_bytes(),
    )
    &&& res_of(c.height) == spec_resolve_height(
        decls,
        (match parent {
            Some(p) => Some(res_of(p.height)),
            None => None,
        }),
        "height".spec_bytes(),
    )
    &&& res_font(c.font_family) == spec_resolve_font_family(
        decls,
        (match parent {
            Some(p) => Some(res_font(p.font_family)),
            None => None,
        }),
        "font-family".spec_bytes(),
    )
}

impl CompleteSelectResults {
    /// Resolves the style of the document root: `inherit` and the
    /// default-inherited properties fall back to each property's initial
    /// value, so no `Inherit` ever escapes.
    pub fn new_root(results: &SelectResults) -> (r: CompleteSelectResults)
        ensures
            spec_resolved_against(r, results@, None),
    {
        CompleteSelectResults {
            background_color: resolve_color(
                results,
                Property::BackgroundColor,
                Color { r: 0, g: 0, b: 0, a: 0 },
                None,
                "background-color",
            ),
            border_top_color: resolve_color(
                results,
                Property::BorderTopColor,
                crate::color::black(),
                None,
                "border-top-color",
            ),
            border_right_color: resolve_color(
                results,
                Property::BorderRightColor,
                crate::color::black(),
                None,
                "border-right-color",
            ),
            border_bottom_color: resolve_color(
                results,
                Property::BorderBottomColor,
                crate::color::black(),
                None,
                "border-bottom-color",
            ),
            border_left_color: resolve_color(
                results,
                Property::BorderLeftColor,
                crate::color::black(),
                None,
                "border-left-color",
            ),
            border_top_width: resolve_border_width(
                results,
                Property::BorderTopWidth,
                None,
                "border-top-width",
            ),
            border_right_width: resolve_border_width(
                results,
                Property::BorderRightWidth,
                None,
                "border-right-width",
            ),
            border_bottom_width: resolve_border_width(
                results,
                Property::BorderBottomWidth,
                None,
                "border-bottom-width",
            ),
            border_left_width: resolve_border_width(
                results,
                Property::BorderLeftWidth,
                None,
                "border-left-width",
            ),
            margin_top: resolve_margin(results, Property::MarginTop, None, "margin-top"),
            margin_right: resolve_margin(results, Property::MarginRight, None, "margin-right"),
            margin_bottom: resolve_margin(results, Property::MarginBottom, None, "margin-bottom"),
            margin_left: resolve_margin(results, Property::MarginLeft, None, "margin-left"),
            display: resolve_display(results, None, "display"),
            float: resolve_float(results, None, "float"),
            position: resolve_position(results, None, "position"),
            width: resolve_width(results, None, "width"),
            height: resolve_height(results, None, "height"),
            font_family: resolve_font_family(results, None, "font-family"),
        }
    }

    /// Resolves the style of a child node against its parent's already
    /// resolved style: `inherit` and an unmatched default-inherited property
    /// take the parent's resolved value, whatever the depth of the chain.
    pub fn new_from_parent(parent: &CompleteSelectResults, results: &SelectResults) -> (r:
        CompleteSelectResults)
        ensures
            spec_resolved_against(r, results@, Some(*parent)),
    {
        CompleteSelectResults {
            background_color: resolve_color(
                results,
                Property::BackgroundColor,
                Color { r: 0, g: 0, b: 0, a: 0 },
                Some(&parent.background_color),
                "background-color",
            ),
            border_top_color: resolve_color(
                results,
                Property::BorderTopColor,
                crate::color::black(),
                Some(&parent.border_top_color),
                "border-top-color",
            ),
            border_right_color: resolve_color(
                results,
                Property::BorderRightColor,
                crate::color::black(),
                Some(&parent.border_right_color),
                "border-right-color",
            ),
            border_bottom_color: resolve_color(
                results,
                Property::BorderBottomColor,
                crate::color::black(),
                Some(&parent.border_bottom_color),
                "border-bottom-color",
            ),
            border_left_color: resolve_color(
                results,
                Property::BorderLeftColor,
                crate::color::black(),
                Some(&parent.border_left_color),
                "border-left-color",
            ),
            border_top_width: resolve_border_width(
                results,
                Property::BorderTopWidth,
                Some(&parent.border_top_width),
                "border-top-width",
            ),
            border_right_width: resolve_border_width(
                results,
                Property::BorderRightWidth,
                Some(&parent.border_right_width),
                "border-right-width",
            ),
            border_bottom_width: resolve_border_width(
                results,
                Property::BorderBottomWidth,
                Some(&parent.border_bottom_width),
                "border-bottom-width",
            ),
            border_left_width: resolve_border_width(
                results,
                Property::BorderLeftWidth,
                Some(&parent.border_left_width),
                "border-left-width",
            ),
            margin_top: resolve_margin(
                results,
                Property::MarginTop,
                Some(&parent.margin_top),
                "margin-top",
            ),
            margin_right: resolve_margin(
                results,
                Property::MarginRight,
                Some(&parent.margin_right),
                "margin-right",
            ),
            margin_bottom: resolve_margin(
                results,
                Property::MarginBottom,
                Some(&parent.margin_bottom),
                "margin-bottom",
            ),
            margin_left: resolve_margin(
                results,
                Property::MarginLeft,
                Some(&parent.margin_left),
                "margin-left",
            ),
            display: resolve_display(results, Some(&parent.display), "display"),
            float: resolve_float(results, Some(&parent.float), "float"),
            position: resolve_position(results, Some(&parent.position), "position"),
            width: resolve_width(results, Some(&parent.width), "width"),
            height: resolve_height(results, Some(&parent.height), "height"),
            font_family: resolve_font_family(results, Some(&parent.font_family), "font-family"),
        }
    }

    /// The read-only accessor façade over this resolved style.
    pub fn computed_style<'a>(&'a self) -> (r: CompleteStyle<'a>)
        ensures
            r.inner == self,
    {
        CompleteStyle { inner: self }
    }
}

/// The resolved style view: one accessor per property, each returning the
/// fully resolved value — never `Inherit` — or the unsupported-feature
/// signal of the hint it would have needed. Reads do not change the
/// underlying chain.
pub struct CompleteStyle<'a> {
    pub inner: &'a CompleteSelectResults,
}

impl<'a> CompleteStyle<'a> {
    pub fn background_color(&self) -> (r: Result<Color, UnsupportedFeature>)
        ensures
            res_of(r) == res_of(self.inner.background_color),
    {
        clone_res_color(&self.inner.background_color)
    }

    pub fn border_top_color(&self) -> (r: Result<Color, UnsupportedFeature>)
        ensures
            res_of(r) == res_of(self.inner.border_top_color),
    {
        clone_res_color(&self.inner.border_top_color)
    }

    pub fn border_right_color(&self) -> (r: Result<Color, UnsupportedFeature>)
        ensures
            res_of(r) == res_of(self.inner.border_right_color),
    {
        clone_res_color(&self.inner.border_right_color)
    }

    pub fn border_bottom_color(&self) -> (r: Result<Color, UnsupportedFeature>)
        ensures
            res_of(r) == res_of(self.inner.border_bottom_color),
    {
        clone_res_color(&self.inner.border_bottom_color)
    }

    pub fn border_left_color(&self) -> (r: Result<Color, UnsupportedFeature>)
        ensures
            res_of(r) == res_of(self.inner.border_left_color),
    {
        clone_res_color(&self.inner.border_left_color)
    }

    pub fn border_top_width(&self) -> (r: Result<CSSBorderWidth, UnsupportedFeature>)
        ensures
            res_of(r) == res_of(self.inner.border_top_width),
    {
        match &self.inner.border_top_width {
            Ok(c) => Ok(*c),
            Err(e) => Err(clone_unsupported(e)),
        }
    }

    pub fn border_right_width(&self) -> (r: Result<CSSBorderWidth, UnsupportedFeature>)
        ensures
            res_of(r) == res_of(self.inner.border_right_width),
    {
        match &self.inner.border_right_width {
            Ok(c) => Ok(*c),
            Err(e) => Err(clone_unsupported(e)),
        }
    }

    pub fn border_bottom_width(&self) -> (r: Result<CSSBorderWidth, UnsupportedFeature>)
        ensures
            res_of(r) == res_of(self.inner.border_bottom_width),
    {
        match &self.inner.border_bottom_width {
            Ok(c) => Ok(*c),
            Err(e) => Err(clone_unsupported(e)),
        }
    }

    pub fn border_left_width(&self) -> (r: Result<CSSBorderWidth, UnsupportedFeature>)
        ensures
            res_of(r) == res_of(self.inner.border_left_width),
    {
        match &self.inner.border_left_width {
            Ok(c) => Ok(*c),
            Err(e) => Err(clone_unsupported(e)),
        }
    }

    pub fn margin_top(&self) -> (r: Result<CSSMargin, UnsupportedFeature>)
        ensures
            res_of(r) == res_of(self.inner.margin_top),
    {
        match &self.inner.margin_top {
            Ok(c) => Ok(*c),
            Err(e) => Err(clone_unsupported(e)),
        }
    }

    pub fn margin_right(&self) -> (r: Result<CSSMargin, UnsupportedFeature>)
        ensures
            res_of(r) == res_of(self.inner.margin_right),
    {
        match &self.inner.margin_right {
            Ok(c) => Ok(*c),
            Err(e) => Err(clone_unsupported(e)),
        }
    }

    pub fn margin_bottom(&self) -> (r: Result<CSSMargin, UnsupportedFeature>)
        ensures
            res_of(r) == res_of(self.inner.margin_bottom),
    {
        match &self.inner.margin_bottom {
            Ok(c) => Ok(*c),
            Err(e) => Err(clone_unsupported(e)),
        }
    }

    pub fn margin_left(&self) -> (r: Result<CSSMargin, UnsupportedFeature>)
        ensures
            res_of(r) == res_of(self.inner.margin_left),
    {
        match &self.inner.margin_left {
            Ok(c) => Ok(*c),
            Err(e) => Err(clone_unsupported(e)),
        }
    }

    pub fn display(&self) -> (r: Result<CSSDisplay, UnsupportedFeature>)
        ensures
            res_of(r) == res_of(self.inner.display),
    {
        match &self.inner.display {
            Ok(c) => Ok(*c),
            Err(e) => Err(clone_unsupported(e)),
        }
    }

    pub fn float(&self) -> (r: Result<CSSFloat, UnsupportedFeature>)
        ensures
            res_of(r) == res_of(self.inner.float),
    {
        match &self.inner.float {
            Ok(c) => Ok(*c),
            Err(e) => Err(clone_unsupported(e)),
        }
    }

    pub fn position(&self) -> (r: Result<CSSPosition, UnsupportedFeature>)
        ensures
            res_of(r) == res_of(self.inner.position),
    {
        match &self.inner.position {
            Ok(c) => Ok(*c),
            Err(e) => Err(clone_unsupported(e)),
        }
    }

    pub fn width(&self) -> (r: Result<CSSWidth, UnsupportedFeature>)
        ensures
            res_of(r) == res_of(self.inner.width),
    {
        match &self.inner.width {
            Ok(c) => Ok(*c),
            Err(e) => Err(clone_unsupported(e)),
        }
    }

    pub fn height(&self) -> (r: Result<CSSHeight, UnsupportedFeature>)
        ensures
            res_of(r) == res_of(self.inner.height),
    {
        match &self.inner.height {
            Ok(c) => Ok(*c),
            Err(e) => Err(clone_unsupported(e)),
        }
    }

    pub fn font_family(&self) -> (r: Result<Vec<CSSFontFamily>, UnsupportedFeature>)
        ensures
            res_font(r) == res_font(self.inner.font_family),
    {
        match &self.inner.font_family {
            Ok(fams) => Ok(clone_font_list(fams)),
            Err(e) => Err(clone_unsupported(e)),
        }
    }
}

/// A matched declaration whose hint normalizes to a `Specified` color is
/// resolved to exactly that color, whatever the ancestor chain holds.
pub proof fn lemma_specified_wins_color(
    decls: Seq<SpecDeclaration>,
    p: Property,
    initial: Color,
    parent: Option<Result<Color, Seq<u8>>>,
    pname: Seq<u8>,
    c: Color,
)
    requires
        spec_winning(decls, p) matches Some(v) && spec_norm_color(v) == Some(
            CSSValue::Specified(c),
        ),
    ensures
        spec_resolve_color(decls, p, initial, parent, pname) == Ok::<Color, Seq<u8>>(c),
{
}

/// A matched declaration whose hint normalizes to a `Specified` border width
/// is resolved to exactly that width — a pixel length round-trips unchanged.
pub proof fn lemma_specified_wins_border_width(
    decls: Seq<SpecDeclaration>,
    p: Property,
    parent: Option<Result<CSSBorderWidth, Seq<u8>>>,
    pname: Seq<u8>,
    w: CSSBorderWidth,
)
    requires
        spec_winning(decls, p) matches Some(v) && spec_norm_border_width(v) == Some(
            CSSValue::Specified(w),
        ),
    ensures
        spec_resolve_border_width(decls, p, parent, pname) == Ok::<CSSBorderWidth, Seq<u8>>(w),
{
}

/// Inheritance composition, one step: a node whose winning color hint is
/// `inherit` resolves to exactly its parent's resolved value.
pub proof fn lemma_inherit_composes_color(
    decls: Seq<SpecDeclaration>,
    p: Property,
    initial: Color,
    parent: Result<Color, Seq<u8>>,
    pname: Seq<u8>,
)
    requires
        spec_winning(decls, p) matches Some(v) && spec_norm_color(v) == Some(
            CSSValue::<Color>::Inherit,
        ),
    ensures
        spec_resolve_color(decls, p, initial, Some(parent), pname) == parent,
{
}

/// A color property with no matching declaration resolves to its initial
/// value — at the document root as everywhere else, so no unresolved
/// `Inherit` is ever observable.
pub proof fn lemma_unmatched_resolves_to_initial_color(
    decls: Seq<SpecDeclaration>,
    p: Property,
    initial: Color,
    parent: Option<Result<Color, Seq<u8>>>,
    pname: Seq<u8>,
)
    requires
        spec_winning(decls, p) is None,
    ensures
        spec_resolve_color(decls, p, initial, parent, pname) == Ok::<Color, Seq<u8>>(initial),
{
}

/// A width with no matching declaration resolves to its initial value `auto`.
pub proof fn lemma_unmatched_resolves_to_initial_width(
    decls: Seq<SpecDeclaration>,
    parent: Option<Result<CSSWidth, Seq<u8>>>,
    pname: Seq<u8>,
)
    requires
        spec_winning(decls, Property::Width) is None,
    ensures
        spec_resolve_width(decls, parent, pname) == Ok::<CSSWidth, Seq<u8>>(
            CSSWidth::CSSWidthAuto,
        ),
{
}

/// The resolution of a color property along a whole ancestor chain;
/// `chain[0]` holds the root's declarations and `chain.last()` the node's
/// own. Each node is resolved against its parent's resolved value, the root
/// against the initial value.
pub open spec fn spec_resolve_color_chain(
    chain: Seq<Seq<SpecDeclaration>>,
    p: Property,
    initial: Color,
    pname: Seq<u8>,
) -> Result<Color, Seq<u8>>
    decreases chain.len(),
{
    if chain.len() == 0 {
        Ok(initial)
    } else {
        spec_resolve_color(
            chain.last(),
            p,
            initial,
            (if chain.len() == 1 {
                None
            } else {
                Some(spec_resolve_color_chain(chain.drop_last(), p, initial, pname))
            }),
            pname,
        )
    }
}

/// A root style built by `new_root` carries, for the background color, the
/// chain resolution of the one-node chain holding its own declarations.
pub proof fn lemma_new_root_matches_chain(c: CompleteSelectResults, decls: Seq<SpecDeclaration>)
    requires
        spec_resolved_against(c, decls, None),
    ensures
        res_of(c.background_color) == spec_resolve_color_chain(
            seq![decls],
            Property::BackgroundColor,
            Color { r: 0, g: 0, b: 0, a: 0 },
            "background-color".spec_bytes(),
        ),
{
    let chain = seq![decls];
    assert(chain.len() == 1);
    assert(chain.last() == decls);
}

/// A child style built by `new_from_parent` extends the parent's chain
/// resolution by one node: composition along the ancestor chain mirrors the
/// document tree at every depth.
pub proof fn lemma_new_from_parent_matches_chain(
    parent: CompleteSelectResults,
    c: CompleteSelectResults,
    chain: Seq<Seq<SpecDeclaration>>,
    decls: Seq<SpecDeclaration>,
)
    requires
        chain.len() >= 1,
        res_of(parent.background_color) == spec_resolve_color_chain(
            chain,
            Property::BackgroundColor,
            Color { r: 0, g: 0, b: 0, a: 0 },
            "background-color".spec_bytes(),
        ),
        spec_resolved_against(c, decls, Some(parent)),
    ensures
        res_of(c.background_color) == spec_resolve_color_chain(
            chain.push(decls),
            Property::BackgroundColor,
            Color { r: 0, g: 0, b: 0, a: 0 },
            "background-color".spec_bytes(),
        ),
{
    let longer = chain.push(decls);
    assert(longer.len() == chain.len() + 1);
    assert(longer.last() == decls);
    assert(longer.drop_last() =~= chain);
}

/// Inheritance composition through arbitrary depth: where every node of the
/// chain either declares `inherit` for a color property or leaves it
/// unmatched, the resolution terminates at the root with the property's
/// initial value.
pub proof fn lemma_inherit_chain_terminates_at_initial(
    chain: Seq<Seq<SpecDeclaration>>,
    p: Property,
    initial: Color,
    pname: Seq<u8>,
)
    requires
        forall|i: int|
            0 <= i < chain.len() ==> (spec_winning(#[trigger] chain[i], p) is None || (
            spec_winning(chain[i], p) matches Some(v) && spec_norm_color(v) == Some(
                CSSValue::<Color>::Inherit,
            ))),
    ensures
        spec_resolve_color_chain(chain, p, initial, pname) == Ok::<Color, Seq<u8>>(initial),
    decreases chain.len(),
{
    if chain.len() > 0 {
        assert(chain.last() == chain[chain.len() - 1]);
        if chain.len() > 1 {
            assert(forall|i: int|
                0 <= i < chain.drop_last().len() ==> #[trigger] chain.drop_last()[i] == chain[i]);
            lemma_inherit_chain_terminates_at_initial(chain.drop_last(), p, initial, pname);
        }
    }
}

} // verus!
