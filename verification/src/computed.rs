//! The value normalizer and the per-node raw style view.
//!
//! Normalization turns the raw hint a matched declaration carries into the
//! typed two-state value of the property: a pure function of the hint, total
//! over the supported subset, and an explicit unsupported-feature signal
//! naming the property everywhere else — never a silent substitute.
//!
//! `ComputedStyle` is the pre-cascade view of one node's `SelectResults`: for
//! each property it reports the winning declaration's normalized value; where
//! nothing matched, the property's initial value, or `Inherit` for the
//! properties CSS inherits by default (here: `font-family`).

use vstd::prelude::*;
use vstd::string::StringSliceAdditionalSpecFns;
use crate::color::{named_color, spec_black, spec_named_color, Color};
use crate::error::{unimpl, UnsupportedFeature};

use crate::parse::{bytes_is, clone_bytes};
use crate::select::SelectResults;
use crate::stylesheet::{clone_raw_value, Property, RawUnit, RawValue, SpecDeclaration, SpecRawValue};
use crate::units::{GenericFontFamily, Length};
use crate::values::{
    CSSBorderWidth, CSSDisplay, CSSFloat, CSSFontFamily, CSSHeight, CSSMargin, CSSPosition,
    CSSValue, CSSWidth, SpecFontFamily,
};

verus! {

/// The value of the last declaration for `p`, if any: the one the cascade
/// order lets win.
pub open spec fn spec_winning(decls: Seq<SpecDeclaration>, p: Property) -> Option<SpecRawValue>
    decreases decls.len(),
{
    if decls.len() == 0 {
        None
    } else if decls.last().property == p {
        Some(decls.last().value)
    } else {
        spec_winning(decls.drop_last(), p)
    }
}

proof fn lemma_winning_prefix(decls: Seq<SpecDeclaration>, p: Property, i: int)
    requires
        0 <= i <= decls.len(),
        forall|j: int| i <= j < decls.len() ==> decls[j].property != p,
    ensures
        spec_winning(decls, p) == spec_winning(decls.take(i), p),
    decreases decls.len() - i,
{
    if i == decls.len() {
        assert(decls.take(i) =~= decls);
    } else {
        lemma_winning_prefix(decls, p, i + 1);
        assert(decls.take(i + 1).drop_last() =~= decls.take(i));
        assert(decls.take(i + 1).last() == decls[i]);
    }
}

/// The winning raw value for `p`, as a fresh copy.
pub fn winning(results: &SelectResults, p: Property) -> (r: Option<RawValue>)
    ensures
        (match r {
            Some(v) => spec_winning(results@, p) == Some(v@),
            None => spec_winning(results@, p) is None,
        }),
{
    let decls = &results.declarations;
    let ghost model = results@;
    let mut i: usize = decls.len();
    while i > 0
        invariant
            i <= decls@.len(),
            model == decls.deep_view(),
            model == results@,
            forall|j: int| i <= j < model.len() ==> model[j].property != p,
        decreases i,
    {
        if decls[i - 1].property == p {
            let v = clone_raw_value(&decls[i - 1].value);
            proof {
                lemma_winning_prefix(model, p, i as int);
                assert(model.take(i as int).last() == model[i as int - 1]);
                assert(model[i as int - 1] == decls@[i as int - 1]@);
                assert(model.take(i as int).len() == i);
                assert(spec_winning(model.take(i as int), p) == Some(
                    model[i as int - 1].value,
                ));
                assert(v@ == model[i as int - 1].value);
            }
            return Some(v);
        }
        proof {
            assert(model[i as int - 1] == decls@[i as int - 1]@);
        }
        i = i - 1;
    }
    proof {
        lemma_winning_prefix(model, p, 0);
        assert(model.take(0) =~= Seq::<SpecDeclaration>::empty());
    }
    None
}

/// Normalization of a color-valued hint: a hex triple is the opaque color it
/// writes; a single identifier is `inherit` or a named color.
pub open spec fn spec_norm_color(v: SpecRawValue) -> Option<CSSValue<Color>> {
    match v {
        SpecRawValue::Hex(r, g, b) => Some(CSSValue::Specified(Color { r, g, b, a: 255 })),
        SpecRawValue::Dim(n, u) => None,
        SpecRawValue::Idents(list) => {
            if list.len() == 1 {
                if list[0] == "inherit".spec_bytes() {
                    Some(CSSValue::Inherit)
                } else {
                    match spec_named_color(list[0]) {
                        Some(c) => Some(CSSValue::Specified(c)),
                        None => None,
                    }
                }
            } else {
                None
            }
        },
    }
}

pub fn norm_color(v: &RawValue) -> (r: Option<CSSValue<Color>>)
    ensures
        r == spec_norm_color(v@),
{
    match v {
        RawValue::Hex(r, g, b) => Some(CSSValue::Specified(Color { r: *r, g: *g, b: *b, a: 255 })),
        RawValue::Dim(n, u) => None,
        RawValue::Idents(list) => {
            if list.len() == 1 {
                assert(list.deep_view()[0] =~= list@[0]@);
                if bytes_is(&list[0], "inherit") {
                    Some(CSSValue::Inherit)
                } else {
                    match named_color(&list[0]) {
                        Some(c) => Some(CSSValue::Specified(c)),
                        None => None,
                    }
                }
            } else {
                None
            }
        },
    }
}

/// The length a supported dimension denotes; `pt` is outside the subset.
pub open spec fn spec_norm_length(n: i64, u: RawUnit) -> Option<Length> {
    match u {
        RawUnit::Px => Some(Length::Px(n)),
        RawUnit::Em => Some(Length::Em(n)),
        RawUnit::Pt => None,
    }
}

fn norm_length(n: i64, u: RawUnit) -> (r: Option<Length>)
    ensures
        r == spec_norm_length(n, u),
{
    match u {
        RawUnit::Px => Some(Length::Px(n)),
        RawUnit::Em => Some(Length::Em(n)),
        RawUnit::Pt => None,
    }
}

/// Normalization of a border-width hint: a supported dimension, one of the
/// keyword widths, or `inherit`.
pub open spec fn spec_norm_border_width(v: SpecRawValue) -> Option<CSSValue<CSSBorderWidth>> {
    match v {
        SpecRawValue::Hex(r, g, b) => None,
        SpecRawValue::Dim(n, u) => match spec_norm_length(n, u) {
            Some(l) => Some(CSSValue::Specified(CSSBorderWidth::CSSBorderWidthLength(l))),
            None => None,
        },
        SpecRawValue::Idents(list) => {
            if list.len() == 1 {
                if list[0] == "inherit".spec_bytes() {
                    Some(CSSValue::Inherit)
                } else if list[0] == "thin".spec_bytes() {
                    Some(CSSValue::Specified(CSSBorderWidth::CSSBorderWidthThin))
                } else if list[0] == "medium".spec_bytes() {
                    Some(CSSValue::Specified(CSSBorderWidth::CSSBorderWidthMedium))
                } else if list[0] == "thick".spec_bytes() {
                    Some(CSSValue::Specified(CSSBorderWidth::CSSBorderWidthThick))
                } else {
                    None
                }
            } else {
                None
            }
        },
    }
}

pub fn norm_border_width(v: &RawValue) -> (r: Option<CSSValue<CSSBorderWidth>>)
    ensures
        r == spec_norm_border_width(v@),
{
    match v {
        RawValue::Hex(r, g, b) => None,
        RawValue::Dim(n, u) => match norm_length(*n, *u) {
            Some(l) => Some(CSSValue::Specified(CSSBorderWidth::CSSBorderWidthLength(l))),
            None => None,
        },
        RawValue::Idents(list) => {
            if list.len() == 1 {
                assert(list.deep_view()[0] =~= list@[0]@);
                if bytes_is(&list[0], "inherit") {
                    Some(CSSValue::Inherit)
                } else if bytes_is(&list[0], "thin") {
                    Some(CSSValue::Specified(CSSBorderWidth::CSSBorderWidthThin))
                } else if bytes_is(&list[0], "medium") {
                    Some(CSSValue::Specified(CSSBorderWidth::CSSBorderWidthMedium))
                } else if bytes_is(&list[0], "thick") {
                    Some(CSSValue::Specified(CSSBorderWidth::CSSBorderWidthThick))
                } else {
                    None
                }
            } else {
                None
            }
        },
    }
}

/// Normalization of a margin hint: a supported dimension, `auto`, or
/// `inherit`.
pub open spec fn spec_norm_margin(v: SpecRawValue) -> Option<CSSValue<CSSMargin>> {
    match v {
        SpecRawValue::Hex(r, g, b) => None,
        SpecRawValue::Dim(n, u) => match spec_norm_length(n, u) {
            Some(l) => Some(CSSValue::Specified(CSSMargin::CSSMarginLength(l))),
            None => None,
        },
        SpecRawValue::Idents(list) => {
            if list.len() == 1 {
                if list[0] == "inherit".spec_bytes() {
                    Some(CSSValue::Inherit)
                } else if list[0] == "auto".spec_bytes() {
                    Some(CSSValue::Specified(CSSMargin::CSSMarginAuto))
                } else {
                    None
                }
            } else {
                None
            }
        },
    }
}

pub fn norm_margin(v: &RawValue) -> (r: Option<CSSValue<CSSMargin>>)
    ensures
        r == spec_norm_margin(v@),
{
    match v {
        RawValue::Hex(r, g, b) => None,
        RawValue::Dim(n, u) => match norm_length(*n, *u) {
            Some(l) => Some(CSSValue::Specified(CSSMargin::CSSMarginLength(l))),
            None => None,
        },
        RawValue::Idents(list) => {
            if list.len() == 1 {
                assert(list.deep_view()[0] =~= list@[0]@);
                if bytes_is(&list[0], "inherit") {
                    Some(CSSValue::Inherit)
                } else if bytes_is(&list[0], "auto") {
                    Some(CSSValue::Specified(CSSMargin::CSSMarginAuto))
                } else {
                    None
                }
            } else {
                None
            }
        },
    }
}

/// Normalization of a display hint.
pub open spec fn spec_norm_display(v: SpecRawValue) -> Option<CSSValue<CSSDisplay>> {
    match v {
        SpecRawValue::Idents(list) => {
            if list.len() == 1 {
                if list[0] == "inherit".spec_bytes() {
                    Some(CSSValue::Inherit)
                } else if list[0] == "inline".spec_bytes() {
                    Some(CSSValue::Specified(CSSDisplay::CSSDisplayInline))
                } else if list[0] == "block".spec_bytes() {
                    Some(CSSValue::Specified(CSSDisplay::CSSDisplayBlock))
                } else if list[0] == "list-item".spec_bytes() {
                    Some(CSSValue::Specified(CSSDisplay::CSSDisplayListItem))
                } else if list[0] == "inline-block".spec_bytes() {
                    Some(CSSValue::Specified(CSSDisplay::CSSDisplayInlineBlock))
                } else if list[0] == "table".spec_bytes() {
                    Some(CSSValue::Specified(CSSDisplay::CSSDisplayTable))
                } else if list[0] == "none".spec_bytes() {
                    Some(CSSValue::Specified(CSSDisplay::CSSDisplayNone))
                } else {
                    None
                }
            } else {
                None
            }
        },
        _ => None,
    }
}

pub fn norm_display(v: &RawValue) -> (r: Option<CSSValue<CSSDisplay>>)
    ensures
        r == spec_norm_display(v@),
{
    match v {
        RawValue::Idents(list) => {
            if list.len() == 1 {
                assert(list.deep_view()[0] =~= list@[0]@);
                if bytes_is(&list[0], "inherit") {
                    Some(CSSValue::Inherit)
                } else if bytes_is(&list[0], "inline") {
                    Some(CSSValue::Specified(CSSDisplay::CSSDisplayInline))
                } else if bytes_is(&list[0], "block") {
                    Some(CSSValue::Specified(CSSDisplay::CSSDisplayBlock))
                } else if bytes_is(&list[0], "list-item") {
                    Some(CSSValue::Specified(CSSDisplay::CSSDisplayListItem))
                } else if bytes_is(&list[0], "inline-block") {
                    Some(CSSValue::Specified(CSSDisplay::CSSDisplayInlineBlock))
                } else if bytes_is(&list[0], "table") {
                    Some(CSSValue::Specified(CSSDisplay::CSSDisplayTable))
                } else if bytes_is(&list[0], "none") {
                    Some(CSSValue::Specified(CSSDisplay::CSSDisplayNone))
                } else {
                    None
                }
            } else {
                None
            }
        },
        _ => None,
    }
}

/// Normalization of a float hint.
pub open spec fn spec_norm_float(v: SpecRawValue) -> Option<CSSValue<CSSFloat>> {
    match v {
        SpecRawValue::Idents(list) => {
            if list.len() == 1 {
                if list[0] == "inherit".spec_bytes() {
                    Some(CSSValue::Inherit)
                } else if list[0] == "left".spec_bytes() {
                    Some(CSSValue::Specified(CSSFloat::CSSFloatLeft))
                } else if list[0] == "right".spec_bytes() {
                    Some(CSSValue::Specified(CSSFloat::CSSFloatRight))
                } else if list[0] == "none".spec_bytes() {
                    Some(CSSValue::Specified(CSSFloat::CSSFloatNone))
                } else {
                    None
                }
            } else {
                None
            }
        },
        _ => None,
    }
}

pub fn norm_float(v: &RawValue) -> (r: Option<CSSValue<CSSFloat>>)
    ensures
        r == spec_norm_float(v@),
{
    match v {
        RawValue::Idents(list) => {
            if list.len() == 1 {
                assert(list.deep_view()[0] =~= list@[0]@);
                if bytes_is(&list[0], "inherit") {
                    Some(CSSValue::Inherit)
                } else if bytes_is(&list[0], "left") {
                    Some(CSSValue::Specified(CSSFloat::CSSFloatLeft))
                } else if bytes_is(&list[0], "right") {
                    Some(CSSValue::Specified(CSSFloat::CSSFloatRight))
                } else if bytes_is(&list[0], "none") {
                    Some(CSSValue::Specified(CSSFloat::CSSFloatNone))
                } else {
                    None
                }
            } else {
                None
            }
        },
        _ => None,
    }
}

/// Normalization of a position hint.
pub open spec fn spec_norm_position(v: SpecRawValue) -> Option<CSSValue<CSSPosition>> {
    match v {
        SpecRawValue::Idents(list) => {
            if list.len() == 1 {
                if list[0] == "inherit".spec_bytes() {
                    Some(CSSValue::Inherit)
                } else if list[0] == "static".spec_bytes() {
                    Some(CSSValue::Specified(CSSPosition::CSSPositionStatic))
                } else if list[0] == "relative".spec_bytes() {
                    Some(CSSValue::Specified(CSSPosition::CSSPositionRelative))
                } else if list[0] == "absolute".spec_bytes() {
                    Some(CSSValue::Specified(CSSPosition::CSSPositionAbsolute))
                } else if list[0] == "fixed".spec_bytes() {
                    Some(CSSValue::Specified(CSSPosition::CSSPositionFixed))
                } else {
                    None
                }
            } else {
                None
            }
        },
        _ => None,
    }
}

pub fn norm_position(v: &RawValue) -> (r: Option<CSSValue<CSSPosition>>)
    ensures
        r == spec_norm_position(v@),
{
    match v {
        RawValue::Idents(list) => {
            if list.len() == 1 {
                assert(list.deep_view()[0] =~= list@[0]@);
                if bytes_is(&list[0], "inherit") {
                    Some(CSSValue::Inherit)
                } else if bytes_is(&list[0], "static") {
                    Some(CSSValue::Specified(CSSPosition::CSSPositionStatic))
                } else if bytes_is(&list[0], "relative") {
                    Some(CSSValue::Specified(CSSPosition::CSSPositionRelative))
                } else if bytes_is(&list[0], "absolute") {
                    Some(CSSValue::Specified(CSSPosition::CSSPositionAbsolute))
                } else if bytes_is(&list[0], "fixed") {
                    Some(CSSValue::Specified(CSSPosition::CSSPositionFixed))
                } else {
                    None
                }
            } else {
                None
            }
        },
        _ => None,
    }
}

/// Normalization of a width hint: a supported dimension, `auto`, or
/// `inherit`.
pub open spec fn spec_norm_width(v: SpecRawValue) -> Option<CSSValue<CSSWidth>> {
    match v {
        SpecRawValue::Hex(r, g, b) => None,
        SpecRawValue::Dim(n, u) => match spec_norm_length(n, u) {
            Some(l) => Some(CSSValue::Specified(CSSWidth::CSSWidthLength(l))),
            None => None,
        },
        SpecRawValue::Idents(list) => {
            if list.len() == 1 {
                if list[0] == "inherit".spec_bytes() {
                    Some(CSSValue::Inherit)
                } else if list[0] == "auto".spec_bytes() {
                    Some(CSSValue::Specified(CSSWidth::CSSWidthAuto))
                } else {
                    None
                }
            } else {
                None
            }
        },
    }
}

pub fn norm_width(v: &RawValue) -> (r: Option<CSSValue<CSSWidth>>)
    ensures
        r == spec_norm_width(v@),
{
    match v {
        RawValue::Hex(r, g, b) => None,
        RawValue::Dim(n, u) => match norm_length(*n, *u) {
            Some(l) => Some(CSSValue::Specified(CSSWidth::CSSWidthLength(l))),
            None => None,
        },
        RawValue::Idents(list) => {
            if list.len() == 1 {
                assert(list.deep_view()[0] =~= list@[0]@);
                if bytes_is(&list[0], "inherit") {
                    Some(CSSValue::Inherit)
                } else if bytes_is(&list[0], "auto") {
                    Some(CSSValue::Specified(CSSWidth::CSSWidthAuto))
                } else {
                    None
                }
            } else {
                None
            }
        },
    }
}

/// Normalization of a height hint: a supported dimension, `auto`, or
/// `inherit`.
pub open spec fn spec_norm_height(v: SpecRawValue) -> Option<CSSValue<CSSHeight>> {
    match v {
        SpecRawValue::Hex(r, g, b) => None,
        SpecRawValue::Dim(n, u) => match spec_norm_length(n, u) {
            Some(l) => Some(CSSValue::Specified(CSSHeight::CSSHeightLength(l))),
            None => None,
        },
        SpecRawValue::Idents(list) => {
            if list.len() == 1 {
                if list[0] == "inherit".spec_bytes() {
                    Some(CSSValue::Inherit)
                } else if list[0] == "auto".spec_bytes() {
                    Some(CSSValue::Specified(CSSHeight::CSSHeightAuto))
                } else {
                    None
                }
            } else {
                None
            }
        },
    }
}

pub fn norm_height(v: &RawValue) -> (r: Option<CSSValue<CSSHeight>>)
    ensures
        r == spec_norm_height(v@),
{
    match v {
        RawValue::Hex(r, g, b) => None,
        RawValue::Dim(n, u) => match norm_length(*n, *u) {
            Some(l) => Some(CSSValue::Specified(CSSHeight::CSSHeightLength(l))),
            None => None,
        },
        RawValue::Idents(list) => {
            if list.len() == 1 {
                assert(list.deep_view()[0] =~= list@[0]@);
                if bytes_is(&list[0], "inherit") {
                    Some(CSSValue::Inherit)
                } else if bytes_is(&list[0], "auto") {
                    Some(CSSValue::Specified(CSSHeight::CSSHeightAuto))
                } else {
                    None
                }
            } else {
                None
            }
        },
    }
}

/// The font-family entry one identifier denotes: a generic family keyword,
/// or a concrete family name.
pub open spec fn spec_font_entry(name: Seq<u8>) -> SpecFontFamily {
    if name == "serif".spec_bytes() {
        SpecFontFamily::Generic(GenericFontFamily::Serif)
    } else if name == "sans-serif".spec_bytes() {
        SpecFontFamily::Generic(GenericFontFamily::SansSerif)
    } else if name == "cursive".spec_bytes() {
        SpecFontFamily::Generic(GenericFontFamily::Cursive)
    } else if name == "fantasy".spec_bytes() {
        SpecFontFamily::Generic(GenericFontFamily::Fantasy)
    } else if name == "monospace".spec_bytes() {
        SpecFontFamily::Generic(GenericFontFamily::Monospace)
    } else {
        SpecFontFamily::FamilyName(name)
    }
}

fn font_entry(name: &Vec<u8>) -> (r: CSSFontFamily)
    ensures
        r@ == spec_font_entry(name@),
{
    if bytes_is(name, "serif") {
        CSSFontFamily::CSSFontFamilyGenericFamily(GenericFontFamily::Serif)
    } else if bytes_is(name, "sans-serif") {
        CSSFontFamily::CSSFontFamilyGenericFamily(GenericFontFamily::SansSerif)
    } else if bytes_is(name, "cursive") {
        CSSFontFamily::CSSFontFamilyGenericFamily(GenericFontFamily::Cursive)
    } else if bytes_is(name, "fantasy") {
        CSSFontFamily::CSSFontFamilyGenericFamily(GenericFontFamily::Fantasy)
    } else if bytes_is(name, "monospace") {
        CSSFontFamily::CSSFontFamilyGenericFamily(GenericFontFamily::Monospace)
    } else {
        CSSFontFamily::CSSFontFamilyFamilyName(clone_bytes(name))
    }
}

/// Normalization of a font-family hint: `inherit`, or the list of entries in
/// source order.
pub open spec fn spec_norm_font_family(v: SpecRawValue) -> Option<
    CSSValue<Seq<SpecFontFamily>>,
> {
    match v {
        SpecRawValue::Idents(list) => {
            if list.len() == 1 && list[0] == "inherit".spec_bytes() {
                Some(CSSValue::Inherit)
            } else if list.len() >= 1 {
                Some(CSSValue::Specified(Seq::new(list.len(), |i: int| spec_font_entry(list[i]))))
            } else {
                None
            }
        },
        _ => None,
    }
}

pub fn norm_font_family(v: &RawValue) -> (r: Option<CSSValue<Vec<CSSFontFamily>>>)
    ensures
        (match r {
            Some(CSSValue::Inherit) => spec_norm_font_family(v@) == Some(
                CSSValue::<Seq<SpecFontFamily>>::Inherit,
            ),
            Some(CSSValue::Specified(fams)) => spec_norm_font_family(v@) == Some(
                CSSValue::Specified(fams.deep_view()),
            ),
            None => spec_norm_font_family(v@) is None,
        }),
{
    match v {
        RawValue::Idents(list) => {
            assert(list.deep_view().len() == list@.len());
            if list.len() == 1 && bytes_is(&list[0], "inherit") {
                assert(list.deep_view()[0] =~= list@[0]@);
                Some(CSSValue::Inherit)
            } else if list.len() >= 1 {
                proof {
                    if list.deep_view().len() == 1 {
                        assert(list.deep_view()[0] =~= list@[0]@);
                    }
                }
                let mut out: Vec<CSSFontFamily> = Vec::new();
                let mut k: usize = 0;
                while k < list.len()
                    invariant
                        k <= list@.len(),
                        out@.len() == k,
                        forall|j: int| 0 <= j < k ==> out@[j]@ == spec_font_entry(
                            list.deep_view()[j],
                        ),
                    decreases list@.len() - k,
                {
                    let e = font_entry(&list[k]);
                    proof {
                        assert(list.deep_view()[k as int] =~= list@[k as int]@);
                    }
                    out.push(e);
                    k = k + 1;
                }
                proof {
                    assert(out.deep_view() =~~= Seq::new(
                        list.deep_view().len(),
                        |i: int| spec_font_entry(list.deep_view()[i]),
                    ));
                }
                Some(CSSValue::Specified(out))
            } else {
                None
            }
        },
        _ => None,
    }
}

/// Initial value of `background-color`: fully transparent.
pub open spec fn spec_initial_background_color() -> CSSValue<Color> {
    CSSValue::Specified(Color { r: 0, g: 0, b: 0, a: 0 })
}

/// Initial value of the border colors: black, standing in for the initial
/// value of the `color` property.
pub open spec fn spec_initial_border_color() -> CSSValue<Color> {
    CSSValue::Specified(spec_black())
}

/// Initial value of the border widths: `medium`.
pub open spec fn spec_initial_border_width() -> CSSValue<CSSBorderWidth> {
    CSSValue::Specified(CSSBorderWidth::CSSBorderWidthMedium)
}

/// Initial value of the margins: zero.
pub open spec fn spec_initial_margin() -> CSSValue<CSSMargin> {
    CSSValue::Specified(CSSMargin::CSSMarginLength(Length::Px(0)))
}

/// Initial value of `display`: `inline`.
pub open spec fn spec_initial_display() -> CSSValue<CSSDisplay> {
    CSSValue::Specified(CSSDisplay::CSSDisplayInline)
}

/// Initial value of `float`: `none`.
pub open spec fn spec_initial_float() -> CSSValue<CSSFloat> {
    CSSValue::Specified(CSSFloat::CSSFloatNone)
}

/// Initial value of `position`: `static`.
pub open spec fn spec_initial_position() -> CSSValue<CSSPosition> {
    CSSValue::Specified(CSSPosition::CSSPositionStatic)
}

/// Initial value of `width`: `auto`.
pub open spec fn spec_initial_width() -> CSSValue<CSSWidth> {
    CSSValue::Specified(CSSWidth::CSSWidthAuto)
}

/// Initial value of `height`: `auto`.
pub open spec fn spec_initial_height() -> CSSValue<CSSHeight> {
    CSSValue::Specified(CSSHeight::CSSHeightAuto)
}

/// The raw view of a color-valued property: the winning declaration's
/// normalized value, or `initial` where nothing matched; `None` stands for an
/// unsupported hint.
pub open spec fn spec_raw_color(
    decls: Seq<SpecDeclaration>,
    p: Property,
    initial: CSSValue<Color>,
) -> Option<CSSValue<Color>> {
    match spec_winning(decls, p) {
        None => Some(initial),
        Some(v) => spec_norm_color(v),
    }
}

pub open spec fn spec_raw_border_width(decls: Seq<SpecDeclaration>, p: Property) -> Option<
    CSSValue<CSSBorderWidth>,
> {
    match spec_winning(decls, p) {
        None => Some(spec_initial_border_width()),
        Some(v) => spec_norm_border_width(v),
    }
}

pub open spec fn spec_raw_margin(decls: Seq<SpecDeclaration>, p: Property) -> Option<
    CSSValue<CSSMargin>,
> {
    match spec_winning(decls, p) {
        None => Some(spec_initial_margin()),
        Some(v) => spec_norm_margin(v),
    }
}

pub open spec fn spec_raw_display(decls: Seq<SpecDeclaration>) -> Option<CSSValue<CSSDisplay>> {
    match spec_winning(decls, Property::Display) {
        None => Some(spec_initial_display()),
        Some(v) => spec_norm_display(v),
    }
}

pub open spec fn spec_raw_float(decls: Seq<SpecDeclaration>) -> Option<CSSValue<CSSFloat>> {
    match spec_winning(decls, Property::Float) {
        None => Some(spec_initial_float()),
        Some(v) => spec_norm_float(v),
    }
}

pub open spec fn spec_raw_position(decls: Seq<SpecDeclaration>) -> Option<CSSValue<CSSPosition>> {
    match spec_winning(decls, Property::Position) {
        None => Some(spec_initial_position()),
        Some(v) => spec_norm_position(v),
    }
}

pub open spec fn spec_raw_width(decls: Seq<SpecDeclaration>) -> Option<CSSValue<CSSWidth>> {
    match spec_winning(decls, Property::Width) {
        None => Some(spec_initial_width()),
        Some(v) => spec_norm_width(v),
    }
}

pub open spec fn spec_raw_height(decls: Seq<SpecDeclaration>) -> Option<CSSValue<CSSHeight>> {
    match spec_winning(decls, Property::Height) {
        None => Some(spec_initial_height()),
        Some(v) => spec_norm_height(v),
    }
}

/// The raw view of `font-family`, which CSS inherits by default: where
/// nothing matched, the value is `Inherit`.
pub open spec fn spec_raw_font_family(decls: Seq<SpecDeclaration>) -> Option<
    CSSValue<Seq<SpecFontFamily>>,
> {
    match spec_winning(decls, Property::FontFamily) {
        None => Some(CSSValue::Inherit),
        Some(v) => spec_norm_font_family(v),
    }
}

/// For the document root, an inline-level display computes to `block`; other
/// nodes keep their value.
pub open spec fn spec_display_fixup(root: bool, v: CSSValue<CSSDisplay>) -> CSSValue<CSSDisplay> {
    if root {
        match v {
            CSSValue::Specified(CSSDisplay::CSSDisplayInline) => CSSValue::Specified(
                CSSDisplay::CSSDisplayBlock,
            ),
            CSSValue::Specified(CSSDisplay::CSSDisplayInlineBlock) => CSSValue::Specified(
                CSSDisplay::CSSDisplayBlock,
            ),
            CSSValue::Specified(CSSDisplay::CSSDisplayInlineTable) => CSSValue::Specified(
                CSSDisplay::CSSDisplayTable,
            ),
            other => other,
        }
    } else {
        v
    }
}

fn raw_color_prop(
    results: &SelectResults,
    p: Property,
    initial: CSSValue<Color>,
    name: &str,
) -> (r: Result<CSSValue<Color>, UnsupportedFeature>)
    ensures
        (match r {
            Ok(v) => spec_raw_color(results@, p, initial) == Some(v),
            Err(e) => spec_raw_color(results@, p, initial) is None && e.name()
                == name.spec_bytes(),
        }),
{
    match winning(results, p) {
        None => Ok(initial),
        Some(v) => match norm_color(&v) {
            Some(c) => Ok(c),
            None => Err(unimpl(name)),
        },
    }
}

fn raw_border_width_prop(results: &SelectResults, p: Property, name: &str) -> (r: Result<
    CSSValue<CSSBorderWidth>,
    UnsupportedFeature,
>)
    ensures
        (match r {
            Ok(v) => spec_raw_border_width(results@, p) == Some(v),
            Err(e) => spec_raw_border_width(results@, p) is None && e.name() == name.spec_bytes(),
        }),
{
    match winning(results, p) {
        None => Ok(CSSValue::Specified(CSSBorderWidth::CSSBorderWidthMedium)),
        Some(v) => match norm_border_width(&v) {
            Some(c) => Ok(c),
            None => Err(unimpl(name)),
        },
    }
}

fn raw_margin_prop(results: &SelectResults, p: Property, name: &str) -> (r: Result<
    CSSValue<CSSMargin>,
    UnsupportedFeature,
>)
    ensures
        (match r {
            Ok(v) => spec_raw_margin(results@, p) == Some(v),
            Err(e) => spec_raw_margin(results@, p) is None && e.name() == name.spec_bytes(),
        }),
{
    match winning(results, p) {
        None => Ok(CSSValue::Specified(CSSMargin::CSSMarginLength(Length::Px(0)))),
        Some(v) => match norm_margin(&v) {
            Some(c) => Ok(c),
            None => Err(unimpl(name)),
        },
    }
}

/// The pre-cascade, per-node style view: one accessor per modeled property,
/// each reporting the winning declaration's normalized value, the property's
/// initial value where nothing matched, or the unsupported-feature signal.
pub struct ComputedStyle<'a> {
    pub inner: &'a SelectResults,
}

impl<'a> ComputedStyle<'a> {
    /// The declarations this view reads.
    pub open spec fn decls(&self) -> Seq<SpecDeclaration> {
        self.inner@
    }

    pub fn background_color(&self) -> (r: Result<CSSValue<Color>, UnsupportedFeature>)
        ensures
            (match r {
                Ok(v) => spec_raw_color(
                    self.decls(),
                    Property::BackgroundColor,
                    spec_initial_background_color(),
                ) == Some(v),
                Err(e) => spec_raw_color(
                    self.decls(),
                    Property::BackgroundColor,
                    spec_initial_background_color(),
                ) is None && e.name() == "background-color".spec_bytes(),
            }),
    {
        raw_color_prop(
            self.inner,
            Property::BackgroundColor,
            CSSValue::Specified(Color { r: 0, g: 0, b: 0, a: 0 }),
            "background-color",
        )
    }

    pub fn border_top_color(&self) -> (r: Result<CSSValue<Color>, UnsupportedFeature>)
        ensures
            (match r {
                Ok(v) => spec_raw_color(
                    self.decls(),
                    Property::BorderTopColor,
                    spec_initial_border_color(),
                ) == Some(v),
                Err(e) => spec_raw_color(
                    self.decls(),
                    Property::BorderTopColor,
                    spec_initial_border_color(),
                ) is None && e.name() == "border-top-color".spec_bytes(),
            }),
    {
        raw_color_prop(
            self.inner,
            Property::BorderTopColor,
            CSSValue::Specified(crate::color::black()),
            "border-top-color",
        )
    }

    pub fn border_right_color(&self) -> (r: Result<CSSValue<Color>, UnsupportedFeature>)
        ensures
            (match r {
                Ok(v) => spec_raw_color(
                    self.decls(),
                    Property::BorderRightColor,
                    spec_initial_border_color(),
                ) == Some(v),
                Err(e) => spec_raw_color(
                    self.decls(),
                    Property::BorderRightColor,
                    spec_initial_border_color(),
                ) is None && e.name() == "border-right-color".spec_bytes(),
            }),
    {
        raw_color_prop(
            self.inner,
            Property::BorderRightColor,
            CSSValue::Specified(crate::color::black()),
            "border-right-color",
        )
    }

    pub fn border_bottom_color(&self) -> (r: Result<CSSValue<Color>, UnsupportedFeature>)
        ensures
            (match r {
                Ok(v) => spec_raw_color(
                    self.decls(),
                    Property::BorderBottomColor,
                    spec_initial_border_color(),
                ) == Some(v),
                Err(e) => spec_raw_color(
                    self.decls(),
                    Property::BorderBottomColor,
                    spec_initial_border_color(),
                ) is None && e.name() == "border-bottom-color".spec_bytes(),
            }),
    {
        raw_color_prop(
            self.inner,
            Property::BorderBottomColor,
            CSSValue::Specified(crate::color::black()),
            "border-bottom-color",
        )
    }

    pub fn border_left_color(&self) -> (r: Result<CSSValue<Color>, UnsupportedFeature>)
        ensures
            (match r {
                Ok(v) => spec_raw_color(
                    self.decls(),
                    Property::BorderLeftColor,
                    spec_initial_border_color(),
                ) == Some(v),
                Err(e) => spec_raw_color(
                    self.decls(),
                    Property::BorderLeftColor,
                    spec_initial_border_color(),
                ) is None && e.name() == "border-left-color".spec_bytes(),
            }),
    {
        raw_color_prop(
            self.inner,
            Property::BorderLeftColor,
            CSSValue::Specified(crate::color::black()),
            "border-left-color",
        )
    }

    pub fn border_top_width(&self) -> (r: Result<CSSValue<CSSBorderWidth>, UnsupportedFeature>)
        ensures
            (match r {
                Ok(v) => spec_raw_border_width(self.decls(), Property::BorderTopWidth) == Some(v),
                Err(e) => spec_raw_border_width(self.decls(), Property::BorderTopWidth) is None
                    && e.name() == "border-top-width".spec_bytes(),
            }),
    {
        raw_border_width_prop(self.inner, Property::BorderTopWidth, "border-top-width")
    }

    pub fn border_right_width(&self) -> (r: Result<CSSValue<CSSBorderWidth>, UnsupportedFeature>)
        ensures
            (match r {
                Ok(v) => spec_raw_border_width(self.decls(), Property::BorderRightWidth) == Some(
                    v,
                ),
                Err(e) => spec_raw_border_width(self.decls(), Property::BorderRightWidth) is None
                    && e.name() == "border-right-width".spec_bytes(),
            }),
    {
        raw_border_width_prop(self.inner, Property::BorderRightWidth, "border-right-width")
    }

    pub fn border_bottom_width(&self) -> (r: Result<CSSValue<CSSBorderWidth>, UnsupportedFeature>)
        ensures
            (match r {
                Ok(v) => spec_raw_border_width(self.decls(), Property::BorderBottomWidth) == Some(
                    v,
                ),
                Err(e) => spec_raw_border_width(self.decls(), Property::BorderBottomWidth) is None
                    && e.name() == "border-bottom-width".spec_bytes(),
            }),
    {
        raw_border_width_prop(self.inner, Property::BorderBottomWidth, "border-bottom-width")
    }

    pub fn border_left_width(&self) -> (r: Result<CSSValue<CSSBorderWidth>, UnsupportedFeature>)
        ensures
            (match r {
                Ok(v) => spec_raw_border_width(self.decls(), Property::BorderLeftWidth) == Some(
                    v,
                ),
                Err(e) => spec_raw_border_width(self.decls(), Property::BorderLeftWidth) is None
                    && e.name() == "border-left-width".spec_bytes(),
            }),
    {
        raw_border_width_prop(self.inner, Property::BorderLeftWidth, "border-left-width")
    }

    pub fn margin_top(&self) -> (r: Result<CSSValue<CSSMargin>, UnsupportedFeature>)
        ensures
            (match r {
                Ok(v) => spec_raw_margin(self.decls(), Property::MarginTop) == Some(v),
                Err(e) => spec_raw_margin(self.decls(), Property::MarginTop) is None && e.name()
                    == "margin-top".spec_bytes(),
            }),
    {
        raw_margin_prop(self.inner, Property::MarginTop, "margin-top")
    }

    pub fn margin_right(&self) -> (r: Result<CSSValue<CSSMargin>, UnsupportedFeature>)
        ensures
            (match r {
                Ok(v) => spec_raw_margin(self.decls(), Property::MarginRight) == Some(v),
                Err(e) => spec_raw_margin(self.decls(), Property::MarginRight) is None && e.name()
                    == "margin-right".spec_bytes(),
            }),
    {
        raw_margin_prop(self.inner, Property::MarginRight, "margin-right")
    }

    pub fn margin_bottom(&self) -> (r: Result<CSSValue<CSSMargin>, UnsupportedFeature>)
        ensures
            (match r {
                Ok(v) => spec_raw_margin(self.decls(), Property::MarginBottom) == Some(v),
                Err(e) => spec_raw_margin(self.decls(), Property::MarginBottom) is None && e.name()
                    == "margin-bottom".spec_bytes(),
            }),
    {
        raw_margin_prop(self.inner, Property::MarginBottom, "margin-bottom")
    }

    pub fn margin_left(&self) -> (r: Result<CSSValue<CSSMargin>, UnsupportedFeature>)
        ensures
            (match r {
                Ok(v) => spec_raw_margin(self.decls(), Property::MarginLeft) == Some(v),
                Err(e) => spec_raw_margin(self.decls(), Property::MarginLeft) is None && e.name()
                    == "margin-left".spec_bytes(),
            }),
    {
        raw_margin_prop(self.inner, Property::MarginLeft, "margin-left")
    }

    /// The display value; for the document root (`root` true) an inline-level
    /// value computes to its block-level counterpart.
    pub fn display(&self, root: bool) -> (r: Result<CSSValue<CSSDisplay>, UnsupportedFeature>)
        ensures
            (match r {
                Ok(v) => spec_raw_display(self.decls()) matches Some(raw) && v
                    == spec_display_fixup(root, raw),
                Err(e) => spec_raw_display(self.decls()) is None && e.name()
                    == "display".spec_bytes(),
            }),
    {
        let raw = match winning(self.inner, Property::Display) {
            None => Ok(CSSValue::Specified(CSSDisplay::CSSDisplayInline)),
            Some(v) => match norm_display(&v) {
                Some(c) => Ok(c),
                None => Err(unimpl("display")),
            },
        };
        match raw {
            Ok(v) => {
                if root {
                    match v {
                        CSSValue::Specified(CSSDisplay::CSSDisplayInline) => Ok(
                            CSSValue::Specified(CSSDisplay::CSSDisplayBlock),
                        ),
                        CSSValue::Specified(CSSDisplay::CSSDisplayInlineBlock) => Ok(
                            CSSValue::Specified(CSSDisplay::CSSDisplayBlock),
                        ),
                        CSSValue::Specified(CSSDisplay::CSSDisplayInlineTable) => Ok(
                            CSSValue::Specified(CSSDisplay::CSSDisplayTable),
                        ),
                        other => Ok(other),
                    }
                } else {
                    Ok(v)
                }
            },
            Err(e) => Err(e),
        }
    }

    pub fn float(&self) -> (r: Result<CSSValue<CSSFloat>, UnsupportedFeature>)
        ensures
            (match r {
                Ok(v) => spec_raw_float(self.decls()) == Some(v),
                Err(e) => spec_raw_float(self.decls()) is None && e.name()
                    == "float".spec_bytes(),
            }),
    {
        match winning(self.inner, Property::Float) {
            None => Ok(CSSValue::Specified(CSSFloat::CSSFloatNone)),
            Some(v) => match norm_float(&v) {
                Some(c) => Ok(c),
                None => Err(unimpl("float")),
            },
        }
    }

    pub fn position(&self) -> (r: Result<CSSValue<CSSPosition>, UnsupportedFeature>)
        ensures
            (match r {
                Ok(v) => spec_raw_position(self.decls()) == Some(v),
                Err(e) => spec_raw_position(self.decls()) is None && e.name()
                    == "position".spec_bytes(),
            }),
    {
        match winning(self.inner, Property::Position) {
            None => Ok(CSSValue::Specified(CSSPosition::CSSPositionStatic)),
            Some(v) => match norm_position(&v) {
                Some(c) => Ok(c),
                None => Err(unimpl("position")),
            },
        }
    }

    pub fn width(&self) -> (r: Result<CSSValue<CSSWidth>, UnsupportedFeature>)
        ensures
            (match r {
                Ok(v) => spec_raw_width(self.decls()) == Some(v),
                Err(e) => spec_raw_width(self.decls()) is None && e.name()
                    == "width".spec_bytes(),
            }),
    {
        match winning(self.inner, Property::Width) {
            None => Ok(CSSValue::Specified(CSSWidth::CSSWidthAuto)),
            Some(v) => match norm_width(&v) {
                Some(c) => Ok(c),
                None => Err(unimpl("width")),
            },
        }
    }

    pub fn height(&self) -> (r: Result<CSSValue<CSSHeight>, UnsupportedFeature>)
        ensures
            (match r {
                Ok(v) => spec_raw_height(self.decls()) == Some(v),
                Err(e) => spec_raw_height(self.decls()) is None && e.name()
                    == "height".spec_bytes(),
            }),
    {
        match winning(self.inner, Property::Height) {
            None => Ok(CSSValue::Specified(CSSHeight::CSSHeightAuto)),
            Some(v) => match norm_height(&v) {
                Some(c) => Ok(c),
                None => Err(unimpl("height")),
            },
        }
    }

    pub fn font_family(&self) -> (r: Result<CSSValue<Vec<CSSFontFamily>>, UnsupportedFeature>)
        ensures
            (match r {
                Ok(CSSValue::Inherit) => spec_raw_font_family(self.decls()) == Some(
                    CSSValue::<Seq<SpecFontFamily>>::Inherit,
                ),
                Ok(CSSValue::Specified(fams)) => spec_raw_font_family(self.decls()) == Some(
                    CSSValue::Specified(fams.deep_view()),
                ),
                Err(e) => spec_raw_font_family(self.decls()) is None && e.name()
                    == "font-family".spec_bytes(),
            }),
    {
        match winning(self.inner, Property::FontFamily) {
            None => Ok(CSSValue::Inherit),
            Some(v) => match norm_font_family(&v) {
                Some(c) => Ok(c),
                None => Err(unimpl("font-family")),
            },
        }
    }
}

impl SelectResults {
    /// The pre-cascade style view over these results.
    pub fn computed_style<'a>(&'a self) -> (r: ComputedStyle<'a>)
        ensures
            r.decls() == self@,
    {
        ComputedStyle { inner: self }
    }
}

} // verus!
