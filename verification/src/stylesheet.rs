//! Stylesheets: the supported rule grammar, parsed once, immutable afterwards.
//!
//! The grammar covers the subset this layer models: rules of the form
//! `selector { property: value; ... }`, selectors built from element names
//! with child (`>`) and descendant (whitespace) combinators, and values that
//! are hex colors, whole-number dimensions, or identifier lists. Declarations
//! naming a property outside the modeled catalogue are dropped, as CSS asks;
//! anything malformed rejects the whole sheet.
//!
//! Every parsing function is proved equal to a specification function over
//! the input bytes, so `Stylesheet::new` succeeds exactly on the sources the
//! specification grammar accepts, and yields exactly the rules it denotes.

use vstd::prelude::*;
use vstd::string::StringSliceAdditionalSpecFns;
use crate::error::StylesheetParseError;
use crate::parse::{
    bytes_is, clone_bytes, copy_range, digit_char, hex_digit, ident_end, ident_start, is_digit,
    is_ident_start, lemma_ident_end_bounds, lemma_num_end_bounds, lemma_num_end_digits,
    lemma_skip_ws_bounds, num_end, num_val, skip_ws, spec_hex_digit, spec_ident_end,
    spec_num_end, spec_num_val, spec_skip_ws,
};

verus! {

/// How a selector part relates to the part before it.
#[derive(Clone, Copy, PartialEq, Eq, Structural, Debug)]
pub enum Combinator {
    /// Any ancestor (the whitespace combinator). The first part of a selector
    /// carries this value; there it says nothing.
    Descendant,
    /// The immediate parent (the `>` combinator).
    Child,
}

/// One element name of a selector, with its combinator.
#[derive(Clone, PartialEq, Eq, Debug)]
pub struct SelectorPart {
    pub combinator: Combinator,
    pub name: Vec<u8>,
}

/// The mathematical shape of one selector part.
pub struct SpecSelectorPart {
    pub combinator: Combinator,
    pub name: Seq<u8>,
}

impl View for SelectorPart {
    type V = SpecSelectorPart;

    open spec fn view(&self) -> SpecSelectorPart {
        SpecSelectorPart { combinator: self.combinator, name: self.name@ }
    }
}

impl DeepView for SelectorPart {
    type V = SpecSelectorPart;

    open spec fn deep_view(&self) -> SpecSelectorPart {
        self.view()
    }
}

/// A dimension unit as written in the source. Only `px` and `em` are modeled
/// further in; `pt` parses and is reported as unsupported when read.
#[derive(Clone, Copy, PartialEq, Eq, Structural, Debug)]
pub enum RawUnit {
    Px,
    Em,
    Pt,
}

/// A declaration value as the grammar sees it, before any property-specific
/// interpretation.
#[derive(Clone, PartialEq, Eq, Debug)]
pub enum RawValue {
    /// `#rrggbb`.
    Hex(u8, u8, u8),
    /// A whole number with a unit, `10px`.
    Dim(i64, RawUnit),
    /// One identifier or a comma-separated list, `red` or `Wombat, serif`.
    Idents(Vec<Vec<u8>>),
}

/// The mathematical shape of a declaration value.
pub enum SpecRawValue {
    Hex(u8, u8, u8),
    Dim(i64, RawUnit),
    Idents(Seq<Seq<u8>>),
}

impl View for RawValue {
    type V = SpecRawValue;

    open spec fn view(&self) -> SpecRawValue {
        match self {
            RawValue::Hex(r, g, b) => SpecRawValue::Hex(*r, *g, *b),
            RawValue::Dim(n, u) => SpecRawValue::Dim(*n, *u),
            RawValue::Idents(list) => SpecRawValue::Idents(list.deep_view()),
        }
    }
}

impl DeepView for RawValue {
    type V = SpecRawValue;

    open spec fn deep_view(&self) -> SpecRawValue {
        self.view()
    }
}

/// The properties this layer models.
#[derive(Clone, Copy, PartialEq, Eq, Structural, Debug)]
pub enum Property {
    BackgroundColor,
    BorderTopWidth,
    BorderRightWidth,
    BorderBottomWidth,
    BorderLeftWidth,
    BorderTopColor,
    BorderRightColor,
    BorderBottomColor,
    BorderLeftColor,
    MarginTop,
    MarginRight,
    MarginBottom,
    MarginLeft,
    Display,
    Float,
    Position,
    Width,
    Height,
    FontFamily,
}

/// One parsed declaration: a modeled property and its raw value.
#[derive(Clone, PartialEq, Eq, Debug)]
pub struct Declaration {
    pub property: Property,
    pub value: RawValue,
}

/// The mathematical shape of a declaration.
pub struct SpecDeclaration {
    pub property: Property,
    pub value: SpecRawValue,
}

impl View for Declaration {
    type V = SpecDeclaration;

    open spec fn view(&self) -> SpecDeclaration {
        SpecDeclaration { property: self.property, value: self.value@ }
    }
}

impl DeepView for Declaration {
    type V = SpecDeclaration;

    open spec fn deep_view(&self) -> SpecDeclaration {
        self.view()
    }
}

/// One rule: a selector and the declarations of its block.
#[derive(Clone, PartialEq, Eq, Debug)]
pub struct Rule {
    pub selector: Vec<SelectorPart>,
    pub declarations: Vec<Declaration>,
}

/// The mathematical shape of a rule.
pub struct SpecRule {
    pub selector: Seq<SpecSelectorPart>,
    pub declarations: Seq<SpecDeclaration>,
}

impl View for Rule {
    type V = SpecRule;

    open spec fn view(&self) -> SpecRule {
        SpecRule {
            selector: self.selector.deep_view(),
            declarations: self.declarations.deep_view(),
        }
    }
}

impl DeepView for Rule {
    type V = SpecRule;

    open spec fn deep_view(&self) -> SpecRule {
        self.view()
    }
}

/// A parsed stylesheet: its rules in source order, immutable once built, and
/// the URL it was given as provenance.
#[derive(Clone, PartialEq, Eq, Debug)]
pub struct Stylesheet {
    pub rules: Vec<Rule>,
    pub url: Vec<u8>,
}

impl View for Stylesheet {
    type V = Seq<SpecRule>;

    open spec fn view(&self) -> Seq<SpecRule> {
        self.rules.deep_view()
    }
}

/// The modeled property a name denotes, if any.
pub open spec fn spec_property_of(name: Seq<u8>) -> Option<Property> {
    if name == "background-color".spec_bytes() {
        Some(Property::BackgroundColor)
    } else if name == "border-top-width".spec_bytes() {
        Some(Property::BorderTopWidth)
    } else if name == "border-right-width".spec_bytes() {
        Some(Property::BorderRightWidth)
    } else if name == "border-bottom-width".spec_bytes() {
        Some(Property::BorderBottomWidth)
    } else if name == "border-left-width".spec_bytes() {
        Some(Property::BorderLeftWidth)
    } else if name == "border-top-color".spec_bytes() {
        Some(Property::BorderTopColor)
    } else if name == "border-right-color".spec_bytes() {
        Some(Property::BorderRightColor)
    } else if name == "border-bottom-color".spec_bytes() {
        Some(Property::BorderBottomColor)
    } else if name == "border-left-color".spec_bytes() {
        Some(Property::BorderLeftColor)
    } else if name == "margin-top".spec_bytes() {
        Some(Property::MarginTop)
    } else if name == "margin-right".spec_bytes() {
        Some(Property::MarginRight)
    } else if name == "margin-bottom".spec_bytes() {
        Some(Property::MarginBottom)
    } else if name == "margin-left".spec_bytes() {
        Some(Property::MarginLeft)
    } else if name == "display".spec_bytes() {
        Some(Property::Display)
    } else if name == "float".spec_bytes() {
        Some(Property::Float)
    } else if name == "position".spec_bytes() {
        Some(Property::Position)
    } else if name == "width".spec_bytes() {
        Some(Property::Width)
    } else if name == "height".spec_bytes() {
        Some(Property::Height)
    } else if name == "font-family".spec_bytes() {
        Some(Property::FontFamily)
    } else {
        None
    }
}

pub fn property_of(name: &Vec<u8>) -> (r: Option<Property>)
    ensures
        r == spec_property_of(name@),
{
    if bytes_is(name, "background-color") {
        Some(Property::BackgroundColor)
    } else if bytes_is(name, "border-top-width") {
        Some(Property::BorderTopWidth)
    } else if bytes_is(name, "border-right-width") {
        Some(Property::BorderRightWidth)
    } else if bytes_is(name, "border-bottom-width") {
        Some(Property::BorderBottomWidth)
    } else if bytes_is(name, "border-left-width") {
        Some(Property::BorderLeftWidth)
    } else if bytes_is(name, "border-top-color") {
        Some(Property::BorderTopColor)
    } else if bytes_is(name, "border-right-color") {
        Some(Property::BorderRightColor)
    } else if bytes_is(name, "border-bottom-color") {
        Some(Property::BorderBottomColor)
    } else if bytes_is(name, "border-left-color") {
        Some(Property::BorderLeftColor)
    } else if bytes_is(name, "margin-top") {
        Some(Property::MarginTop)
    } else if bytes_is(name, "margin-right") {
        Some(Property::MarginRight)
    } else if bytes_is(name, "margin-bottom") {
        Some(Property::MarginBottom)
    } else if bytes_is(name, "margin-left") {
        Some(Property::MarginLeft)
    } else if bytes_is(name, "display") {
        Some(Property::Display)
    } else if bytes_is(name, "float") {
        Some(Property::Float)
    } else if bytes_is(name, "position") {
        Some(Property::Position)
    } else if bytes_is(name, "width") {
        Some(Property::Width)
    } else if bytes_is(name, "height") {
        Some(Property::Height)
    } else if bytes_is(name, "font-family") {
        Some(Property::FontFamily)
    } else {
        None
    }
}

/// The declarations one source declaration stands for: one for a modeled
/// longhand, four for the `border-width` and `border-color` shorthands, none
/// for a property outside the catalogue.
pub open spec fn spec_expand_decl(name: Seq<u8>, v: SpecRawValue) -> Seq<SpecDeclaration> {
    match spec_property_of(name) {
        Some(p) => seq![SpecDeclaration { property: p, value: v }],
        None => {
            if name == "border-width".spec_bytes() {
                seq![
                    SpecDeclaration { property: Property::BorderTopWidth, value: v },
                    SpecDeclaration { property: Property::BorderRightWidth, value: v },
                    SpecDeclaration { property: Property::BorderBottomWidth, value: v },
                    SpecDeclaration { property: Property::BorderLeftWidth, value: v },
                ]
            } else if name == "border-color".spec_bytes() {
                seq![
                    SpecDeclaration { property: Property::BorderTopColor, value: v },
                    SpecDeclaration { property: Property::BorderRightColor, value: v },
                    SpecDeclaration { property: Property::BorderBottomColor, value: v },
                    SpecDeclaration { property: Property::BorderLeftColor, value: v },
                ]
            } else {
                Seq::empty()
            }
        },
    }
}

/// A fresh copy of a raw value, denoting the same value.
pub fn clone_raw_value(v: &RawValue) -> (r: RawValue)
    ensures
        r@ == v@,
{
    match v {
        RawValue::Hex(a, b, c) => RawValue::Hex(*a, *b, *c),
        RawValue::Dim(n, u) => RawValue::Dim(*n, *u),
        RawValue::Idents(list) => {
            let mut out: Vec<Vec<u8>> = Vec::new();
            let mut k: usize = 0;
            while k < list.len()
                invariant
                    k <= list@.len(),
                    out@.len() == k,
                    forall|j: int| 0 <= j < k ==> out@[j]@ == list@[j]@,
                decreases list@.len() - k,
            {
                out.push(clone_bytes(&list[k]));
                k = k + 1;
            }
            proof {
                assert(out.deep_view() =~~= list.deep_view());
            }
            RawValue::Idents(out)
        },
    }
}

pub fn expand_decl(name: &Vec<u8>, v: RawValue) -> (r: Vec<Declaration>)
    ensures
        r.deep_view() == spec_expand_decl(name@, v@),
{
    let mut out: Vec<Declaration> = Vec::new();
    match property_of(name) {
        Some(p) => {
            out.push(Declaration { property: p, value: v });
        },
        None => {
            if bytes_is(name, "border-width") {
                out.push(Declaration { property: Property::BorderTopWidth, value: clone_raw_value(&v) });
                out.push(Declaration { property: Property::BorderRightWidth, value: clone_raw_value(&v) });
                out.push(Declaration { property: Property::BorderBottomWidth, value: clone_raw_value(&v) });
                out.push(Declaration { property: Property::BorderLeftWidth, value: v });
            } else if bytes_is(name, "border-color") {
                out.push(Declaration { property: Property::BorderTopColor, value: clone_raw_value(&v) });
                out.push(Declaration { property: Property::BorderRightColor, value: clone_raw_value(&v) });
                out.push(Declaration { property: Property::BorderBottomColor, value: clone_raw_value(&v) });
                out.push(Declaration { property: Property::BorderLeftColor, value: v });
            }
        },
    }
    proof {
        assert(out.deep_view() =~~= spec_expand_decl(name@, v@));
    }
    out
}

/// Two hexadecimal digits at `i`, as one byte value.
pub open spec fn spec_hex_pair(s: Seq<u8>, i: int) -> Option<u8> {
    if 0 <= i && i + 2 <= s.len() {
        match (spec_hex_digit(s[i]), spec_hex_digit(s[i + 1])) {
            (Some(h), Some(l)) => Some((h * 16 + l) as u8),
            _ => None,
        }
    } else {
        None
    }
}

pub fn hex_pair(s: &Vec<u8>, i: usize) -> (r: Option<u8>)
    requires
        i <= s@.len(),
    ensures
        r == spec_hex_pair(s@, i as int),
{
    if i < s.len() && i + 1 < s.len() {
        match (hex_digit(s[i]), hex_digit(s[i + 1])) {
            (Some(h), Some(l)) => Some(h * 16 + l),
            _ => None,
        }
    } else {
        None
    }
}

/// The unit a dimension suffix denotes, if it is one the grammar accepts.
pub open spec fn spec_unit_of(name: Seq<u8>) -> Option<RawUnit> {
    if name == "px".spec_bytes() {
        Some(RawUnit::Px)
    } else if name == "em".spec_bytes() {
        Some(RawUnit::Em)
    } else if name == "pt".spec_bytes() {
        Some(RawUnit::Pt)
    } else {
        None
    }
}

pub fn unit_of(name: &Vec<u8>) -> (r: Option<RawUnit>)
    ensures
        r == spec_unit_of(name@),
{
    if bytes_is(name, "px") {
        Some(RawUnit::Px)
    } else if bytes_is(name, "em") {
        Some(RawUnit::Em)
    } else if bytes_is(name, "pt") {
        Some(RawUnit::Pt)
    } else {
        None
    }
}

/// A comma-separated identifier list starting at `i`; yields the identifiers
/// and the position just past the last one (before any trailing whitespace).
pub open spec fn spec_parse_ident_list(s: Seq<u8>, i: int) -> Option<(Seq<Seq<u8>>, int)>
    decreases s.len() - i,
    via spec_parse_ident_list_decreases
{
    if 0 <= i < s.len() && is_ident_start(s[i]) {
        let j = spec_ident_end(s, i);
        let name = s.subrange(i, j);
        let k = spec_skip_ws(s, j);
        if k < s.len() && s[k] == 44 {
            let m = spec_skip_ws(s, k + 1);
            match spec_parse_ident_list(s, m) {
                Some((rest, end)) => Some((seq![name] + rest, end)),
                None => None,
            }
        } else {
            Some((seq![name], j))
        }
    } else {
        None
    }
}

#[via_fn]
proof fn spec_parse_ident_list_decreases(s: Seq<u8>, i: int) {
    if 0 <= i < s.len() && is_ident_start(s[i]) {
        lemma_ident_end_bounds(s, i + 1);
        let j = spec_ident_end(s, i);
        lemma_skip_ws_bounds(s, j);
        let k = spec_skip_ws(s, j);
        if k < s.len() && s[k] == 44 {
            lemma_skip_ws_bounds(s, k + 1);
        }
    }
}

pub proof fn lemma_parse_ident_list_bounds(s: Seq<u8>, i: int)
    requires
        0 <= i <= s.len(),
    ensures
        spec_parse_ident_list(s, i) matches Some((list, end)) ==> i < end <= s.len(),
    decreases s.len() - i,
{
    if 0 <= i < s.len() && is_ident_start(s[i]) {
        lemma_ident_end_bounds(s, i + 1);
        let j = spec_ident_end(s, i);
        lemma_skip_ws_bounds(s, j);
        let k = spec_skip_ws(s, j);
        if k < s.len() && s[k] == 44 {
            lemma_skip_ws_bounds(s, k + 1);
            let m = spec_skip_ws(s, k + 1);
            lemma_parse_ident_list_bounds(s, m);
        }
    }
}

pub fn parse_ident_list(s: &Vec<u8>, i: usize) -> (r: Option<(Vec<Vec<u8>>, usize)>)
    requires
        i <= s@.len(),
    ensures
        (match r {
            Some((list, end)) => spec_parse_ident_list(s@, i as int) == Some(
                (list.deep_view(), end as int),
            ) && i < end <= s@.len(),
            None => spec_parse_ident_list(s@, i as int) is None,
        }),
    decreases s@.len() - i,
{
    if i < s.len() && ident_start(s[i]) {
        proof {
            lemma_ident_end_bounds(s@, i as int + 1);
        }
        let j = ident_end(s, i);
        let name = copy_range(s, i, j);
        let k = skip_ws(s, j);
        if k < s.len() && s[k] == 44 {
            let m = skip_ws(s, k + 1);
            match parse_ident_list(s, m) {
                Some((mut rest, end)) => {
                    rest.insert(0, name);
                    proof {
                        assert(rest.deep_view() =~~= seq![s@.subrange(i as int, j as int)]
                            + spec_parse_ident_list(s@, m as int)->Some_0.0);
                    }
                    Some((rest, end))
                },
                None => None,
            }
        } else {
            let mut list: Vec<Vec<u8>> = Vec::new();
            list.push(name);
            proof {
                assert(list.deep_view() =~~= seq![s@.subrange(i as int, j as int)]);
            }
            Some((list, j))
        }
    } else {
        None
    }
}

/// A declaration value starting at `i`: a hex color, a dimension, or an
/// identifier list.
pub open spec fn spec_parse_value(s: Seq<u8>, i: int) -> Option<(SpecRawValue, int)> {
    if 0 <= i < s.len() {
        if s[i] == 35 {
            match (spec_hex_pair(s, i + 1), spec_hex_pair(s, i + 3), spec_hex_pair(s, i + 5)) {
                (Some(r), Some(g), Some(b)) => Some((SpecRawValue::Hex(r, g, b), i + 7)),
                _ => None,
            }
        } else if is_digit(s[i]) {
            let j = spec_num_end(s, i);
            if j - i <= 7 {
                let n = spec_num_val(s, i, j);
                let k = spec_ident_end(s, j);
                if j < k {
                    match spec_unit_of(s.subrange(j, k)) {
                        Some(u) => Some((SpecRawValue::Dim(n as i64, u), k)),
                        None => None,
                    }
                } else {
                    None
                }
            } else {
                None
            }
        } else {
            match spec_parse_ident_list(s, i) {
                Some((list, end)) => Some((SpecRawValue::Idents(list), end)),
                None => None,
            }
        }
    } else {
        None
    }
}

pub proof fn lemma_parse_value_bounds(s: Seq<u8>, i: int)
    requires
        0 <= i <= s.len(),
    ensures
        spec_parse_value(s, i) matches Some((v, end)) ==> i < end <= s.len(),
{
    if 0 <= i < s.len() {
        if s[i] == 35 {
        } else if is_digit(s[i]) {
            lemma_num_end_bounds(s, i + 1);
            let j = spec_num_end(s, i);
            lemma_ident_end_bounds(s, j);
        } else {
            lemma_parse_ident_list_bounds(s, i);
        }
    }
}

pub fn parse_value(s: &Vec<u8>, i: usize) -> (r: Option<(RawValue, usize)>)
    requires
        i <= s@.len(),
    ensures
        (match r {
            Some((v, end)) => spec_parse_value(s@, i as int) == Some((v@, end as int)) && i < end
                <= s@.len(),
            None => spec_parse_value(s@, i as int) is None,
        }),
{
    if i < s.len() {
        if s[i] == 35 {
            if s.len() - i >= 7 {
                match (hex_pair(s, i + 1), hex_pair(s, i + 3), hex_pair(s, i + 5)) {
                    (Some(r), Some(g), Some(b)) => Some((RawValue::Hex(r, g, b), i + 7)),
                    _ => None,
                }
            } else {
                assert(spec_hex_pair(s@, i as int + 5) is None);
                None
            }
        } else if digit_char(s[i]) {
            proof {
                lemma_num_end_bounds(s@, i as int + 1);
                lemma_num_end_digits(s@, i as int);
            }
            let j = num_end(s, i);
            if j - i <= 7 {
                let n = num_val(s, i, j);
                proof {
                    lemma_ident_end_bounds(s@, j as int);
                }
                let k = ident_end(s, j);
                if j < k {
                    let unit_name = copy_range(s, j, k);
                    match unit_of(&unit_name) {
                        Some(u) => Some((RawValue::Dim(n, u), k)),
                        None => None,
                    }
                } else {
                    None
                }
            } else {
                None
            }
        } else {
            match parse_ident_list(s, i) {
                Some((list, end)) => Some((RawValue::Idents(list), end)),
                None => None,
            }
        }
    } else {
        None
    }
}

/// One declaration, `property: value;`, starting at `i`; yields the property
/// name, the value, and the position just past the semicolon.
pub open spec fn spec_parse_decl(s: Seq<u8>, i: int) -> Option<((Seq<u8>, SpecRawValue), int)> {
    if 0 <= i < s.len() && is_ident_start(s[i]) {
        let j = spec_ident_end(s, i);
        let prop = s.subrange(i, j);
        let k = spec_skip_ws(s, j);
        if k < s.len() && s[k] == 58 {
            let m = spec_skip_ws(s, k + 1);
            match spec_parse_value(s, m) {
                Some((v, e)) => {
                    let w = spec_skip_ws(s, e);
                    if w < s.len() && s[w] == 59 {
                        Some(((prop, v), w + 1))
                    } else {
                        None
                    }
                },
                None => None,
            }
        } else {
            None
        }
    } else {
        None
    }
}

pub proof fn lemma_parse_decl_bounds(s: Seq<u8>, i: int)
    requires
        0 <= i <= s.len(),
    ensures
        spec_parse_decl(s, i) matches Some((d, end)) ==> i < end <= s.len(),
{
    if 0 <= i < s.len() && is_ident_start(s[i]) {
        lemma_ident_end_bounds(s, i + 1);
        let j = spec_ident_end(s, i);
        lemma_skip_ws_bounds(s, j);
        let k = spec_skip_ws(s, j);
        if k < s.len() && s[k] == 58 {
            lemma_skip_ws_bounds(s, k + 1);
            let m = spec_skip_ws(s, k + 1);
            lemma_parse_value_bounds(s, m);
            match spec_parse_value(s, m) {
                Some((v, e)) => {
                    lemma_skip_ws_bounds(s, e);
                },
                None => {},
            }
        }
    }
}

pub fn parse_decl(s: &Vec<u8>, i: usize) -> (r: Option<((Vec<u8>, RawValue), usize)>)
    requires
        i <= s@.len(),
    ensures
        (match r {
            Some(((prop, v), end)) => spec_parse_decl(s@, i as int) == Some(
                ((prop@, v@), end as int),
            ) && i < end <= s@.len(),
            None => spec_parse_decl(s@, i as int) is None,
        }),
{
    proof {
        lemma_parse_decl_bounds(s@, i as int);
    }
    if i < s.len() && ident_start(s[i]) {
        let j = ident_end(s, i);
        let prop = copy_range(s, i, j);
        let k = skip_ws(s, j);
        if k < s.len() && s[k] == 58 {
            let m = skip_ws(s, k + 1);
            match parse_value(s, m) {
                Some((v, e)) => {
                    let w = skip_ws(s, e);
                    if w < s.len() && s[w] == 59 {
                        Some(((prop, v), w + 1))
                    } else {
                        None
                    }
                },
                None => None,
            }
        } else {
            None
        }
    } else {
        None
    }
}

/// The declarations of a block, up to and past its closing brace. Each
/// declaration is expanded through the property catalogue as it is read.
pub open spec fn spec_parse_decls(s: Seq<u8>, i: int) -> Option<(Seq<SpecDeclaration>, int)>
    decreases s.len() - i,
    via spec_parse_decls_decreases
{
    if 0 <= i <= s.len() {
        let k = spec_skip_ws(s, i);
        if k < s.len() && s[k] == 125 {
            Some((Seq::empty(), k + 1))
        } else {
            match spec_parse_decl(s, k) {
                Some(((prop, v), e)) => match spec_parse_decls(s, e) {
                    Some((rest, end)) => Some((spec_expand_decl(prop, v) + rest, end)),
                    None => None,
                },
                None => None,
            }
        }
    } else {
        None
    }
}

#[via_fn]
proof fn spec_parse_decls_decreases(s: Seq<u8>, i: int) {
    if 0 <= i <= s.len() {
        lemma_skip_ws_bounds(s, i);
        let k = spec_skip_ws(s, i);
        lemma_parse_decl_bounds(s, k);
    }
}

pub proof fn lemma_parse_decls_bounds(s: Seq<u8>, i: int)
    requires
        0 <= i <= s.len(),
    ensures
        spec_parse_decls(s, i) matches Some((ds, end)) ==> i < end <= s.len(),
    decreases s.len() - i,
{
    lemma_skip_ws_bounds(s, i);
    let k = spec_skip_ws(s, i);
    if k < s.len() && s[k] == 125 {
    } else {
        lemma_parse_decl_bounds(s, k);
        match spec_parse_decl(s, k) {
            Some(((prop, v), e)) => {
                lemma_parse_decls_bounds(s, e);
            },
            None => {},
        }
    }
}

pub fn parse_decls(s: &Vec<u8>, i: usize) -> (r: Option<(Vec<Declaration>, usize)>)
    requires
        i <= s@.len(),
    ensures
        (match r {
            Some((ds, end)) => spec_parse_decls(s@, i as int) == Some(
                (ds.deep_view(), end as int),
            ) && i < end <= s@.len(),
            None => spec_parse_decls(s@, i as int) is None,
        }),
    decreases s@.len() - i,
{
    let k = skip_ws(s, i);
    if k < s.len() && s[k] == 125 {
        let ds: Vec<Declaration> = Vec::new();
        proof {
            assert(ds.deep_view() =~~= Seq::<SpecDeclaration>::empty());
        }
        Some((ds, k + 1))
    } else {
        match parse_decl(s, k) {
            Some(((prop, v), e)) => {
                let ghost v_model = v@;
                let mut ds = expand_decl(&prop, v);
                match parse_decls(s, e) {
                    Some((mut rest, end)) => {
                        let ghost rest_model = rest.deep_view();
                        ds.append(&mut rest);
                        proof {
                            assert(ds.deep_view() =~~= spec_expand_decl(prop@, v_model)
                                + rest_model);
                        }
                        Some((ds, end))
                    },
                    None => None,
                }
            },
            None => None,
        }
    }
}

/// The selector parts after the first, each with its combinator, up to the
/// opening brace of the block; the brace is not consumed.
pub open spec fn spec_parse_more_parts(s: Seq<u8>, i: int) -> Option<
    (Seq<SpecSelectorPart>, int),
>
    decreases s.len() - i,
    via spec_parse_more_parts_decreases
{
    if 0 <= i < s.len() {
        if s[i] == 123 {
            Some((Seq::empty(), i))
        } else if s[i] == 62 {
            let k = spec_skip_ws(s, i + 1);
            if k < s.len() && is_ident_start(s[k]) {
                let j = spec_ident_end(s, k);
                let part = SpecSelectorPart {
                    combinator: Combinator::Child,
                    name: s.subrange(k, j),
                };
                let w = spec_skip_ws(s, j);
                match spec_parse_more_parts(s, w) {
                    Some((rest, end)) => Some((seq![part] + rest, end)),
                    None => None,
                }
            } else {
                None
            }
        } else if is_ident_start(s[i]) {
            let j = spec_ident_end(s, i);
            let part = SpecSelectorPart {
                combinator: Combinator::Descendant,
                name: s.subrange(i, j),
            };
            let w = spec_skip_ws(s, j);
            match spec_parse_more_parts(s, w) {
                Some((rest, end)) => Some((seq![part] + rest, end)),
                None => None,
            }
        } else {
            None
        }
    } else {
        None
    }
}

#[via_fn]
proof fn spec_parse_more_parts_decreases(s: Seq<u8>, i: int) {
    if 0 <= i < s.len() {
        if s[i] == 123 {
        } else if s[i] == 62 {
            lemma_skip_ws_bounds(s, i + 1);
            let k = spec_skip_ws(s, i + 1);
            if k < s.len() && is_ident_start(s[k]) {
                lemma_ident_end_bounds(s, k + 1);
                let j = spec_ident_end(s, k);
                lemma_skip_ws_bounds(s, j);
            }
        } else if is_ident_start(s[i]) {
            lemma_ident_end_bounds(s, i + 1);
            let j = spec_ident_end(s, i);
            lemma_skip_ws_bounds(s, j);
        }
    }
}

pub proof fn lemma_parse_more_parts_bounds(s: Seq<u8>, i: int)
    requires
        0 <= i <= s.len(),
    ensures
        spec_parse_more_parts(s, i) matches Some((ps, end)) ==> i <= end <= s.len(),
    decreases s.len() - i,
{
    if 0 <= i < s.len() {
        if s[i] == 123 {
        } else if s[i] == 62 {
            lemma_skip_ws_bounds(s, i + 1);
            let k = spec_skip_ws(s, i + 1);
            if k < s.len() && is_ident_start(s[k]) {
                lemma_ident_end_bounds(s, k + 1);
                let j = spec_ident_end(s, k);
                lemma_skip_ws_bounds(s, j);
                lemma_parse_more_parts_bounds(s, spec_skip_ws(s, j));
            }
        } else if is_ident_start(s[i]) {
            lemma_ident_end_bounds(s, i + 1);
            let j = spec_ident_end(s, i);
            lemma_skip_ws_bounds(s, j);
            lemma_parse_more_parts_bounds(s, spec_skip_ws(s, j));
        }
    }
}

pub fn parse_more_parts(s: &Vec<u8>, i: usize) -> (r: Option<(Vec<SelectorPart>, usize)>)
    requires
        i <= s@.len(),
    ensures
        (match r {
            Some((ps, end)) => spec_parse_more_parts(s@, i as int) == Some(
                (ps.deep_view(), end as int),
            ) && i <= end <= s@.len(),
            None => spec_parse_more_parts(s@, i as int) is None,
        }),
    decreases s@.len() - i,
{
    if i < s.len() {
        if s[i] == 123 {
            let ps: Vec<SelectorPart> = Vec::new();
            proof {
                assert(ps.deep_view() =~~= Seq::<SpecSelectorPart>::empty());
            }
            Some((ps, i))
        } else if s[i] == 62 {
            let k = skip_ws(s, i + 1);
            if k < s.len() && ident_start(s[k]) {
                proof {
                    lemma_ident_end_bounds(s@, k as int + 1);
                }
                let j = ident_end(s, k);
                let name = copy_range(s, k, j);
                let part = SelectorPart { combinator: Combinator::Child, name };
                let w = skip_ws(s, j);
                match parse_more_parts(s, w) {
                    Some((mut rest, end)) => {
                        let ghost rest_model = rest.deep_view();
                        let ghost part_model = part@;
                        rest.insert(0, part);
                        proof {
                            assert(rest.deep_view() =~~= seq![part_model] + rest_model);
                        }
                        Some((rest, end))
                    },
                    None => None,
                }
            } else {
                None
            }
        } else if ident_start(s[i]) {
            proof {
                lemma_ident_end_bounds(s@, i as int + 1);
            }
            let j = ident_end(s, i);
            let name = copy_range(s, i, j);
            let part = SelectorPart { combinator: Combinator::Descendant, name };
            let w = skip_ws(s, j);
            match parse_more_parts(s, w) {
                Some((mut rest, end)) => {
                    let ghost rest_model = rest.deep_view();
                    let ghost part_model = part@;
                    rest.insert(0, part);
                    proof {
                        assert(rest.deep_view() =~~= seq![part_model] + rest_model);
                    }
                    Some((rest, end))
                },
                None => None,
            }
        } else {
            None
        }
    } else {
        None
    }
}

/// A whole selector starting at `i`; ends at the opening brace.
pub open spec fn spec_parse_selector(s: Seq<u8>, i: int) -> Option<(Seq<SpecSelectorPart>, int)> {
    if 0 <= i < s.len() && is_ident_start(s[i]) {
        let j = spec_ident_end(s, i);
        let first = SpecSelectorPart { combinator: Combinator::Descendant, name: s.subrange(i, j) };
        let w = spec_skip_ws(s, j);
        match spec_parse_more_parts(s, w) {
            Some((rest, end)) => Some((seq![first] + rest, end)),
            None => None,
        }
    } else {
        None
    }
}

pub proof fn lemma_parse_selector_bounds(s: Seq<u8>, i: int)
    requires
        0 <= i <= s.len(),
    ensures
        spec_parse_selector(s, i) matches Some((sel, end)) ==> i < end <= s.len(),
{
    if 0 <= i < s.len() && is_ident_start(s[i]) {
        lemma_ident_end_bounds(s, i + 1);
        let j = spec_ident_end(s, i);
        lemma_skip_ws_bounds(s, j);
        lemma_parse_more_parts_bounds(s, spec_skip_ws(s, j));
    }
}

pub fn parse_selector(s: &Vec<u8>, i: usize) -> (r: Option<(Vec<SelectorPart>, usize)>)
    requires
        i <= s@.len(),
    ensures
        (match r {
            Some((sel, end)) => spec_parse_selector(s@, i as int) == Some(
                (sel.deep_view(), end as int),
            ) && i < end <= s@.len(),
            None => spec_parse_selector(s@, i as int) is None,
        }),
{
    if i < s.len() && ident_start(s[i]) {
        proof {
            lemma_ident_end_bounds(s@, i as int + 1);
        }
        let j = ident_end(s, i);
        let name = copy_range(s, i, j);
        let first = SelectorPart { combinator: Combinator::Descendant, name };
        let w = skip_ws(s, j);
        match parse_more_parts(s, w) {
            Some((mut rest, end)) => {
                let ghost rest_model = rest.deep_view();
                let ghost first_model = first@;
                rest.insert(0, first);
                proof {
                    assert(rest.deep_view() =~~= seq![first_model] + rest_model);
                }
                Some((rest, end))
            },
            None => None,
        }
    } else {
        None
    }
}

/// One rule, `selector { declarations }`, starting at `i` (past whitespace).
pub open spec fn spec_parse_rule(s: Seq<u8>, i: int) -> Option<(SpecRule, int)> {
    match spec_parse_selector(s, i) {
        Some((sel, b)) => {
            if b < s.len() && s[b] == 123 {
                match spec_parse_decls(s, b + 1) {
                    Some((ds, end)) => Some(
                        (SpecRule { selector: sel, declarations: ds }, end),
                    ),
                    None => None,
                }
            } else {
                None
            }
        },
        None => None,
    }
}

pub proof fn lemma_parse_rule_bounds(s: Seq<u8>, i: int)
    requires
        0 <= i <= s.len(),
    ensures
        spec_parse_rule(s, i) matches Some((rule, end)) ==> i < end <= s.len(),
{
    lemma_parse_selector_bounds(s, i);
    match spec_parse_selector(s, i) {
        Some((sel, b)) => {
            if b < s.len() && s[b] == 123 {
                lemma_parse_decls_bounds(s, b + 1);
            }
        },
        None => {},
    }
}

pub fn parse_rule(s: &Vec<u8>, i: usize) -> (r: Option<(Rule, usize)>)
    requires
        i <= s@.len(),
    ensures
        (match r {
            Some((rule, end)) => spec_parse_rule(s@, i as int) == Some((rule@, end as int)) && i
                < end <= s@.len(),
            None => spec_parse_rule(s@, i as int) is None,
        }),
{
    match parse_selector(s, i) {
        Some((sel, b)) => {
            if b < s.len() && s[b] == 123 {
                match parse_decls(s, b + 1) {
                    Some((ds, end)) => Some((Rule { selector: sel, declarations: ds }, end)),
                    None => None,
                }
            } else {
                None
            }
        },
        None => None,
    }
}

/// Every rule of the source from `i` to its end; `None` on anything the
/// grammar does not accept.
pub open spec fn spec_parse_rules(s: Seq<u8>, i: int) -> Option<Seq<SpecRule>>
    decreases s.len() - i,
    via spec_parse_rules_decreases
{
    if 0 <= i <= s.len() {
        let k = spec_skip_ws(s, i);
        if k >= s.len() {
            Some(Seq::empty())
        } else {
            match spec_parse_rule(s, k) {
                Some((rule, e)) => match spec_parse_rules(s, e) {
                    Some(rest) => Some(seq![rule] + rest),
                    None => None,
                },
                None => None,
            }
        }
    } else {
        None
    }
}

#[via_fn]
proof fn spec_parse_rules_decreases(s: Seq<u8>, i: int) {
    if 0 <= i <= s.len() {
        lemma_skip_ws_bounds(s, i);
        let k = spec_skip_ws(s, i);
        if k < s.len() {
            lemma_parse_rule_bounds(s, k);
        }
    }
}

pub fn parse_rules(s: &Vec<u8>, i: usize) -> (r: Option<Vec<Rule>>)
    requires
        i <= s@.len(),
    ensures
        (match r {
            Some(rules) => spec_parse_rules(s@, i as int) == Some(rules.deep_view()),
            None => spec_parse_rules(s@, i as int) is None,
        }),
    decreases s@.len() - i,
{
    let k = skip_ws(s, i);
    if k >= s.len() {
        let rules: Vec<Rule> = Vec::new();
        proof {
            assert(rules.deep_view() =~~= Seq::<SpecRule>::empty());
        }
        Some(rules)
    } else {
        match parse_rule(s, k) {
            Some((rule, e)) => {
                match parse_rules(s, e) {
                    Some(mut rest) => {
                        let ghost rest_model = rest.deep_view();
                        let ghost rule_model = rule@;
                        rest.insert(0, rule);
                        proof {
                            assert(rest.deep_view() =~~= seq![rule_model] + rest_model);
                        }
                        Some(rest)
                    },
                    None => None,
                }
            },
            None => None,
        }
    }
}

/// The rules a whole source denotes, when the grammar accepts it.
pub open spec fn spec_parse_stylesheet(s: Seq<u8>) -> Option<Seq<SpecRule>> {
    spec_parse_rules(s, 0)
}

impl Stylesheet {
    /// Parses a stylesheet from its source bytes. Succeeds exactly on sources
    /// the supported grammar accepts, yielding exactly the rules the grammar
    /// denotes; on malformed source no partial stylesheet is produced. The
    /// URL is kept as provenance only.
    pub fn new(url: &str, input: &Vec<u8>) -> (r: Result<Stylesheet, StylesheetParseError>)
        ensures
            (match r {
                Ok(sheet) => spec_parse_stylesheet(input@) == Some(sheet@) && sheet.url@
                    == url.spec_bytes(),
                Err(e) => spec_parse_stylesheet(input@) is None,
            }),
    {
        match parse_rules(input, 0) {
            Some(rules) => Ok(
                Stylesheet { rules, url: vstd::slice::slice_to_vec(url.as_bytes()) },
            ),
            None => Err(StylesheetParseError),
        }
    }
}

} // verus!
