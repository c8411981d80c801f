//! The representation of CSS property values.
//!
//! Enums are named after the property; variants carry the same name plus the
//! name of the value form used in the CSS specification, so the property
//! `background-color` with a `<color>` value becomes
//! `CSSBackgroundColorColor(Color)`.
//!
//! Percentage variants carry integer percent values: the supported grammar
//! subset accepts whole numbers only.

use vstd::prelude::*;
use crate::color::Color;
use crate::units::{AbsoluteSize, GenericFontFamily, Length, RelativeSize};

verus! {

/// A partial CSS value, before inheritance has been resolved. A `Specified`
/// payload is itself never `Inherit`: the two states do not nest.
#[derive(Clone, Copy, PartialEq, Eq, Debug)]
pub enum CSSValue<T> {
    Inherit,
    Specified(T),
}

// CSS 2.1, Section 8 - Box model

#[derive(Clone, Copy, PartialEq, Eq, Structural, Debug)]
pub enum CSSMargin {
    CSSMarginLength(Length),
    CSSMarginPercentage(i64),
    CSSMarginAuto,
}

#[derive(Clone, Copy, PartialEq, Eq, Structural, Debug)]
pub enum CSSPadding {
    CSSPaddingLength(Length),
    CSSPaddingPercentage(i64),
}

#[derive(Clone, Copy, PartialEq, Eq, Structural, Debug)]
pub enum CSSBorderWidth {
    CSSBorderWidthThin,
    CSSBorderWidthMedium,
    CSSBorderWidthThick,
    CSSBorderWidthLength(Length),
}

#[derive(Clone, Copy, PartialEq, Eq, Structural, Debug)]
pub enum CSSBorderColor {
    CSSBorderColorColor(Color),
    CSSBorderColorTransparent,
}

#[derive(Clone, Copy, PartialEq, Eq, Structural, Debug)]
pub enum CSSBorderStyle {
    CSSBorderStyleNone,
    CSSBorderStyleHidden,
    CSSBorderStyleDotted,
    CSSBorderStyleDashed,
    CSSBorderStyleSolid,
    CSSBorderStyleDouble,
    CSSBorderStyleGroove,
    CSSBorderStyleRidge,
    CSSBorderStyleInset,
    CSSBorderStyleOutset,
}

// CSS 2.1, Section 9 - Visual formatting model

#[derive(Clone, Copy, PartialEq, Eq, Structural, Debug)]
pub enum CSSDisplay {
    CSSDisplayInline,
    CSSDisplayBlock,
    CSSDisplayListItem,
    CSSDisplayInlineBlock,
    CSSDisplayTable,
    CSSDisplayInlineTable,
    CSSDisplayTableRowGroup,
    CSSDisplayTableHeaderGroup,
    CSSDisplayTableFooterGroup,
    CSSDisplayTableRow,
    CSSDisplayTableColumnGroup,
    CSSDisplayTableColumn,
    CSSDisplayTableCell,
    CSSDisplayTableCaption,
    CSSDisplayNone,
}

#[derive(Clone, Copy, PartialEq, Eq, Structural, Debug)]
pub enum CSSPosition {
    CSSPositionStatic,
    CSSPositionRelative,
    CSSPositionAbsolute,
    CSSPositionFixed,
}

#[derive(Clone, Copy, PartialEq, Eq, Structural, Debug)]
pub enum CSSTop {
    CSSTopLength(Length),
    CSSTopPercentage(i64),
    CSSTopAuto,
}

#[derive(Clone, Copy, PartialEq, Eq, Structural, Debug)]
pub enum CSSRight {
    CSSRightLength(Length),
    CSSRightPercentage(i64),
    CSSRightAuto,
}

#[derive(Clone, Copy, PartialEq, Eq, Structural, Debug)]
pub enum CSSBottom {
    CSSBottomLength(Length),
    CSSBottomPercentage(i64),
    CSSBottomAuto,
}

#[derive(Clone, Copy, PartialEq, Eq, Structural, Debug)]
pub enum CSSLeft {
    CSSLeftLength(Length),
    CSSLeftPercentage(i64),
    CSSLeftAuto,
}

#[derive(Clone, Copy, PartialEq, Eq, Structural, Debug)]
pub enum CSSFloat {
    CSSFloatLeft,
    CSSFloatRight,
    CSSFloatNone,
}

#[derive(Clone, Copy, PartialEq, Eq, Structural, Debug)]
pub enum CSSDirection {
    CSSDirectionLtr,
    CSSDirectionRtl,
}

// CSS 2.1, Section 10 - Visual formatting model details

#[derive(Clone, Copy, PartialEq, Eq, Structural, Debug)]
pub enum CSSWidth {
    CSSWidthLength(Length),
    CSSWidthPercentage(i64),
    CSSWidthAuto,
}

#[derive(Clone, Copy, PartialEq, Eq, Structural, Debug)]
pub enum CSSHeight {
    CSSHeightLength(Length),
    CSSHeightPercentage(i64),
    CSSHeightAuto,
}

#[derive(Clone, Copy, PartialEq, Eq, Structural, Debug)]
pub enum CSSLineHeight {
    CSSLineHeightNormal,
    CSSLineHeightNumber(i64),
    CSSLineHeightLength(Length),
    CSSLineHeightPercentage(i64),
}

#[derive(Clone, Copy, PartialEq, Eq, Structural, Debug)]
pub enum CSSVerticalAlign {
    CSSVerticalAlignBaseline,
    CSSVerticalAlignSub,
    CSSVerticalAlignSuper,
    CSSVerticalAlignTop,
    CSSVerticalAlignTextTop,
    CSSVerticalAlignMiddle,
    CSSVerticalAlignBottom,
    CSSVerticalAlignTextBottom,
    CSSVerticalAlignPercentage(i64),
    CSSVerticalAlignLength(Length),
}

// CSS 2.1, Section 11 - Visual effects

#[derive(Clone, Copy, PartialEq, Eq, Structural, Debug)]
pub enum CSSOverflow {
    CSSOverflowVisible,
    CSSOverflowHidden,
    CSSOverflowScroll,
    CSSOverflowAuto,
}

#[derive(Clone, Copy, PartialEq, Eq, Structural, Debug)]
pub enum CSSVisibility {
    CSSVisibilityVisible,
    CSSVisibilityHidden,
    CSSVisibilityCollapse,
}

// CSS 2.1, Section 14 - Colors and Backgrounds

#[derive(Clone, Copy, PartialEq, Eq, Structural, Debug)]
pub enum CSSColor {
    CSSColorColor(Color),
}

#[derive(Clone, Copy, PartialEq, Eq, Structural, Debug)]
pub enum CSSBackgroundColor {
    CSSBackgroundColorColor(Color),
    CSSBackgroundColorTransparent,
}

#[derive(Clone, PartialEq, Eq, Debug)]
pub enum CSSBackgroundImage {
    CSSBackgroundUri(Vec<u8>),
    CSSBackgroundImageNone,
}

#[derive(Clone, Copy, PartialEq, Eq, Structural, Debug)]
pub enum CSSBackgroundRepeat {
    CSSBackgroundRepeatRepeat,
    CSSBackgroundRepeatRepeatX,
    CSSBackgroundRepeatRepeatY,
    CSSBackgroundRepeatNoRepeat,
}

#[derive(Clone, Copy, PartialEq, Eq, Structural, Debug)]
pub enum CSSBackgroundAttachment {
    CSSBackgroundAttachmentScroll,
    CSSBackgroundAttachmentFixed,
}

#[derive(Clone, Copy, PartialEq, Eq, Structural, Debug)]
pub enum CSSBackgroundPosition {
    CSSBackgroundPositionPercentage(i64),
    CSSBackgroundPositionLength(Length),
    CSSBackgroundPositionLeft,
    CSSBackgroundPositionCenter,
    CSSBackgroundPositionRight,
    CSSBackgroundPositionTop,
    CSSBackgroundPositionBottom,
}

// CSS 2.1, Section 15 - Fonts

#[derive(Clone, PartialEq, Eq, Debug)]
pub enum CSSFontFamily {
    CSSFontFamilyFamilyName(Vec<u8>),
    CSSFontFamilyGenericFamily(GenericFontFamily),
}

/// The mathematical shape of one font-family entry.
pub enum SpecFontFamily {
    FamilyName(Seq<u8>),
    Generic(GenericFontFamily),
}

impl View for CSSFontFamily {
    type V = SpecFontFamily;

    open spec fn view(&self) -> SpecFontFamily {
        match self {
            CSSFontFamily::CSSFontFamilyFamilyName(name) => SpecFontFamily::FamilyName(name@),
            CSSFontFamily::CSSFontFamilyGenericFamily(g) => SpecFontFamily::Generic(*g),
        }
    }
}

impl DeepView for CSSFontFamily {
    type V = SpecFontFamily;

    open spec fn deep_view(&self) -> SpecFontFamily {
        self.view()
    }
}

#[derive(Clone, Copy, PartialEq, Eq, Structural, Debug)]
pub enum CSSFontStyle {
    CSSFontStyleNormal,
    CSSFontStyleItalic,
    CSSFontStyleOblique,
}

#[derive(Clone, Copy, PartialEq, Eq, Structural, Debug)]
pub enum CSSFontWeight {
    CSSFontWeightNormal,
    CSSFontWeightBold,
    CSSFontWeightBolder,
    CSSFontWeightLighter,
    CSSFontWeight100,
    CSSFontWeight200,
    CSSFontWeight300,
    CSSFontWeight400,
    CSSFontWeight500,
    CSSFontWeight600,
    CSSFontWeight700,
    CSSFontWeight800,
    CSSFontWeight900,
}

#[derive(Clone, Copy, PartialEq, Eq, Structural, Debug)]
pub enum CSSFontSize {
    CSSFontSizeAbsoluteSize(AbsoluteSize),
    CSSFontSizeRelativeSize(RelativeSize),
    CSSFontSizeLength(Length),
    CSSFontSizePercentage(i64),
}

// CSS 2.1, Section 16 - Text

#[derive(Clone, Copy, PartialEq, Eq, Structural, Debug)]
pub enum CSSTextAlign {
    CSSTextAlignLeft,
    CSSTextAlignRight,
    CSSTextAlignCenter,
    CSSTextAlignJustify,
}

#[derive(Clone, Copy, PartialEq, Eq, Structural, Debug)]
pub enum CSSTextDecoration {
    CSSTextDecorationNone,
    CSSTextDecorationUnderline,
    CSSTextDecorationOverline,
    CSSTextDecorationLineThrough,
    CSSTextDecorationBlink,
}

#[derive(Clone, Copy, PartialEq, Eq, Structural, Debug)]
pub enum CSSTextTransform {
    CSSTextTransformCapitalize,
    CSSTextTransformUppercase,
    CSSTextTransformLowercase,
    CSSTextTransformNone,
}

} // verus!
