use std::cell::RefCell;
use std::rc::Rc;

use css::color::{black, blue, green, red, rgb, rgba, yellow, Color};
use css::complete::CompleteSelectResults;
use css::computed::ComputedStyle;
use css::error::unimpl;
use css::select::{SelectCtx, SelectHandler};
use css::stylesheet::Stylesheet;
use css::types::Origin;
use css::units::{GenericFontFamily, Length};
use css::values::{
    CSSBorderWidth, CSSDisplay, CSSFloat, CSSFontFamily, CSSHeight, CSSMargin, CSSPosition,
    CSSValue, CSSWidth,
};

fn test_url() -> &'static str {
    "http://foo.com"
}

fn style_stream(style: &str) -> Vec<u8> {
    style.as_bytes().to_vec()
}

struct NodeData {
    name: String,
    parent: RefCell<Option<TestNode>>,
}

#[derive(Clone)]
struct TestNode(Rc<NodeData>);

fn node(name: &str) -> TestNode {
    TestNode(Rc::new(NodeData { name: name.to_string(), parent: RefCell::new(None) }))
}

struct TestHandler {
    bogus: i32,
}

impl TestHandler {
    fn new() -> TestHandler {
        TestHandler { bogus: 0 }
    }
}

impl SelectHandler<TestNode> for TestHandler {
    fn node_name(&self, node: &TestNode) -> String {
        node.0.name.clone()
    }

    fn parent_node(&self, node: &TestNode) -> Option<TestNode> {
        node.0.parent.borrow().clone()
    }

    fn named_parent_node(&self, node: &TestNode, name: &str) -> Option<TestNode> {
        match &*node.0.parent.borrow() {
            Some(parent) => {
                if parent.0.name == name {
                    Some(parent.clone())
                } else {
                    None
                }
            }
            None => None,
        }
    }

    fn node_is_root(&self, node: &TestNode) -> bool {
        self.parent_node(node).is_none()
    }
}

fn single_div_test(style: &str, f: impl Fn(&ComputedStyle)) {
    let sheet = Stylesheet::new(test_url(), &style_stream(style)).unwrap();
    let mut select_ctx = SelectCtx::new();
    let handler = TestHandler::new();
    select_ctx.append_sheet(sheet, Origin::OriginAuthor);
    let dom = node("div");
    let style = select_ctx.select_style(&dom, &handler);
    let computed = style.computed_style();
    f(&computed);
}

#[test]
fn test_background_color_simple() {
    let style = "div { background-color: #123456; }";
    single_div_test(style, |computed| {
        let color = computed.background_color().unwrap();
        assert_eq!(color, CSSValue::Specified(rgb(0x12, 0x34, 0x56)));
    });
}

#[test]
fn test_border_top_width_px() {
    let style = "div { border-top-width: 10px; }";
    single_div_test(style, |computed| {
        let width = computed.border_top_width().unwrap();
        assert_eq!(
            width,
            CSSValue::Specified(CSSBorderWidth::CSSBorderWidthLength(Length::Px(10)))
        );
    });
}

#[test]
fn test_border_right_width_px() {
    let style = "div { border-right-width: 10px; }";
    single_div_test(style, |computed| {
        let width = computed.border_right_width().unwrap();
        assert_eq!(
            width,
            CSSValue::Specified(CSSBorderWidth::CSSBorderWidthLength(Length::Px(10)))
        );
    });
}

#[test]
fn test_border_bottom_width_px() {
    let style = "div { border-bottom-width: 10px; }";
    single_div_test(style, |computed| {
        let width = computed.border_bottom_width().unwrap();
        assert_eq!(
            width,
            CSSValue::Specified(CSSBorderWidth::CSSBorderWidthLength(Length::Px(10)))
        );
    });
}

#[test]
fn test_border_left_width_px() {
    let style = "div { border-left-width: 10px; }";
    single_div_test(style, |computed| {
        let width = computed.border_left_width().unwrap();
        assert_eq!(
            width,
            CSSValue::Specified(CSSBorderWidth::CSSBorderWidthLength(Length::Px(10)))
        );
    });
}

#[test]
fn test_border_width_px() {
    let style = "div { border-width: 10px; }";
    single_div_test(style, |computed| {
        let expected = CSSValue::Specified(CSSBorderWidth::CSSBorderWidthLength(Length::Px(10)));
        assert_eq!(computed.border_top_width().unwrap(), expected);
        assert_eq!(computed.border_right_width().unwrap(), expected);
        assert_eq!(computed.border_bottom_width().unwrap(), expected);
        assert_eq!(computed.border_left_width().unwrap(), expected);
    });
}

#[test]
fn test_border_color() {
    let style = "div {\
                 border-top-color: red;\
                 border-right-color: green;\
                 border-bottom-color: blue;\
                 border-left-color: yellow;\
                 }";
    single_div_test(style, |computed| {
        assert_eq!(computed.border_top_color().unwrap(), CSSValue::Specified(rgb(255, 0, 0)));
        assert_eq!(computed.border_right_color().unwrap(), CSSValue::Specified(rgb(0, 128, 0)));
        assert_eq!(computed.border_bottom_color().unwrap(), CSSValue::Specified(rgb(0, 0, 255)));
        assert_eq!(computed.border_left_color().unwrap(), CSSValue::Specified(rgb(255, 255, 0)));
    });
}

#[test]
fn test_border_color_shorthand() {
    let style = "div {\
                 border-color: red;\
                 }";
    single_div_test(style, |computed| {
        assert_eq!(computed.border_top_color().unwrap(), CSSValue::Specified(rgb(255, 0, 0)));
        assert_eq!(computed.border_right_color().unwrap(), CSSValue::Specified(rgb(255, 0, 0)));
        assert_eq!(computed.border_bottom_color().unwrap(), CSSValue::Specified(rgb(255, 0, 0)));
        assert_eq!(computed.border_left_color().unwrap(), CSSValue::Specified(rgb(255, 0, 0)));
    });
}

#[test]
fn test_margin() {
    let style = "div {\
                 margin-top: 10px;\
                 margin-right: 20px;\
                 margin-bottom: 30px;\
                 margin-left: auto;\
                 }";
    single_div_test(style, |computed| {
        assert_eq!(
            computed.margin_top().unwrap(),
            CSSValue::Specified(CSSMargin::CSSMarginLength(Length::Px(10)))
        );
        assert_eq!(
            computed.margin_right().unwrap(),
            CSSValue::Specified(CSSMargin::CSSMarginLength(Length::Px(20)))
        );
        assert_eq!(
            computed.margin_bottom().unwrap(),
            CSSValue::Specified(CSSMargin::CSSMarginLength(Length::Px(30)))
        );
        assert_eq!(computed.margin_left().unwrap(), CSSValue::Specified(CSSMargin::CSSMarginAuto));
    });
}

#[test]
fn test_display() {
    let style = "div { display: none; }";
    single_div_test(style, |computed| {
        assert_eq!(
            computed.display(false).unwrap(),
            CSSValue::Specified(CSSDisplay::CSSDisplayNone)
        );
    });
}

#[test]
fn test_float() {
    let style = "div { float: right; }";
    single_div_test(style, |computed| {
        assert_eq!(computed.float().unwrap(), CSSValue::Specified(CSSFloat::CSSFloatRight));
    });
}

#[test]
fn test_position() {
    let style = "div { position: static; }";
    single_div_test(style, |computed| {
        assert_eq!(
            computed.position().unwrap(),
            CSSValue::Specified(CSSPosition::CSSPositionStatic)
        );
    });
    let style = "div { position: relative; }";
    single_div_test(style, |computed| {
        assert_eq!(
            computed.position().unwrap(),
            CSSValue::Specified(CSSPosition::CSSPositionRelative)
        );
    });
    let style = "div { position: absolute; }";
    single_div_test(style, |computed| {
        assert_eq!(
            computed.position().unwrap(),
            CSSValue::Specified(CSSPosition::CSSPositionAbsolute)
        );
    });
    let style = "div { position: fixed; }";
    single_div_test(style, |computed| {
        assert_eq!(
            computed.position().unwrap(),
            CSSValue::Specified(CSSPosition::CSSPositionFixed)
        );
    });
}

#[test]
fn test_width() {
    let style = "div { width: 10px; }";
    single_div_test(style, |computed| {
        assert_eq!(
            computed.width().unwrap(),
            CSSValue::Specified(CSSWidth::CSSWidthLength(Length::Px(10)))
        );
    });
}

#[test]
fn test_height() {
    let style = "div { height: 10px; }";
    single_div_test(style, |computed| {
        assert_eq!(
            computed.height().unwrap(),
            CSSValue::Specified(CSSHeight::CSSHeightLength(Length::Px(10)))
        );
    });
}

#[test]
fn test_font_family_generic() {
    let style = "div { font-family: fantasy; }";
    single_div_test(style, |computed| {
        let fam = computed.font_family().unwrap();
        let spec = CSSValue::Specified(vec![CSSFontFamily::CSSFontFamilyGenericFamily(
            GenericFontFamily::Fantasy,
        )]);
        assert!(fam.eq(&spec));
    });
}

#[test]
fn test_font_family_specific() {
    let style = "div { font-family: Wombat, Jones; }";
    single_div_test(style, |computed| {
        assert_eq!(
            computed.font_family().unwrap(),
            CSSValue::Specified(vec![
                CSSFontFamily::CSSFontFamilyFamilyName(b"Wombat".to_vec()),
                CSSFontFamily::CSSFontFamilyFamilyName(b"Jones".to_vec()),
            ])
        );
    });
}

fn child_test(style: &str, f: impl Fn(&ComputedStyle)) {
    let sheet = Stylesheet::new(test_url(), &style_stream(style)).unwrap();
    let mut select_ctx = SelectCtx::new();
    let handler = TestHandler::new();
    select_ctx.append_sheet(sheet, Origin::OriginAuthor);
    let child = node("span");
    let parent = node("div");
    *child.0.parent.borrow_mut() = Some(parent.clone());
    let style = select_ctx.select_style(&child, &handler);
    let computed = style.computed_style();
    f(&computed);
}

#[test]
fn test_child() {
    let style = "div > span { border-left-width: 10px; }";
    child_test(style, |computed| {
        let width = computed.border_left_width().unwrap();
        assert_eq!(
            width,
            CSSValue::Specified(CSSBorderWidth::CSSBorderWidthLength(Length::Px(10)))
        );
    });
}

#[test]
fn test_not_child() {
    let style = "div > not_span { border-left-width: 10px; }";
    child_test(style, |computed| {
        let width = computed.border_left_width().unwrap();
        assert_ne!(
            width,
            CSSValue::Specified(CSSBorderWidth::CSSBorderWidthLength(Length::Px(10)))
        );
    });
}

#[test]
fn test_descendant() {
    let style = "div span { border-left-width: 10px; }";
    child_test(style, |computed| {
        let width = computed.border_left_width().unwrap();
        assert_eq!(
            width,
            CSSValue::Specified(CSSBorderWidth::CSSBorderWidthLength(Length::Px(10)))
        );
    });
}

#[test]
fn test_compose() {
    let style = "div { background-color: blue; }\
                 span { background-color: inherit; }";

    let sheet = Stylesheet::new(test_url(), &style_stream(style)).unwrap();
    let mut select_ctx = SelectCtx::new();
    let handler = TestHandler::new();
    select_ctx.append_sheet(sheet, Origin::OriginAuthor);
    let child = node("span");
    let parent = node("div");
    *child.0.parent.borrow_mut() = Some(parent.clone());
    let parent_results = select_ctx.select_style(&parent, &handler);
    let child_results = select_ctx.select_style(&child, &handler);

    let complete_parent_results = CompleteSelectResults::new_root(&parent_results);
    let complete_child_results =
        CompleteSelectResults::new_from_parent(&complete_parent_results, &child_results);

    let computed = complete_child_results.computed_style();

    assert_eq!(computed.background_color().unwrap(), blue());
}

#[test]
fn test_inherit_through_three_levels() {
    let style = "div { background-color: blue; }\
                 mid { background-color: inherit; }\
                 span { background-color: inherit; }";

    let sheet = Stylesheet::new(test_url(), &style_stream(style)).unwrap();
    let mut select_ctx = SelectCtx::new();
    let handler = TestHandler::new();
    select_ctx.append_sheet(sheet, Origin::OriginAuthor);
    let root = node("div");
    let mid = node("mid");
    let leaf = node("span");
    *mid.0.parent.borrow_mut() = Some(root.clone());
    *leaf.0.parent.borrow_mut() = Some(mid.clone());

    let root_complete = CompleteSelectResults::new_root(&select_ctx.select_style(&root, &handler));
    let mid_complete = CompleteSelectResults::new_from_parent(
        &root_complete,
        &select_ctx.select_style(&mid, &handler),
    );
    let leaf_complete = CompleteSelectResults::new_from_parent(
        &mid_complete,
        &select_ctx.select_style(&leaf, &handler),
    );

    assert_eq!(leaf_complete.computed_style().background_color().unwrap(), blue());
}

#[test]
fn test_inherit_unmatched_terminates_at_initial() {
    let style = "span { background-color: inherit; }";

    let sheet = Stylesheet::new(test_url(), &style_stream(style)).unwrap();
    let mut select_ctx = SelectCtx::new();
    let handler = TestHandler::new();
    select_ctx.append_sheet(sheet, Origin::OriginAuthor);
    let root = node("div");
    let leaf = node("span");
    *leaf.0.parent.borrow_mut() = Some(root.clone());

    let root_complete = CompleteSelectResults::new_root(&select_ctx.select_style(&root, &handler));
    let leaf_complete = CompleteSelectResults::new_from_parent(
        &root_complete,
        &select_ctx.select_style(&leaf, &handler),
    );

    // Nothing anywhere specifies a background color: the initial value,
    // transparent, comes back out of the chain.
    assert_eq!(leaf_complete.computed_style().background_color().unwrap(), rgba(0, 0, 0, 0));
}

#[test]
fn test_font_family_inherits_by_default() {
    let style = "div { font-family: Wombat; }";
    let sheet = Stylesheet::new(test_url(), &style_stream(style)).unwrap();
    let mut select_ctx = SelectCtx::new();
    let handler = TestHandler::new();
    select_ctx.append_sheet(sheet, Origin::OriginAuthor);
    let root = node("div");
    let leaf = node("span");
    *leaf.0.parent.borrow_mut() = Some(root.clone());

    let root_complete = CompleteSelectResults::new_root(&select_ctx.select_style(&root, &handler));
    let leaf_complete = CompleteSelectResults::new_from_parent(
        &root_complete,
        &select_ctx.select_style(&leaf, &handler),
    );

    // No rule matches the child, but font-family inherits by default.
    assert_eq!(
        leaf_complete.computed_style().font_family().unwrap(),
        vec![CSSFontFamily::CSSFontFamilyFamilyName(b"Wombat".to_vec())]
    );
}

#[test]
fn test_root_defaults_resolve_to_initial_values() {
    let sheet = Stylesheet::new(test_url(), &style_stream("")).unwrap();
    let mut select_ctx = SelectCtx::new();
    let handler = TestHandler::new();
    select_ctx.append_sheet(sheet, Origin::OriginAuthor);
    let root = node("div");
    let complete = CompleteSelectResults::new_root(&select_ctx.select_style(&root, &handler));
    let computed = complete.computed_style();

    assert_eq!(computed.background_color().unwrap(), rgba(0, 0, 0, 0));
    assert_eq!(computed.border_top_width().unwrap(), CSSBorderWidth::CSSBorderWidthMedium);
    assert_eq!(computed.border_left_color().unwrap(), black());
    assert_eq!(computed.margin_top().unwrap(), CSSMargin::CSSMarginLength(Length::Px(0)));
    assert_eq!(computed.display().unwrap(), CSSDisplay::CSSDisplayInline);
    assert_eq!(computed.float().unwrap(), CSSFloat::CSSFloatNone);
    assert_eq!(computed.position().unwrap(), CSSPosition::CSSPositionStatic);
    assert_eq!(computed.width().unwrap(), CSSWidth::CSSWidthAuto);
    assert_eq!(computed.height().unwrap(), CSSHeight::CSSHeightAuto);
    assert_eq!(
        computed.font_family().unwrap(),
        vec![CSSFontFamily::CSSFontFamilyGenericFamily(GenericFontFamily::Serif)]
    );
}

#[test]
fn test_named_colors_standard_triples() {
    assert_eq!(red(), rgb(255, 0, 0));
    assert_eq!(green(), rgb(0, 128, 0));
    assert_eq!(blue(), rgb(0, 0, 255));
    assert_eq!(yellow(), rgb(255, 255, 0));
    let style = "div { background-color: green; }";
    single_div_test(style, |computed| {
        assert_eq!(
            computed.background_color().unwrap(),
            CSSValue::Specified(Color { r: 0, g: 128, b: 0, a: 255 })
        );
    });
}

#[test]
fn test_shorthand_overrides_earlier_longhand() {
    let style = "div {\
                 border-left-color: yellow;\
                 border-color: red;\
                 }";
    single_div_test(style, |computed| {
        assert_eq!(computed.border_left_color().unwrap(), CSSValue::Specified(rgb(255, 0, 0)));
    });
}

#[test]
fn test_longhand_overrides_earlier_shorthand() {
    let style = "div {\
                 border-color: red;\
                 border-left-color: yellow;\
                 }";
    single_div_test(style, |computed| {
        assert_eq!(computed.border_left_color().unwrap(), CSSValue::Specified(rgb(255, 255, 0)));
        assert_eq!(computed.border_top_color().unwrap(), CSSValue::Specified(rgb(255, 0, 0)));
    });
}

#[test]
fn test_author_origin_wins_over_user_agent() {
    let ua = Stylesheet::new(test_url(), &style_stream("div { float: left; }")).unwrap();
    let author = Stylesheet::new(test_url(), &style_stream("div { float: right; }")).unwrap();
    let mut select_ctx = SelectCtx::new();
    let handler = TestHandler::new();
    // The author sheet is appended first: origin rank, not append order,
    // decides between the two.
    select_ctx.append_sheet(author, Origin::OriginAuthor);
    select_ctx.append_sheet(ua, Origin::OriginUA);
    let dom = node("div");
    let results = select_ctx.select_style(&dom, &handler);
    assert_eq!(
        results.computed_style().float().unwrap(),
        CSSValue::Specified(CSSFloat::CSSFloatRight)
    );
}

#[test]
fn test_parse_error_on_malformed_source() {
    assert!(Stylesheet::new(test_url(), &style_stream("div { background-color ")).is_err());
    assert!(Stylesheet::new(test_url(), &style_stream("div background-color: red; }")).is_err());
    assert!(Stylesheet::new(test_url(), &style_stream("div { background-color: red }")).is_err());
}

#[test]
fn test_unsupported_unit_names_property() {
    let style = "div { width: 10pt; }";
    single_div_test(style, |computed| {
        let err = computed.width().unwrap_err();
        assert_eq!(err.property, b"width".to_vec());
    });
}

#[test]
fn test_unsupported_keyword_names_property() {
    let style = "div { display: wiggle; }";
    single_div_test(style, |computed| {
        let err = computed.display(false).unwrap_err();
        assert_eq!(err.property, b"display".to_vec());
    });
}

#[test]
fn test_unimpl_names_feature() {
    assert_eq!(unimpl("border-style").property, b"border-style".to_vec());
}

#[test]
fn test_display_root_fixup() {
    let style = "div { display: inline; }";
    single_div_test(style, |computed| {
        assert_eq!(
            computed.display(true).unwrap(),
            CSSValue::Specified(CSSDisplay::CSSDisplayBlock)
        );
        assert_eq!(
            computed.display(false).unwrap(),
            CSSValue::Specified(CSSDisplay::CSSDisplayInline)
        );
    });
}

#[test]
fn test_descendant_matches_grandparent() {
    let style = "div span { border-left-width: 10px; }";
    let sheet = Stylesheet::new(test_url(), &style_stream(style)).unwrap();
    let mut select_ctx = SelectCtx::new();
    let handler = TestHandler::new();
    select_ctx.append_sheet(sheet, Origin::OriginAuthor);
    let root = node("div");
    let mid = node("mid");
    let leaf = node("span");
    *mid.0.parent.borrow_mut() = Some(root.clone());
    *leaf.0.parent.borrow_mut() = Some(mid.clone());
    let results = select_ctx.select_style(&leaf, &handler);
    assert_eq!(
        results.computed_style().border_left_width().unwrap(),
        CSSValue::Specified(CSSBorderWidth::CSSBorderWidthLength(Length::Px(10)))
    );
}

#[test]
fn test_later_rule_wins_same_origin() {
    let style = "div { float: left; } div { float: right; }";
    single_div_test(style, |computed| {
        assert_eq!(computed.float().unwrap(), CSSValue::Specified(CSSFloat::CSSFloatRight));
    });
}

#[test]
fn test_em_length_stays_symbolic() {
    let style = "div { width: 2em; }";
    single_div_test(style, |computed| {
        assert_eq!(
            computed.width().unwrap(),
            CSSValue::Specified(CSSWidth::CSSWidthLength(Length::Em(2)))
        );
    });
}
