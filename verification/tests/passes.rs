use svgr_core::add_jsx_attribute;
use svgr_core::list::List;
use svgr_core::remove_jsx_attribute;
use svgr_core::remove_jsx_empty_expression::prune_element;
use svgr_core::replace_jsx_attribute_value;
use svgr_core::svg_em_dimensions;
use svgr_core::text::text;
use svgr_core::tree::{Attr, AttrItem, AttrName, AttrValue, JsExpr, JsLit, JsxChild, JsxElement};

type Text = List<char>;

fn nil<T>() -> List<T> {
    List::Nil
}

fn l1<T>(a: T) -> List<T> {
    List::Cons(a, Box::new(List::Nil))
}

fn l2<T>(a: T, b: T) -> List<T> {
    List::Cons(a, Box::new(l1(b)))
}

fn l3<T>(a: T, b: T, c: T) -> List<T> {
    List::Cons(a, Box::new(l2(b, c)))
}

fn t(s: &str) -> Text {
    text(s)
}

fn bare_attr(name: &str) -> AttrItem {
    AttrItem::Attr(Attr { name: AttrName::Plain(t(name)), value: None })
}

fn str_attr(name: &str, value: &str) -> AttrItem {
    AttrItem::Attr(Attr { name: AttrName::Plain(t(name)), value: Some(AttrValue::Str(t(value))) })
}

fn elem(name: &str, attrs: List<AttrItem>, children: List<JsxChild>, self_closing: bool) -> JsxElement {
    JsxElement { name: t(name), attrs, children, self_closing }
}

fn child(e: JsxElement) -> JsxChild {
    JsxChild::Element(Box::new(e))
}

#[test]
fn remove_attributes_from_an_element() {
    let input = elem(
        "div",
        l1(bare_attr("foo")),
        l1(child(elem("span", l1(bare_attr("foo")), nil(), true))),
        false,
    );
    let opts = remove_jsx_attribute::Options { elements: l1(t("span")), attributes: l1(t("foo")) };
    let out = remove_jsx_attribute::remove_from_element(input, &opts);
    let expected = elem(
        "div",
        l1(bare_attr("foo")),
        l1(child(elem("span", nil(), nil(), true))),
        false,
    );
    assert_eq!(out, expected);
}

#[test]
fn not_throw_error_when_spread_operator_is_used() {
    let input = elem(
        "div",
        l1(bare_attr("foo")),
        l1(child(elem(
            "span",
            l2(bare_attr("foo"), AttrItem::Spread(JsExpr::Ident(t("props")))),
            nil(),
            true,
        ))),
        false,
    );
    let opts = remove_jsx_attribute::Options { elements: l1(t("span")), attributes: l1(t("foo")) };
    let out = remove_jsx_attribute::remove_from_element(input, &opts);
    let expected = elem(
        "div",
        l1(bare_attr("foo")),
        l1(child(elem("span", l1(AttrItem::Spread(JsExpr::Ident(t("props")))), nil(), true))),
        false,
    );
    assert_eq!(out, expected);
}

#[test]
fn untouched_element_stays_byte_identical() {
    let input = elem("circle", l2(bare_attr("foo"), str_attr("r", "4")), nil(), true);
    let opts = remove_jsx_attribute::Options { elements: l1(t("span")), attributes: l1(t("foo")) };
    let out = remove_jsx_attribute::remove_from_element(input, &opts);
    let expected = elem("circle", l2(bare_attr("foo"), str_attr("r", "4")), nil(), true);
    assert_eq!(out, expected);
}

fn add_opt(
    name: &str,
    value: Option<add_jsx_attribute::Value>,
    spread: Option<bool>,
    literal: Option<bool>,
    position: Option<add_jsx_attribute::Position>,
) -> add_jsx_attribute::AttributeOption {
    add_jsx_attribute::AttributeOption { name: t(name), value, spread, literal, position }
}

#[test]
fn add_simple_attribute() {
    let input = elem("div", nil(), nil(), true);
    let opts = add_jsx_attribute::Options {
        elements: l1(t("div")),
        attributes: l1(add_opt("disabled", None, None, None, None)),
    };
    let out = add_jsx_attribute::add_to_element(input, &opts);
    assert_eq!(out, elem("div", l1(bare_attr("disabled")), nil(), true));
}

#[test]
fn add_attribute_with_value() {
    let input = elem("div", nil(), nil(), true);
    let opts = add_jsx_attribute::Options {
        elements: l1(t("div")),
        attributes: l1(add_opt(
            "disabled",
            Some(add_jsx_attribute::Value::Str(t("true"))),
            None,
            None,
            None,
        )),
    };
    let out = add_jsx_attribute::add_to_element(input, &opts);
    assert_eq!(out, elem("div", l1(str_attr("disabled", "true")), nil(), true));
}

#[test]
fn add_literal_attribute() {
    let input = elem("div", nil(), nil(), true);
    let opts = add_jsx_attribute::Options {
        elements: l1(t("div")),
        attributes: l1(add_opt(
            "ref",
            Some(add_jsx_attribute::Value::Str(t("ref"))),
            None,
            Some(true),
            None,
        )),
    };
    let out = add_jsx_attribute::add_to_element(input, &opts);
    let expected_attr = AttrItem::Attr(Attr {
        name: AttrName::Plain(t("ref")),
        value: Some(AttrValue::Expr(JsExpr::Code(t("ref")))),
    });
    assert_eq!(out, elem("div", l1(expected_attr), nil(), true));
}

#[test]
fn add_spread_attribute_start() {
    let input = elem(
        "div",
        l1(bare_attr("foo")),
        l1(child(elem("span", nil(), nil(), true))),
        false,
    );
    let opts = add_jsx_attribute::Options {
        elements: l1(t("div")),
        attributes: l1(add_opt(
            "props",
            None,
            Some(true),
            None,
            Some(add_jsx_attribute::Position::Start),
        )),
    };
    let out = add_jsx_attribute::add_to_element(input, &opts);
    let expected = elem(
        "div",
        l2(AttrItem::Spread(JsExpr::Ident(t("props"))), bare_attr("foo")),
        l1(child(elem("span", nil(), nil(), true))),
        false,
    );
    assert_eq!(out, expected);
}

#[test]
fn add_spread_attribute_end() {
    let input = elem(
        "div",
        nil(),
        l1(child(elem("span", l1(str_attr("foo", "bar")), nil(), true))),
        false,
    );
    let opts = add_jsx_attribute::Options {
        elements: l1(t("span")),
        attributes: l1(add_opt(
            "props",
            None,
            Some(true),
            None,
            Some(add_jsx_attribute::Position::End),
        )),
    };
    let out = add_jsx_attribute::add_to_element(input, &opts);
    let expected = elem(
        "div",
        nil(),
        l1(child(elem(
            "span",
            l2(str_attr("foo", "bar"), AttrItem::Spread(JsExpr::Ident(t("props")))),
            nil(),
            true,
        ))),
        false,
    );
    assert_eq!(out, expected);
}

#[test]
fn replace_attribute() {
    let input = elem("div", l1(bare_attr("disabled")), nil(), true);
    let opts = add_jsx_attribute::Options {
        elements: l1(t("div")),
        attributes: l1(add_opt(
            "disabled",
            Some(add_jsx_attribute::Value::Boolean(false)),
            None,
            None,
            None,
        )),
    };
    let out = add_jsx_attribute::add_to_element(input, &opts);
    let expected_attr = AttrItem::Attr(Attr {
        name: AttrName::Plain(t("disabled")),
        value: Some(AttrValue::Expr(JsExpr::Lit(JsLit::Bool(false)))),
    });
    assert_eq!(out, elem("div", l1(expected_attr), nil(), true));
}

#[test]
fn replace_attribute_values() {
    let input = elem(
        "div",
        l2(
            str_attr("something", "cool"),
            AttrItem::Attr(Attr {
                name: AttrName::Plain(t("a")),
                value: Some(AttrValue::Expr(JsExpr::Ident(t("b")))),
            }),
        ),
        nil(),
        true,
    );
    let opts = replace_jsx_attribute_value::Options {
        values: l1(replace_jsx_attribute_value::Value {
            value: t("cool"),
            new_value: replace_jsx_attribute_value::NewValue::Str(t("not cool")),
            literal: None,
        }),
    };
    let out = replace_jsx_attribute_value::replace_in_element(input, &opts);
    let expected = elem(
        "div",
        l2(
            str_attr("something", "not cool"),
            AttrItem::Attr(Attr {
                name: AttrName::Plain(t("a")),
                value: Some(AttrValue::Expr(JsExpr::Ident(t("b")))),
            }),
        ),
        nil(),
        true,
    );
    assert_eq!(out, expected);
}

#[test]
fn replace_attribute_values_with_literal() {
    let input = elem("div", l1(str_attr("something", "cool")), nil(), true);
    let opts = replace_jsx_attribute_value::Options {
        values: l1(replace_jsx_attribute_value::Value {
            value: t("cool"),
            new_value: replace_jsx_attribute_value::NewValue::Str(t("props.color")),
            literal: Some(true),
        }),
    };
    let out = replace_jsx_attribute_value::replace_in_element(input, &opts);
    let expected_attr = AttrItem::Attr(Attr {
        name: AttrName::Plain(t("something")),
        value: Some(AttrValue::Expr(JsExpr::Code(t("props.color")))),
    });
    assert_eq!(out, elem("div", l1(expected_attr), nil(), true));
}

#[test]
fn replace_attribute_values_last_match_wins() {
    let input = elem("div", l1(str_attr("fill", "red")), nil(), true);
    let opts = replace_jsx_attribute_value::Options {
        values: l2(
            replace_jsx_attribute_value::Value {
                value: t("red"),
                new_value: replace_jsx_attribute_value::NewValue::Str(t("first")),
                literal: None,
            },
            replace_jsx_attribute_value::Value {
                value: t("red"),
                new_value: replace_jsx_attribute_value::NewValue::Number(t("7")),
                literal: None,
            },
        ),
    };
    let out = replace_jsx_attribute_value::replace_in_element(input, &opts);
    let expected_attr = AttrItem::Attr(Attr {
        name: AttrName::Plain(t("fill")),
        value: Some(AttrValue::Expr(JsExpr::Lit(JsLit::Num(t("7"))))),
    });
    assert_eq!(out, elem("div", l1(expected_attr), nil(), true));
}

#[test]
fn remove_empty_expression() {
    let input = elem(
        "div",
        nil(),
        l3(
            child(elem("a", nil(), nil(), true)),
            JsxChild::Container(JsExpr::Empty),
            child(elem(
                "span",
                nil(),
                l2(JsxChild::Container(JsExpr::Empty), JsxChild::Text(t(" 222"))),
                false,
            )),
        ),
        false,
    );
    let out = prune_element(input);
    let expected = elem(
        "div",
        nil(),
        l2(
            child(elem("a", nil(), nil(), true)),
            child(elem("span", nil(), l1(JsxChild::Text(t(" 222"))), false)),
        ),
        false,
    );
    assert_eq!(out, expected);
}

#[test]
fn remove_empty_expression_keeps_filled_containers() {
    let input = elem(
        "div",
        nil(),
        l2(
            JsxChild::Container(JsExpr::Ident(t("isLoggedIn"))),
            JsxChild::Container(JsExpr::Empty),
        ),
        false,
    );
    let out = prune_element(input);
    let expected = elem(
        "div",
        nil(),
        l1(JsxChild::Container(JsExpr::Ident(t("isLoggedIn")))),
        false,
    );
    assert_eq!(out, expected);
}

#[test]
fn replace_width_or_height_value() {
    let v = svg_em_dimensions::SVGEmDimensionsVisitor::new(svg_em_dimensions::Options {
        width: None,
        height: None,
    });
    let input = elem(
        "svg",
        l3(str_attr("foo", "bar"), str_attr("width", "100"), str_attr("height", "200")),
        nil(),
        true,
    );
    let out = svg_em_dimensions::em_element(input, &v);
    let expected = elem(
        "svg",
        l3(str_attr("foo", "bar"), str_attr("width", "1em"), str_attr("height", "1em")),
        nil(),
        true,
    );
    assert_eq!(out, expected);
}

#[test]
fn add_attribute_if_it_not_present() {
    let v = svg_em_dimensions::SVGEmDimensionsVisitor::new(svg_em_dimensions::Options {
        width: None,
        height: None,
    });
    let input = elem("svg", l1(str_attr("foo", "bar")), nil(), true);
    let out = svg_em_dimensions::em_element(input, &v);
    let expected = elem(
        "svg",
        l3(str_attr("foo", "bar"), str_attr("width", "1em"), str_attr("height", "1em")),
        nil(),
        true,
    );
    assert_eq!(out, expected);
}

#[test]
fn accepts_numeric_values() {
    let v = svg_em_dimensions::SVGEmDimensionsVisitor::new(svg_em_dimensions::Options {
        width: Some(svg_em_dimensions::NumberOrString::Num(t("24"))),
        height: Some(svg_em_dimensions::NumberOrString::Num(t("24"))),
    });
    let input = elem("svg", l1(str_attr("foo", "bar")), nil(), true);
    let out = svg_em_dimensions::em_element(input, &v);
    let num_attr = |name: &str| {
        AttrItem::Attr(Attr {
            name: AttrName::Plain(t(name)),
            value: Some(AttrValue::Expr(JsExpr::Lit(JsLit::Num(t("24"))))),
        })
    };
    let expected = elem(
        "svg",
        l3(str_attr("foo", "bar"), num_attr("width"), num_attr("height")),
        nil(),
        true,
    );
    assert_eq!(out, expected);
}

#[test]
fn accepts_string_values() {
    let v = svg_em_dimensions::SVGEmDimensionsVisitor::new(svg_em_dimensions::Options {
        width: Some(svg_em_dimensions::NumberOrString::Str(t("2em"))),
        height: Some(svg_em_dimensions::NumberOrString::Str(t("2em"))),
    });
    let input = elem("svg", l1(str_attr("foo", "bar")), nil(), true);
    let out = svg_em_dimensions::em_element(input, &v);
    let expected = elem(
        "svg",
        l3(str_attr("foo", "bar"), str_attr("width", "2em"), str_attr("height", "2em")),
        nil(),
        true,
    );
    assert_eq!(out, expected);
}
