use svgr_core::list::List;
use svgr_core::text::text;
use svgr_core::transform_attribute::{hyphen_to_camel, is_numeric, normalize_element};
use svgr_core::tree::{
    Attr, AttrItem, AttrName, AttrValue, JsExpr, JsLit, JsxChild, JsxElement, ObjectProp,
};

type Text = List<char>;

fn nil<T>() -> List<T> {
    List::Nil
}

fn l1<T>(a: T) -> List<T> {
    List::Cons(a, Box::new(List::Nil))
}

fn l2<T>(a: T, b: T) -> List<T> {
    List::Cons(a, Box::new(l1(b)))
}

fn t(s: &str) -> Text {
    text(s)
}

fn str_attr(name: &str, value: &str) -> AttrItem {
    AttrItem::Attr(Attr { name: AttrName::Plain(t(name)), value: Some(AttrValue::Str(t(value))) })
}

fn elem(name: &str, attrs: List<AttrItem>, children: List<JsxChild>, self_closing: bool) -> JsxElement {
    JsxElement { name: t(name), attrs, children, self_closing }
}

#[test]
fn namespace_attribute() {
    let input = elem(
        "svg",
        l1(AttrItem::Attr(Attr {
            name: AttrName::Namespaced(t("xmlns"), t("xlink")),
            value: Some(AttrValue::Str(t("asdf"))),
        })),
        nil(),
        true,
    );
    let out = normalize_element(input);
    assert_eq!(out, elem("svg", l1(str_attr("xmlnsXlink", "asdf")), nil(), true));
}

#[test]
fn class_attribute() {
    let input = elem("svg", l1(str_attr("class", "a b")), nil(), true);
    let out = normalize_element(input);
    assert_eq!(out, elem("svg", l1(str_attr("className", "a b")), nil(), true));
}

#[test]
fn style_attribute() {
    let input = elem("svg", l1(str_attr("style", "text-align: center;")), nil(), true);
    let out = normalize_element(input);
    let expected_attr = AttrItem::Attr(Attr {
        name: AttrName::Plain(t("style")),
        value: Some(AttrValue::Expr(JsExpr::Object(l1(ObjectProp {
            key: t("textAlign"),
            value: JsLit::Str(t("center")),
        })))),
    });
    assert_eq!(out, elem("svg", l1(expected_attr), nil(), true));
}

#[test]
fn style_attribute_numeric_value() {
    let input = elem("svg", l1(str_attr("style", "font-size: 50;")), nil(), true);
    let out = normalize_element(input);
    let expected_attr = AttrItem::Attr(Attr {
        name: AttrName::Plain(t("style")),
        value: Some(AttrValue::Expr(JsExpr::Object(l1(ObjectProp {
            key: t("fontSize"),
            value: JsLit::Num(t("50")),
        })))),
    });
    assert_eq!(out, elem("svg", l1(expected_attr), nil(), true));
}

#[test]
fn style_attribute_two_declarations() {
    let input = elem("svg", l1(str_attr("style", "font-size: 50;text-align: center;")), nil(), true);
    let out = normalize_element(input);
    let expected_attr = AttrItem::Attr(Attr {
        name: AttrName::Plain(t("style")),
        value: Some(AttrValue::Expr(JsExpr::Object(l2(
            ObjectProp { key: t("fontSize"), value: JsLit::Num(t("50")) },
            ObjectProp { key: t("textAlign"), value: JsLit::Str(t("center")) },
        )))),
    });
    assert_eq!(out, elem("svg", l1(expected_attr), nil(), true));
}

#[test]
fn hyphenated_names_are_camel_cased() {
    let input = elem(
        "g",
        l2(str_attr("id", "Page-1"), str_attr("stroke-width", "1")),
        nil(),
        true,
    );
    let out = normalize_element(input);
    let expected = elem(
        "g",
        l2(str_attr("id", "Page-1"), str_attr("strokeWidth", "1")),
        nil(),
        true,
    );
    assert_eq!(out, expected);
}

#[test]
fn data_and_aria_names_are_quoted() {
    let input = elem(
        "svg",
        l2(str_attr("data-foo", "x"), str_attr("aria-hidden", "true")),
        nil(),
        true,
    );
    let out = normalize_element(input);
    let expected = elem(
        "svg",
        l2(str_attr("'data-foo'", "x"), str_attr("'aria-hidden'", "true")),
        nil(),
        true,
    );
    assert_eq!(out, expected);
}

#[test]
fn normalization_twice_equals_once_on_camel_names() {
    let make = || {
        elem(
            "svg",
            l2(str_attr("stroke-width", "1"), str_attr("class", "a")),
            l1(JsxChild::Element(Box::new(elem(
                "g",
                l1(str_attr("fill-rule", "evenodd")),
                nil(),
                true,
            )))),
            false,
        )
    };
    let once = normalize_element(make());
    let twice = normalize_element(normalize_element(make()));
    assert_eq!(twice, once);
}

#[test]
fn hyphen_to_camel_keeps_camel_names() {
    assert_eq!(hyphen_to_camel(t("strokeWidth")), t("strokeWidth"));
    assert_eq!(hyphen_to_camel(t("fill-rule")), t("fillRule"));
    assert_eq!(hyphen_to_camel(t("x")), t("x"));
}

#[test]
fn numeric_values() {
    assert!(is_numeric(&t("50")));
    assert!(is_numeric(&t("-3.5")));
    assert!(is_numeric(&t("+2.")));
    assert!(is_numeric(&t(".5e-3")));
    assert!(is_numeric(&t("1e6")));
    assert!(!is_numeric(&t("")));
    assert!(!is_numeric(&t("50px")));
    assert!(!is_numeric(&t("center")));
    assert!(!is_numeric(&t(".")));
    assert!(!is_numeric(&t("1e")));
}
