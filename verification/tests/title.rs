use svgr_core::list::List;
use svgr_core::svg_dynamic_title::{title_element, DynamicTitleVisitor, Options};
use svgr_core::text::text;
use svgr_core::tree::{Attr, AttrItem, AttrName, AttrValue, JsExpr, JsLit, JsxChild, JsxElement};

type Text = List<char>;

fn nil<T>() -> List<T> {
    List::Nil
}

fn l1<T>(a: T) -> List<T> {
    List::Cons(a, Box::new(List::Nil))
}

fn l2<T>(a: T, b: T) -> List<T> {
    List::Cons(a, Box::new(l1(b)))
}

fn t(s: &str) -> Text {
    text(s)
}

fn elem(name: &str, attrs: List<AttrItem>, children: List<JsxChild>, self_closing: bool) -> JsxElement {
    JsxElement { name: t(name), attrs, children, self_closing }
}

fn child(e: JsxElement) -> JsxChild {
    JsxChild::Element(Box::new(e))
}

fn id_attr_expr(expr: JsExpr) -> AttrItem {
    AttrItem::Attr(Attr { name: AttrName::Plain(t("id")), value: Some(AttrValue::Expr(expr)) })
}

fn visitor(tag: &str) -> DynamicTitleVisitor {
    DynamicTitleVisitor::new(Options { tag: t(tag) })
}

/// `tag ? <tag ...attrs>{tag}</tag> : null`
fn conditional(tag: &str, attrs: List<AttrItem>) -> JsExpr {
    JsExpr::Cond(
        Box::new(JsExpr::Ident(t(tag))),
        Box::new(JsExpr::Element(Box::new(JsxElement {
            name: t(tag),
            attrs,
            children: l1(JsxChild::Container(JsExpr::Ident(t(tag)))),
            self_closing: false,
        }))),
        Box::new(JsExpr::Lit(JsLit::Null)),
    )
}

#[test]
fn add_title_attribute_if_not_present() {
    let input = elem("svg", nil(), nil(), false);
    let out = title_element(input, &visitor("title"));
    let expected = elem(
        "svg",
        nil(),
        l1(JsxChild::Container(conditional(
            "title",
            l1(id_attr_expr(JsExpr::Ident(t("titleId")))),
        ))),
        false,
    );
    assert_eq!(out, expected);
}

#[test]
fn add_title_element_and_fallback_to_existing_title() {
    let input = elem(
        "svg",
        nil(),
        l1(child(elem("title", nil(), l1(JsxChild::Text(t("Hello"))), false))),
        false,
    );
    let out = title_element(input, &visitor("title"));
    let merged_attrs = || l1(id_attr_expr(JsExpr::Ident(t("titleId"))));
    let expected_expr = JsExpr::Cond(
        Box::new(JsExpr::StrictEq(
            Box::new(JsExpr::Ident(t("title"))),
            Box::new(JsExpr::Ident(t("undefined"))),
        )),
        Box::new(JsExpr::Element(Box::new(JsxElement {
            name: t("title"),
            attrs: merged_attrs(),
            children: l1(JsxChild::Text(t("Hello"))),
            self_closing: false,
        }))),
        Box::new(conditional("title", merged_attrs())),
    );
    let expected = elem("svg", nil(), l1(JsxChild::Container(expected_expr)), false);
    assert_eq!(out, expected);
}

#[test]
fn preserve_any_existing_title_attributes() {
    let existing_id = AttrItem::Attr(Attr {
        name: AttrName::Plain(t("id")),
        value: Some(AttrValue::Str(t("a"))),
    });
    let input = elem(
        "svg",
        nil(),
        l1(child(elem("title", l1(existing_id), l1(JsxChild::Text(t("Hello"))), false))),
        false,
    );
    let out = title_element(input, &visitor("title"));
    let merged_attrs = || {
        l1(id_attr_expr(JsExpr::Or(
            Box::new(JsExpr::Ident(t("titleId"))),
            Box::new(JsExpr::Lit(JsLit::Str(t("a")))),
        )))
    };
    let expected_expr = JsExpr::Cond(
        Box::new(JsExpr::StrictEq(
            Box::new(JsExpr::Ident(t("title"))),
            Box::new(JsExpr::Ident(t("undefined"))),
        )),
        Box::new(JsExpr::Element(Box::new(JsxElement {
            name: t("title"),
            attrs: merged_attrs(),
            children: l1(JsxChild::Text(t("Hello"))),
            self_closing: false,
        }))),
        Box::new(conditional("title", merged_attrs())),
    );
    let expected = elem("svg", nil(), l1(JsxChild::Container(expected_expr)), false);
    assert_eq!(out, expected);
}

#[test]
fn empty_title() {
    let input = elem("svg", nil(), l1(child(elem("title", nil(), nil(), false))), false);
    let out = title_element(input, &visitor("title"));
    let expected = elem(
        "svg",
        nil(),
        l1(JsxChild::Container(conditional(
            "title",
            l1(id_attr_expr(JsExpr::Ident(t("titleId")))),
        ))),
        false,
    );
    assert_eq!(out, expected);
}

#[test]
fn self_closing_title() {
    let input = elem("svg", nil(), l1(child(elem("title", nil(), nil(), true))), false);
    let out = title_element(input, &visitor("title"));
    let expected = elem(
        "svg",
        nil(),
        l1(JsxChild::Container(conditional(
            "title",
            l1(id_attr_expr(JsExpr::Ident(t("titleId")))),
        ))),
        false,
    );
    assert_eq!(out, expected);
}

#[test]
fn attribute_is_already_present() {
    let input = elem("svg", nil(), nil(), false);
    let out = title_element(input, &visitor("desc"));
    let expected = elem(
        "svg",
        nil(),
        l1(JsxChild::Container(conditional(
            "desc",
            l1(id_attr_expr(JsExpr::Ident(t("descId")))),
        ))),
        false,
    );
    assert_eq!(out, expected);
}

#[test]
fn desc_attribute_is_already_present() {
    let input = elem("svg", nil(), l1(child(elem("foo", nil(), nil(), true))), false);
    let out = title_element(input, &visitor("desc"));
    let expected = elem(
        "svg",
        nil(),
        l2(
            JsxChild::Container(conditional("desc", l1(id_attr_expr(JsExpr::Ident(t("descId")))))),
            child(elem("foo", nil(), nil(), true)),
        ),
        false,
    );
    assert_eq!(out, expected);
}

#[test]
fn merge_on_other_tags_is_a_no_op() {
    let input = elem("div", nil(), nil(), false);
    let out = title_element(input, &visitor("title"));
    assert_eq!(out, elem("div", nil(), nil(), false));
}

#[test]
fn title_then_desc_equals_desc_then_title_with_existing_title() {
    let make_input = || {
        elem(
            "svg",
            nil(),
            l1(child(elem("title", nil(), l1(JsxChild::Text(t("Hello"))), false))),
            false,
        )
    };
    let a = title_element(title_element(make_input(), &visitor("title")), &visitor("desc"));
    let b = title_element(title_element(make_input(), &visitor("desc")), &visitor("title"));
    assert_eq!(a, b);
}
