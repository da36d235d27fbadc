use svgr_core::list::List;
use svgr_core::module::{ImportDecl, ImportSpecifier, Module, ModuleItem};
use svgr_core::text::text;
use svgr_core::transform_react_native_svg::{component_of, transform_react_native, ImportDeclVisitor, JSXElementVisitor, State};
use svgr_core::tree::{AttrItem, JsxChild, JsxElement};

type Text = List<char>;

fn nil<T>() -> List<T> {
    List::Nil
}

fn l1<T>(a: T) -> List<T> {
    List::Cons(a, Box::new(List::Nil))
}

fn l2<T>(a: T, b: T) -> List<T> {
    List::Cons(a, Box::new(l1(b)))
}

fn t(s: &str) -> Text {
    text(s)
}

fn elem(name: &str, attrs: List<AttrItem>, children: List<JsxChild>, self_closing: bool) -> JsxElement {
    JsxElement { name: t(name), attrs, children, self_closing }
}

fn child(e: JsxElement) -> JsxChild {
    JsxChild::Element(Box::new(e))
}

#[test]
fn component_lookup() {
    assert_eq!(component_of(&t("svg")), Some(t("Svg")));
    assert_eq!(component_of(&t("clipPath")), Some(t("ClipPath")));
    assert_eq!(component_of(&t("tspan")), Some(t("TSpan")));
    assert_eq!(component_of(&t("title")), None);
    assert_eq!(component_of(&t("div")), None);
}

#[test]
fn renames_drops_and_fixes_imports() {
    let import = ImportDecl {
        src: t("react-native-svg"),
        specifiers: l1(ImportSpecifier::Default(t("Svg"))),
        trailing_comment: None,
    };
    let tree = elem(
        "svg",
        nil(),
        l2(child(elem("g", nil(), nil(), true)), child(elem("foo", nil(), nil(), true))),
        false,
    );
    let m = Module { items: l2(ModuleItem::Import(import), ModuleItem::JsxStmt(tree)) };
    let (out, st) = transform_react_native(m);

    let expected_state = State {
        replaced_components: l2(t("Svg"), t("G")),
        unsupported_components: l1(t("foo")),
    };
    assert_eq!(st, expected_state);

    let expected_import = ImportDecl {
        src: t("react-native-svg"),
        specifiers: l2(
            ImportSpecifier::Default(t("Svg")),
            ImportSpecifier::Named { local: t("G"), type_only: false },
        ),
        trailing_comment: Some(t(
            " SVGR has dropped some elements not supported by react-native-svg: foo ",
        )),
    };
    let expected_tree = elem("Svg", nil(), l1(child(elem("G", nil(), nil(), true))), false);
    let expected = Module {
        items: l2(ModuleItem::Import(expected_import), ModuleItem::JsxStmt(expected_tree)),
    };
    assert_eq!(out, expected);
}

#[test]
fn elements_outside_svg_are_untouched() {
    let tree = elem("div", nil(), l1(child(elem("foo", nil(), nil(), true))), false);
    let m = Module { items: l1(ModuleItem::JsxStmt(tree)) };
    let (out, st) = transform_react_native(m);
    let expected_tree = elem("div", nil(), l1(child(elem("foo", nil(), nil(), true))), false);
    assert_eq!(out, Module { items: l1(ModuleItem::JsxStmt(expected_tree)) });
    assert_eq!(
        st,
        State { replaced_components: nil(), unsupported_components: nil() },
    );
}

#[test]
fn the_two_halves_compose_by_hand() {
    let visitor = JSXElementVisitor::new(State {
        replaced_components: nil(),
        unsupported_components: nil(),
    });
    let tree = elem("svg", nil(), l1(child(elem("circle", nil(), nil(), true))), false);
    let (out, visitor) = visitor.visit_element(tree);
    assert_eq!(out, elem("Svg", nil(), l1(child(elem("Circle", nil(), nil(), true))), false));
    assert_eq!(visitor.state.replaced_components, l2(t("Svg"), t("Circle")));

    let fixup = ImportDeclVisitor::new(visitor.state);
    let d = fixup.visit_import_decl(ImportDecl {
        src: t("react-native-svg"),
        specifiers: nil(),
        trailing_comment: None,
    });
    assert_eq!(
        d,
        ImportDecl {
            src: t("react-native-svg"),
            specifiers: l2(
                ImportSpecifier::Named { local: t("Svg"), type_only: false },
                ImportSpecifier::Named { local: t("Circle"), type_only: false },
            ),
            trailing_comment: None,
        },
    );
}

#[test]
fn unrelated_imports_are_left_alone() {
    let fixup = ImportDeclVisitor::new(State {
        replaced_components: l1(t("Svg")),
        unsupported_components: l1(t("foo")),
    });
    let d = fixup.visit_import_decl(ImportDecl {
        src: t("react"),
        specifiers: l1(ImportSpecifier::Namespace(t("React"))),
        trailing_comment: None,
    });
    assert_eq!(
        d,
        ImportDecl {
            src: t("react"),
            specifiers: l1(ImportSpecifier::Namespace(t("React"))),
            trailing_comment: None,
        },
    );
}

#[test]
fn dropped_tags_are_recorded_once() {
    let tree = elem(
        "svg",
        nil(),
        l2(child(elem("foo", nil(), nil(), true)), child(elem("foo", nil(), nil(), true))),
        false,
    );
    let m = Module { items: l1(ModuleItem::JsxStmt(tree)) };
    let (out, st) = transform_react_native(m);
    assert_eq!(st.unsupported_components, l1(t("foo")));
    assert_eq!(
        out,
        Module { items: l1(ModuleItem::JsxStmt(elem("Svg", nil(), nil(), false))) },
    );
}
