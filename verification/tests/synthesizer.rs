use svgr_core::config::{
    default_expand_props, default_export_type, default_import_source, default_jsx_runtime_import,
    default_named_export, default_state, false_by_default, Caller, Config, ConfigError,
    ExpandProps, ExportType, JSXRuntimeImport, State,
};
use svgr_core::list::List;
use svgr_core::module::{
    ComponentDecl, ImportDecl, ImportSpecifier, Module, ModuleItem, Pat, PatProp, TsInterface,
    TsType, TsTypeRef,
};
use svgr_core::svgr::{run_pipeline, Options as PipelineOptions};
use svgr_core::text::text;
use svgr_core::transform_svg_component::{transform_module, TransformSVGComponentVisitor};
use svgr_core::tree::{Attr, AttrItem, AttrName, AttrValue, JsxChild, JsxElement};

type Text = List<char>;

fn nil<T>() -> List<T> {
    List::Nil
}

fn l1<T>(a: T) -> List<T> {
    List::Cons(a, Box::new(List::Nil))
}

fn l2<T>(a: T, b: T) -> List<T> {
    List::Cons(a, Box::new(l1(b)))
}

fn l3<T>(a: T, b: T, c: T) -> List<T> {
    List::Cons(a, Box::new(l2(b, c)))
}

fn t(s: &str) -> Text {
    text(s)
}

fn base_config() -> Config {
    Config {
        typescript: false_by_default(),
        title_prop: false_by_default(),
        desc_prop: false_by_default(),
        expand_props: default_expand_props(),
        forward_ref: false_by_default(),
        state: default_state(),
        native: false_by_default(),
        memo: false_by_default(),
        export_type: default_export_type(),
        named_export: default_named_export(),
        jsx_runtime: None,
        jsx_runtime_import: default_jsx_runtime_import(),
        import_source: default_import_source(),
    }
}

fn svg_module() -> Module {
    Module {
        items: l1(ModuleItem::JsxStmt(JsxElement {
            name: t("svg"),
            attrs: nil(),
            children: nil(),
            self_closing: true,
        })),
    }
}

fn react_namespace_import() -> ModuleItem {
    ModuleItem::Import(ImportDecl {
        src: t("react"),
        specifiers: l1(ImportSpecifier::Namespace(t("React"))),
        trailing_comment: None,
    })
}

fn bare_svg() -> JsxElement {
    JsxElement { name: t("svg"), attrs: nil(), children: nil(), self_closing: true }
}

#[test]
fn defaults_match_the_documented_values() {
    assert_eq!(false_by_default(), false);
    assert_eq!(default_import_source(), t("react"));
    assert_eq!(default_named_export(), t("ReactComponent"));
    assert_eq!(default_export_type(), ExportType::Default);
    assert_eq!(default_expand_props(), ExpandProps::End);
    let st = default_state();
    assert_eq!(st.component_name, t("SvgComponent"));
    assert_eq!(st.caller.previous_export, nil::<char>());
    let rt = default_jsx_runtime_import();
    assert_eq!(rt.source, t("react"));
    assert_eq!(rt.namespace, Some(t("React")));
    assert_eq!(rt.default_specifier, None);
    assert_eq!(rt.specifiers, None);
}

#[test]
fn default_config_gives_default_export_component() {
    let out = transform_module(svg_module(), &base_config()).unwrap();
    let expected = Module {
        items: l3(
            react_namespace_import(),
            ModuleItem::Component(ComponentDecl {
                name: t("SvgComponent"),
                params: l1(Pat::Ident { name: t("props"), ty: None }),
                body: bare_svg(),
            }),
            ModuleItem::DefaultExport(t("SvgComponent")),
        ),
    };
    assert_eq!(out, expected);
}

#[test]
fn named_export_shape_gives_exactly_one_named_export() {
    let mut cfg = base_config();
    cfg.export_type = ExportType::Named;
    let out = transform_module(svg_module(), &cfg).unwrap();
    let mut named = 0;
    let mut defaulted = 0;
    let mut items = &out.items;
    while let List::Cons(item, rest) = items {
        match item {
            ModuleItem::NamedExport { orig, exported } => {
                named += 1;
                assert_eq!(*orig, t("SvgComponent"));
                assert_eq!(*exported, t("ReactComponent"));
            }
            ModuleItem::DefaultExport(_) => {
                defaulted += 1;
            }
            _ => {}
        }
        items = &**rest;
    }
    assert_eq!(named, 1);
    assert_eq!(defaulted, 0);
}

#[test]
fn named_export_without_a_name_is_fatal() {
    let mut cfg = base_config();
    cfg.export_type = ExportType::Named;
    cfg.named_export = nil();
    let out = transform_module(svg_module(), &cfg);
    assert_eq!(out, Err(ConfigError::NamedExportEmpty));
    assert_eq!(
        ConfigError::NamedExportEmpty.message(),
        "\"namedExport\" not specified".to_string(),
    );
}

#[test]
fn runtime_import_without_specifiers_is_fatal() {
    let mut cfg = base_config();
    cfg.jsx_runtime_import = JSXRuntimeImport {
        source: t("react"),
        namespace: None,
        default_specifier: None,
        specifiers: None,
    };
    let out = transform_module(svg_module(), &cfg);
    assert_eq!(out, Err(ConfigError::JsxRuntimeImportUnspecified));
}

#[test]
fn previous_export_forces_named_shape_and_is_appended_verbatim() {
    let mut cfg = base_config();
    cfg.state = State {
        component_name: t("SvgComponent"),
        caller: Caller { previous_export: t("export default logo;") },
    };
    let out = transform_module(svg_module(), &cfg).unwrap();
    let expected_tail = l2(
        ModuleItem::NamedExport { orig: t("SvgComponent"), exported: t("ReactComponent") },
        ModuleItem::Verbatim(t("export default logo;")),
    );
    let mut items = out.items;
    // skip the import and the component
    for _ in 0..2 {
        match items {
            List::Cons(_, rest) => items = *rest,
            List::Nil => panic!("module too short"),
        }
    }
    assert_eq!(items, expected_tail);
}

#[test]
fn forward_ref_and_memo_wrap_in_order() {
    let mut cfg = base_config();
    cfg.forward_ref = true;
    cfg.memo = true;
    let out = transform_module(svg_module(), &cfg).unwrap();
    let expected = Module {
        items: app(
            l3(
                react_namespace_import(),
                ModuleItem::Import(ImportDecl {
                    src: t("react"),
                    specifiers: l2(
                        ImportSpecifier::Named { local: t("forwardRef"), type_only: false },
                        ImportSpecifier::Named { local: t("memo"), type_only: false },
                    ),
                    trailing_comment: None,
                }),
                ModuleItem::Component(ComponentDecl {
                    name: t("SvgComponent"),
                    params: l2(
                        Pat::Ident { name: t("props"), ty: None },
                        Pat::Ident { name: t("ref"), ty: None },
                    ),
                    body: bare_svg(),
                }),
            ),
            l3(
                ModuleItem::ConstWrap {
                    name: t("ForwardRef"),
                    callee: t("forwardRef"),
                    arg: t("SvgComponent"),
                },
                ModuleItem::ConstWrap { name: t("Memo"), callee: t("memo"), arg: t("ForwardRef") },
                ModuleItem::DefaultExport(t("Memo")),
            ),
        ),
    };
    assert_eq!(out, expected);
}

#[test]
fn typescript_title_prop_synthesizes_interface_and_typed_pattern() {
    let mut cfg = base_config();
    cfg.typescript = true;
    cfg.title_prop = true;
    let out = transform_module(svg_module(), &cfg).unwrap();
    let svg_props = TsTypeRef { name: t("SVGProps"), args: l1(t("SVGSVGElement")) };
    let svgr_props = TsTypeRef { name: t("SVGRProps"), args: nil() };
    let expected = Module {
        items: app(
            l2(
                react_namespace_import(),
                ModuleItem::Import(ImportDecl {
                    src: t("react"),
                    specifiers: l1(ImportSpecifier::Named { local: t("SVGProps"), type_only: true }),
                    trailing_comment: None,
                }),
            ),
            l3(
                ModuleItem::Interface(TsInterface {
                    name: t("SVGRProps"),
                    fields: l2(t("title"), t("titleId")),
                }),
                ModuleItem::Component(ComponentDecl {
                    name: t("SvgComponent"),
                    params: l1(Pat::Object {
                        props: l3(
                            PatProp::Assign(t("title")),
                            PatProp::Assign(t("titleId")),
                            PatProp::Rest(t("props")),
                        ),
                        ty: Some(TsType::Intersection(svg_props, svgr_props)),
                    }),
                    body: bare_svg(),
                }),
                ModuleItem::DefaultExport(t("SvgComponent")),
            ),
        ),
    };
    assert_eq!(out, expected);
}

#[test]
fn module_without_svg_gets_imports_and_exports_only() {
    let m = Module { items: nil() };
    let out = transform_module(m, &base_config()).unwrap();
    let expected = Module {
        items: l2(react_namespace_import(), ModuleItem::DefaultExport(t("SvgComponent"))),
    };
    assert_eq!(out, expected);
}

#[test]
fn visitor_wraps_its_configuration() {
    let visitor = TransformSVGComponentVisitor::new(base_config());
    let out = visitor.visit_module(svg_module()).unwrap();
    assert_eq!(out, transform_module(svg_module(), &base_config()).unwrap());
}

#[test]
fn pipeline_wraps_and_normalizes_last() {
    let m = Module {
        items: l1(ModuleItem::JsxStmt(JsxElement {
            name: t("svg"),
            attrs: l1(AttrItem::Attr(Attr {
                name: AttrName::Plain(t("stroke-width")),
                value: Some(AttrValue::Str(t("2"))),
            })),
            children: nil(),
            self_closing: true,
        })),
    };
    let options = PipelineOptions {
        transform_svg_component: Some(base_config()),
        em_dimensions: None,
        remove_jsx_attribute: None,
        add_jsx_attribute: None,
        replace_attribute_values: None,
        title_prop: false,
        desc_prop: false,
        native: false,
    };
    let out = run_pipeline(m, options).unwrap();
    let expected = Module {
        items: l3(
            react_namespace_import(),
            ModuleItem::Component(ComponentDecl {
                name: t("SvgComponent"),
                params: l1(Pat::Ident { name: t("props"), ty: None }),
                body: JsxElement {
                    name: t("svg"),
                    attrs: l1(AttrItem::Attr(Attr {
                        name: AttrName::Plain(t("strokeWidth")),
                        value: Some(AttrValue::Str(t("2"))),
                    })),
                    children: nil(),
                    self_closing: true,
                },
            }),
            ModuleItem::DefaultExport(t("SvgComponent")),
        ),
    };
    assert_eq!(out, expected);
}

#[test]
fn pipeline_end_to_end_with_title_and_dimensions() {
    let m = Module {
        items: l1(ModuleItem::JsxStmt(JsxElement {
            name: t("svg"),
            attrs: l2(
                attr_item(Attr { name: AttrName::Plain(t("class")), value: Some(AttrValue::Str(t("icon"))) }),
                attr_item(Attr { name: AttrName::Plain(t("width")), value: Some(AttrValue::Str(t("100"))) }),
            ),
            children: nil(),
            self_closing: true,
        })),
    };
    let mut cfg = base_config();
    cfg.title_prop = true;
    let options = PipelineOptions {
        transform_svg_component: Some(cfg),
        em_dimensions: Some(svgr_core::svg_em_dimensions::Options { width: None, height: None }),
        remove_jsx_attribute: None,
        add_jsx_attribute: None,
        replace_attribute_values: None,
        title_prop: true,
        desc_prop: false,
        native: false,
    };
    let out = run_pipeline(m, options).unwrap();

    let title_container = JsxChild::Container(svgr_core::tree::JsExpr::Cond(
        Box::new(svgr_core::tree::JsExpr::Ident(t("title"))),
        Box::new(svgr_core::tree::JsExpr::Element(Box::new(JsxElement {
            name: t("title"),
            attrs: l1(
                attr_item(Attr {
                    name: AttrName::Plain(t("id")),
                    value: Some(AttrValue::Expr(svgr_core::tree::JsExpr::Ident(t("titleId")))),
                }),
            ),
            children: l1(JsxChild::Container(svgr_core::tree::JsExpr::Ident(t("title")))),
            self_closing: false,
        }))),
        Box::new(svgr_core::tree::JsExpr::Lit(svgr_core::tree::JsLit::Null)),
    ));
    let expected_body = JsxElement {
        name: t("svg"),
        attrs: l3(
            attr_item(Attr { name: AttrName::Plain(t("className")), value: Some(AttrValue::Str(t("icon"))) }),
            attr_item(Attr { name: AttrName::Plain(t("width")), value: Some(AttrValue::Str(t("1em"))) }),
            attr_item(Attr { name: AttrName::Plain(t("height")), value: Some(AttrValue::Str(t("1em"))) }),
        ),
        children: l1(title_container),
        self_closing: true,
    };
    let expected = Module {
        items: l3(
            react_namespace_import(),
            ModuleItem::Component(ComponentDecl {
                name: t("SvgComponent"),
                params: l1(Pat::Object {
                    props: l3(
                        PatProp::Assign(t("title")),
                        PatProp::Assign(t("titleId")),
                        PatProp::Rest(t("props")),
                    ),
                    ty: None,
                }),
                body: expected_body,
            }),
            ModuleItem::DefaultExport(t("SvgComponent")),
        ),
    };
    assert_eq!(out, expected);
}

fn app<T>(a: List<T>, b: List<T>) -> List<T> {
    match a {
        List::Nil => b,
        List::Cons(x, rest) => List::Cons(x, Box::new(app(*rest, b))),
    }
}

fn attr_item(a: Attr) -> AttrItem {
    AttrItem::Attr(a)
}
