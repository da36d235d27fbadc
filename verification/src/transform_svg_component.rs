//! The component synthesizer: finds the rewritten `svg`/`Svg` element in
//! the module, and replaces the module's items with the derived imports,
//! the synthesized interfaces and component declaration, and the export
//! statements, all determined by the configuration alone.

use vstd::prelude::*;

use crate::config::{Config, ConfigError, ExpandProps, ExportType, JSXRuntime, JSXRuntimeImport};
use crate::list::List;
use crate::module::{
    ComponentDecl, ImportDecl, ImportSpecifier, Module, ModuleItem, Pat, PatProp, TsInterface,
    TsType, TsTypeRef,
};
use crate::text::{eq_text, list_of, text, Text};
use crate::tree::{copy_element, AttrItem, AttrValue, JsExpr, JsxChild, JsxElement};

verus! {

/// The visitor owning the configuration of one run.
#[derive(Debug, PartialEq, Eq)]
pub struct TransformSVGComponentVisitor {
    pub config: Config,
}

impl TransformSVGComponentVisitor {
    /// Builds the synthesizer from its configuration.
    pub fn new(config: Config) -> (r: TransformSVGComponentVisitor)
        ensures
            r == (TransformSVGComponentVisitor { config }),
    {
        TransformSVGComponentVisitor { config }
    }

    /// Runs the synthesizer on a module.
    pub fn visit_module(&self, m: Module) -> (r: Result<Module, ConfigError>)
        ensures
            r == spec_transform_module(m, self.config),
    {
        transform_module(m, &self.config)
    }
}

/// True for the two tags the synthesizer wraps.
pub open spec fn spec_is_svg_tag(t: Text) -> bool {
    t == list_of("svg"@) || t == list_of("Svg"@)
}

/// The element the component body will return: the last `svg`/`Svg`
/// element in traversal order, the element itself taking precedence
/// over anything nested below it.
pub open spec fn spec_find_svg_elem(e: JsxElement) -> Option<JsxElement>
    decreases e,
{
    if spec_is_svg_tag(e.name) {
        Some(e)
    } else {
        match spec_find_svg_children(e.children) {
            Some(x) => Some(x),
            None => spec_find_svg_items(e.attrs),
        }
    }
}

pub open spec fn spec_find_svg_items(l: List<AttrItem>) -> Option<JsxElement>
    decreases l,
{
    match l {
        List::Nil => None,
        List::Cons(item, rest) => match spec_find_svg_items(*rest) {
            Some(x) => Some(x),
            None => spec_find_svg_item(item),
        },
    }
}

pub open spec fn spec_find_svg_item(item: AttrItem) -> Option<JsxElement>
    decreases item,
{
    match item {
        AttrItem::Attr(a) => match a.value {
            Some(AttrValue::Expr(x)) => spec_find_svg_expr(x),
            _ => None,
        },
        AttrItem::Spread(x) => spec_find_svg_expr(x),
    }
}

pub open spec fn spec_find_svg_expr(x: JsExpr) -> Option<JsxElement>
    decreases x,
{
    match x {
        JsExpr::Cond(t, c, a) => match spec_find_svg_expr(*a) {
            Some(r) => Some(r),
            None => match spec_find_svg_expr(*c) {
                Some(r) => Some(r),
                None => spec_find_svg_expr(*t),
            },
        },
        JsExpr::StrictEq(l, r) => match spec_find_svg_expr(*r) {
            Some(x2) => Some(x2),
            None => spec_find_svg_expr(*l),
        },
        JsExpr::Or(l, r) => match spec_find_svg_expr(*r) {
            Some(x2) => Some(x2),
            None => spec_find_svg_expr(*l),
        },
        JsExpr::Element(e) => spec_find_svg_elem(*e),
        _ => None,
    }
}

pub open spec fn spec_find_svg_children(l: List<JsxChild>) -> Option<JsxElement>
    decreases l,
{
    match l {
        List::Nil => None,
        List::Cons(c, rest) => match spec_find_svg_children(*rest) {
            Some(x) => Some(x),
            None => spec_find_svg_child(c),
        },
    }
}

pub open spec fn spec_find_svg_child(c: JsxChild) -> Option<JsxElement>
    decreases c,
{
    match c {
        JsxChild::Element(e) => spec_find_svg_elem(*e),
        JsxChild::Container(x) => spec_find_svg_expr(x),
        JsxChild::Text(_) => None,
    }
}

/// The search over the module's markup statements and component bodies.
pub open spec fn spec_find_svg_module(l: List<ModuleItem>) -> Option<JsxElement>
    decreases l,
{
    match l {
        List::Nil => None,
        List::Cons(item, rest) => match spec_find_svg_module(*rest) {
            Some(x) => Some(x),
            None => match item {
                ModuleItem::JsxStmt(e) => spec_find_svg_elem(e),
                ModuleItem::Component(c) => spec_find_svg_elem(c.body),
                _ => None,
            },
        },
    }
}

/// The specifiers of a configured base import: a namespace wins over a
/// default specifier, which wins over named specifiers; none at all is
/// a fatal configuration error.
pub open spec fn spec_named_specs(l: List<Text>) -> List<ImportSpecifier>
    decreases l,
{
    match l {
        List::Nil => List::Nil,
        List::Cons(n, rest) => List::Cons(
            ImportSpecifier::Named { local: n, type_only: false },
            Box::new(spec_named_specs(*rest)),
        ),
    }
}

pub open spec fn spec_get_jsx_runtime_import(c: JSXRuntimeImport) -> Result<
    ImportDecl,
    ConfigError,
> {
    match c.namespace {
        Some(ns) => Ok(
            ImportDecl {
                src: c.source,
                specifiers: List::Cons(ImportSpecifier::Namespace(ns), Box::new(List::Nil)),
                trailing_comment: None,
            },
        ),
        None => match c.default_specifier {
            Some(ds) => Ok(
                ImportDecl {
                    src: c.source,
                    specifiers: List::Cons(ImportSpecifier::Default(ds), Box::new(List::Nil)),
                    trailing_comment: None,
                },
            ),
            None => match c.specifiers {
                Some(names) => Ok(
                    ImportDecl {
                        src: c.source,
                        specifiers: spec_named_specs(names),
                        trailing_comment: None,
                    },
                ),
                None => Err(ConfigError::JsxRuntimeImportUnspecified),
            },
        },
    }
}

pub open spec fn spec_has_namespace(l: List<ImportSpecifier>) -> bool
    decreases l,
{
    match l {
        List::Nil => false,
        List::Cons(s, rest) => (s is Namespace) || spec_has_namespace(*rest),
    }
}

/// Adds one specifier to the first import from `source` that is not
/// namespace-shaped, appending a fresh declaration when none exists.
pub open spec fn spec_upsert_import(
    imports: List<ImportDecl>,
    source: Text,
    s: ImportSpecifier,
) -> List<ImportDecl>
    decreases imports,
{
    match imports {
        List::Nil => List::Cons(
            ImportDecl {
                src: source,
                specifiers: List::Cons(s, Box::new(List::Nil)),
                trailing_comment: None,
            },
            Box::new(List::Nil),
        ),
        List::Cons(d, rest) => if d.src == source && !spec_has_namespace(d.specifiers) {
            List::Cons(
                ImportDecl {
                    src: d.src,
                    specifiers: d.specifiers.push_back(s),
                    trailing_comment: d.trailing_comment,
                },
                rest,
            )
        } else {
            List::Cons(d, Box::new(spec_upsert_import(*rest, source, s)))
        },
    }
}

/// The derived import list, in the order the original emits it.
pub open spec fn spec_create_imports(cfg: Config) -> Result<List<ImportDecl>, ConfigError> {
    let base = match cfg.jsx_runtime {
        Some(JSXRuntime::Automatic) => Ok(List::<ImportDecl>::Nil),
        _ => match spec_get_jsx_runtime_import(cfg.jsx_runtime_import) {
            Ok(d) => Ok(List::Cons(d, Box::new(List::Nil))),
            Err(e) => Err(e),
        },
    };
    match base {
        Err(e) => Err(e),
        Ok(imports0) => {
            let i1 = if cfg.native {
                spec_upsert_import(
                    imports0,
                    list_of("react-native-svg"@),
                    ImportSpecifier::Default(list_of("Svg"@)),
                )
            } else {
                imports0
            };
            let i2 = if !(cfg.expand_props == ExpandProps::Boolean(false)) && cfg.typescript {
                if cfg.native {
                    spec_upsert_import(
                        i1,
                        list_of("react-native-svg"@),
                        ImportSpecifier::Named { local: list_of("SvgProps"@), type_only: true },
                    )
                } else {
                    spec_upsert_import(
                        i1,
                        cfg.import_source,
                        ImportSpecifier::Named { local: list_of("SVGProps"@), type_only: true },
                    )
                }
            } else {
                i1
            };
            let i3 = if cfg.forward_ref {
                let a = if cfg.typescript {
                    spec_upsert_import(
                        i2,
                        cfg.import_source,
                        ImportSpecifier::Named { local: list_of("Ref"@), type_only: true },
                    )
                } else {
                    i2
                };
                spec_upsert_import(
                    a,
                    cfg.import_source,
                    ImportSpecifier::Named { local: list_of("forwardRef"@), type_only: false },
                )
            } else {
                i2
            };
            let i4 = if cfg.memo {
                spec_upsert_import(
                    i3,
                    cfg.import_source,
                    ImportSpecifier::Named { local: list_of("memo"@), type_only: false },
                )
            } else {
                i3
            };
            Ok(i4)
        }
    }
}

/// The framework's own prop type for the root element.
pub open spec fn spec_type_ref_svg_props(native: bool) -> TsTypeRef {
    if native {
        TsTypeRef { name: list_of("SvgProps"@), args: List::Nil }
    } else {
        TsTypeRef {
            name: list_of("SVGProps"@),
            args: List::Cons(list_of("SVGSVGElement"@), Box::new(List::Nil)),
        }
    }
}

/// The synthesized accessibility prop type.
pub open spec fn spec_type_ref_svgr_props() -> TsTypeRef {
    TsTypeRef { name: list_of("SVGRProps"@), args: List::Nil }
}

/// The synthesized parameter patterns and interface declarations.
pub open spec fn spec_create_component_props(cfg: Config) -> (List<Pat>, List<TsInterface>) {
    let desc_props: List<PatProp> = if cfg.desc_prop {
        List::Cons(
            PatProp::Assign(list_of("desc"@)),
            Box::new(List::Cons(PatProp::Assign(list_of("descId"@)), Box::new(List::Nil))),
        )
    } else {
        List::Nil
    };
    let properties: List<PatProp> = if cfg.title_prop {
        List::Cons(
            PatProp::Assign(list_of("title"@)),
            Box::new(List::Cons(PatProp::Assign(list_of("titleId"@)), Box::new(desc_props))),
        )
    } else {
        desc_props
    };
    let desc_sigs: List<Text> = if cfg.desc_prop && cfg.typescript {
        List::Cons(list_of("desc"@), Box::new(List::Cons(list_of("descId"@), Box::new(List::Nil))))
    } else {
        List::Nil
    };
    let signatures: List<Text> = if cfg.title_prop && cfg.typescript {
        List::Cons(list_of("title"@), Box::new(List::Cons(list_of("titleId"@), Box::new(desc_sigs))))
    } else {
        desc_sigs
    };
    let has_block = cfg.title_prop || cfg.desc_prop;
    let interfaces: List<TsInterface> = if has_block && cfg.typescript {
        List::Cons(
            TsInterface { name: list_of("SVGRProps"@), fields: signatures },
            Box::new(List::Nil),
        )
    } else {
        List::Nil
    };
    let expand = !(cfg.expand_props == ExpandProps::Boolean(false));
    let props1: List<Pat> = if has_block {
        if expand {
            List::Cons(
                Pat::Object {
                    props: properties.push_back(PatProp::Rest(list_of("props"@))),
                    ty: if cfg.typescript {
                        Some(
                            TsType::Intersection(
                                spec_type_ref_svg_props(cfg.native),
                                spec_type_ref_svgr_props(),
                            ),
                        )
                    } else {
                        None
                    },
                },
                Box::new(List::Nil),
            )
        } else {
            List::Cons(
                Pat::Object {
                    props: properties,
                    ty: if cfg.typescript {
                        Some(TsType::Ref(spec_type_ref_svgr_props()))
                    } else {
                        None
                    },
                },
                Box::new(List::Nil),
            )
        }
    } else {
        if expand {
            List::Cons(
                Pat::Ident {
                    name: list_of("props"@),
                    ty: if cfg.typescript {
                        Some(TsType::Ref(spec_type_ref_svg_props(cfg.native)))
                    } else {
                        None
                    },
                },
                Box::new(List::Nil),
            )
        } else {
            List::Nil
        }
    };
    let props2: List<Pat> = if cfg.forward_ref {
        let base = if props1 == List::<Pat>::Nil {
            List::Cons(Pat::Ident { name: list_of("_"@), ty: None }, Box::new(List::Nil))
        } else {
            props1
        };
        base.push_back(
            Pat::Ident {
                name: list_of("ref"@),
                ty: if cfg.typescript {
                    Some(
                        TsType::Ref(
                            TsTypeRef {
                                name: list_of("Ref"@),
                                args: List::Cons(list_of("SVGSVGElement"@), Box::new(List::Nil)),
                            },
                        ),
                    )
                } else {
                    None
                },
            },
        )
    } else {
        props1
    };
    (props2, interfaces)
}

/// The interface declarations as module items.
pub open spec fn spec_interface_items(l: List<TsInterface>) -> List<ModuleItem>
    decreases l,
{
    match l {
        List::Nil => List::Nil,
        List::Cons(i, rest) => List::Cons(
            ModuleItem::Interface(i),
            Box::new(spec_interface_items(*rest)),
        ),
    }
}

/// The component body: the interfaces, then the component declaration
/// wrapping the found element; nothing when the module holds no
/// `svg`/`Svg` element.
pub open spec fn spec_create_component_body(svg: Option<JsxElement>, cfg: Config) -> Option<
    List<ModuleItem>,
> {
    match svg {
        None => None,
        Some(el) => {
            let (props, interfaces) = spec_create_component_props(cfg);
            Some(
                spec_interface_items(interfaces).push_back(
                    ModuleItem::Component(
                        ComponentDecl {
                            name: cfg.state.component_name,
                            params: props,
                            body: el,
                        },
                    ),
                ),
            )
        }
    }
}

/// The export statements: the optional `forwardRef` and `memo` wrappers,
/// then either a named re-export (demanded by a named export shape or a
/// previous-export fragment, and fatal without an export name) followed
/// by the fragment, or a single default export.
pub open spec fn spec_create_exports(cfg: Config) -> Result<List<ModuleItem>, ConfigError> {
    let ident0 = cfg.state.component_name;
    let ident1 = if cfg.forward_ref {
        list_of("ForwardRef"@)
    } else {
        ident0
    };
    let ident2 = if cfg.memo {
        list_of("Memo"@)
    } else {
        ident1
    };
    let wrap_memo: List<ModuleItem> = if cfg.memo {
        List::Cons(
            ModuleItem::ConstWrap {
                name: list_of("Memo"@),
                callee: list_of("memo"@),
                arg: ident1,
            },
            Box::new(List::Nil),
        )
    } else {
        List::Nil
    };
    let wraps: List<ModuleItem> = if cfg.forward_ref {
        List::Cons(
            ModuleItem::ConstWrap {
                name: list_of("ForwardRef"@),
                callee: list_of("forwardRef"@),
                arg: ident0,
            },
            Box::new(wrap_memo),
        )
    } else {
        wrap_memo
    };
    let has_previous = !(cfg.state.caller.previous_export == List::<char>::Nil);
    if cfg.export_type == ExportType::Named || has_previous {
        if cfg.named_export == List::<char>::Nil {
            Err(ConfigError::NamedExportEmpty)
        } else {
            let e1 = wraps.push_back(
                ModuleItem::NamedExport { orig: ident2, exported: cfg.named_export },
            );
            Ok(
                if has_previous {
                    e1.push_back(ModuleItem::Verbatim(cfg.state.caller.previous_export))
                } else {
                    e1
                },
            )
        }
    } else {
        Ok(wraps.push_back(ModuleItem::DefaultExport(ident2)))
    }
}

/// The import declarations as module items.
pub open spec fn spec_import_items(l: List<ImportDecl>) -> List<ModuleItem>
    decreases l,
{
    match l {
        List::Nil => List::Nil,
        List::Cons(d, rest) => List::Cons(
            ModuleItem::Import(d),
            Box::new(spec_import_items(*rest)),
        ),
    }
}

/// The whole synthesizer: the module's items are replaced by the
/// imports, the component body when an `svg`/`Svg` element was found,
/// and the exports.
pub open spec fn spec_transform_module(m: Module, cfg: Config) -> Result<Module, ConfigError> {
    match spec_create_imports(cfg) {
        Err(e) => Err(e),
        Ok(imports) => match spec_create_exports(cfg) {
            Err(e) => Err(e),
            Ok(exports) => {
                let svg = spec_find_svg_module(m.items);
                let body = match spec_create_component_body(svg, cfg) {
                    Some(b) => b,
                    None => List::Nil,
                };
                Ok(Module { items: spec_import_items(imports).append(body.append(exports)) })
            }
        },
    }
}

fn find_svg_elem(e: &JsxElement) -> (r: Option<JsxElement>)
    ensures
        r == spec_find_svg_elem(*e),
    decreases *e,
{
    let is_svg = eq_text(&e.name, &text("svg")) || eq_text(&e.name, &text("Svg"));
    if is_svg {
        Some(copy_element(e))
    } else {
        match find_svg_children(&e.children) {
            Some(x) => Some(x),
            None => find_svg_items(&e.attrs),
        }
    }
}

fn find_svg_items(l: &List<AttrItem>) -> (r: Option<JsxElement>)
    ensures
        r == spec_find_svg_items(*l),
    decreases *l,
{
    match l {
        List::Nil => None,
        List::Cons(item, rest) => match find_svg_items(rest) {
            Some(x) => Some(x),
            None => find_svg_item(item),
        },
    }
}

fn find_svg_item(item: &AttrItem) -> (r: Option<JsxElement>)
    ensures
        r == spec_find_svg_item(*item),
    decreases *item,
{
    match item {
        AttrItem::Attr(a) => match &a.value {
            Some(AttrValue::Expr(x)) => find_svg_expr(x),
            _ => None,
        },
        AttrItem::Spread(x) => find_svg_expr(x),
    }
}

fn find_svg_expr(x: &JsExpr) -> (r: Option<JsxElement>)
    ensures
        r == spec_find_svg_expr(*x),
    decreases *x,
{
    match x {
        JsExpr::Cond(t, c, a) => match find_svg_expr(a) {
            Some(r2) => Some(r2),
            None => match find_svg_expr(c) {
                Some(r2) => Some(r2),
                None => find_svg_expr(t),
            },
        },
        JsExpr::StrictEq(l, r2) => match find_svg_expr(r2) {
            Some(x2) => Some(x2),
            None => find_svg_expr(l),
        },
        JsExpr::Or(l, r2) => match find_svg_expr(r2) {
            Some(x2) => Some(x2),
            None => find_svg_expr(l),
        },
        JsExpr::Element(e) => find_svg_elem(e),
        _ => None,
    }
}

fn find_svg_children(l: &List<JsxChild>) -> (r: Option<JsxElement>)
    ensures
        r == spec_find_svg_children(*l),
    decreases *l,
{
    match l {
        List::Nil => None,
        List::Cons(c, rest) => match find_svg_children(rest) {
            Some(x) => Some(x),
            None => find_svg_child(c),
        },
    }
}

fn find_svg_child(c: &JsxChild) -> (r: Option<JsxElement>)
    ensures
        r == spec_find_svg_child(*c),
    decreases *c,
{
    match c {
        JsxChild::Element(e) => find_svg_elem(e),
        JsxChild::Container(x) => find_svg_expr(x),
        JsxChild::Text(_) => None,
    }
}

/// Finds the element the component body will return.
pub fn find_svg_module(l: &List<ModuleItem>) -> (r: Option<JsxElement>)
    ensures
        r == spec_find_svg_module(*l),
    decreases *l,
{
    match l {
        List::Nil => None,
        List::Cons(item, rest) => match find_svg_module(rest) {
            Some(x) => Some(x),
            None => match item {
                ModuleItem::JsxStmt(e) => find_svg_elem(e),
                ModuleItem::Component(c) => find_svg_elem(&c.body),
                _ => None,
            },
        },
    }
}

fn named_specs(l: List<Text>) -> (r: List<ImportSpecifier>)
    ensures
        r == spec_named_specs(l),
    decreases l,
{
    match l {
        List::Nil => List::Nil,
        List::Cons(n, rest) => List::Cons(
            ImportSpecifier::Named { local: n, type_only: false },
            Box::new(named_specs(*rest)),
        ),
    }
}

/// Builds the configured base import.
pub fn get_jsx_runtime_import(c: JSXRuntimeImport) -> (r: Result<ImportDecl, ConfigError>)
    ensures
        r == spec_get_jsx_runtime_import(c),
{
    let JSXRuntimeImport { source, namespace, default_specifier, specifiers } = c;
    match namespace {
        Some(ns) => Ok(
            ImportDecl {
                src: source,
                specifiers: List::Cons(ImportSpecifier::Namespace(ns), Box::new(List::Nil)),
                trailing_comment: None,
            },
        ),
        None => match default_specifier {
            Some(ds) => Ok(
                ImportDecl {
                    src: source,
                    specifiers: List::Cons(ImportSpecifier::Default(ds), Box::new(List::Nil)),
                    trailing_comment: None,
                },
            ),
            None => match specifiers {
                Some(names) => Ok(
                    ImportDecl {
                        src: source,
                        specifiers: named_specs(names),
                        trailing_comment: None,
                    },
                ),
                None => Err(ConfigError::JsxRuntimeImportUnspecified),
            },
        },
    }
}

fn has_namespace(l: &List<ImportSpecifier>) -> (r: bool)
    ensures
        r == spec_has_namespace(*l),
    decreases *l,
{
    match l {
        List::Nil => false,
        List::Cons(s, rest) => {
            let here = match s {
                ImportSpecifier::Namespace(_) => true,
                _ => false,
            };
            if here {
                true
            } else {
                has_namespace(rest)
            }
        }
    }
}

fn push_back_spec(l: List<ImportSpecifier>, s: ImportSpecifier) -> (r: List<ImportSpecifier>)
    ensures
        r == l.push_back(s),
    decreases l,
{
    match l {
        List::Nil => List::Cons(s, Box::new(List::Nil)),
        List::Cons(x, rest) => List::Cons(x, Box::new(push_back_spec(*rest, s))),
    }
}

/// Adds one specifier to the import from `source`, creating it if need be.
pub fn get_or_create_import(
    imports: List<ImportDecl>,
    source: &Text,
    s: ImportSpecifier,
) -> (r: List<ImportDecl>)
    ensures
        r == spec_upsert_import(imports, *source, s),
    decreases imports,
{
    match imports {
        List::Nil => List::Cons(
            ImportDecl {
                src: crate::tree::copy_text(source),
                specifiers: List::Cons(s, Box::new(List::Nil)),
                trailing_comment: None,
            },
            Box::new(List::Nil),
        ),
        List::Cons(d, rest) => {
            if eq_text(&d.src, source) && !has_namespace(&d.specifiers) {
                let ImportDecl { src, specifiers, trailing_comment } = d;
                List::Cons(
                    ImportDecl { src, specifiers: push_back_spec(specifiers, s), trailing_comment },
                    rest,
                )
            } else {
                List::Cons(d, Box::new(get_or_create_import(*rest, source, s)))
            }
        }
    }
}

/// Derives the import list from the configuration.
pub fn create_imports(cfg: &Config) -> (r: Result<List<ImportDecl>, ConfigError>)
    ensures
        r == spec_create_imports(*cfg),
{
    let base: Result<List<ImportDecl>, ConfigError> = match &cfg.jsx_runtime {
        Some(JSXRuntime::Automatic) => Ok(List::Nil),
        _ => {
            let rt = JSXRuntimeImport {
                source: crate::tree::copy_text(&cfg.jsx_runtime_import.source),
                namespace: match &cfg.jsx_runtime_import.namespace {
                    Some(t) => Some(crate::tree::copy_text(t)),
                    None => None,
                },
                default_specifier: match &cfg.jsx_runtime_import.default_specifier {
                    Some(t) => Some(crate::tree::copy_text(t)),
                    None => None,
                },
                specifiers: match &cfg.jsx_runtime_import.specifiers {
                    Some(l) => Some(copy_texts(l)),
                    None => None,
                },
            };
            proof {
                assert(rt == cfg.jsx_runtime_import);
            }
            match get_jsx_runtime_import(rt) {
                Ok(d) => Ok(List::Cons(d, Box::new(List::Nil))),
                Err(e) => Err(e),
            }
        }
    };
    match base {
        Err(e) => Err(e),
        Ok(imports0) => {
            let i1 = if cfg.native {
                get_or_create_import(
                    imports0,
                    &text("react-native-svg"),
                    ImportSpecifier::Default(text("Svg")),
                )
            } else {
                imports0
            };
            let expand = match cfg.expand_props {
                ExpandProps::Boolean(false) => false,
                _ => true,
            };
            let i2 = if expand && cfg.typescript {
                if cfg.native {
                    get_or_create_import(
                        i1,
                        &text("react-native-svg"),
                        ImportSpecifier::Named { local: text("SvgProps"), type_only: true },
                    )
                } else {
                    get_or_create_import(
                        i1,
                        &cfg.import_source,
                        ImportSpecifier::Named { local: text("SVGProps"), type_only: true },
                    )
                }
            } else {
                i1
            };
            let i3 = if cfg.forward_ref {
                let a = if cfg.typescript {
                    get_or_create_import(
                        i2,
                        &cfg.import_source,
                        ImportSpecifier::Named { local: text("Ref"), type_only: true },
                    )
                } else {
                    i2
                };
                get_or_create_import(
                    a,
                    &cfg.import_source,
                    ImportSpecifier::Named { local: text("forwardRef"), type_only: false },
                )
            } else {
                i2
            };
            let i4 = if cfg.memo {
                get_or_create_import(
                    i3,
                    &cfg.import_source,
                    ImportSpecifier::Named { local: text("memo"), type_only: false },
                )
            } else {
                i3
            };
            Ok(i4)
        }
    }
}

fn copy_texts(l: &List<Text>) -> (r: List<Text>)
    ensures
        r == *l,
    decreases *l,
{
    match l {
        List::Nil => List::Nil,
        List::Cons(t, rest) => List::Cons(crate::tree::copy_text(t), Box::new(copy_texts(rest))),
    }
}

fn create_type_ref_svg_props(native: bool) -> (r: TsTypeRef)
    ensures
        r == spec_type_ref_svg_props(native),
{
    if native {
        TsTypeRef { name: text("SvgProps"), args: List::Nil }
    } else {
        TsTypeRef {
            name: text("SVGProps"),
            args: List::Cons(text("SVGSVGElement"), Box::new(List::Nil)),
        }
    }
}

fn create_type_ref_svgr_props() -> (r: TsTypeRef)
    ensures
        r == spec_type_ref_svgr_props(),
{
    TsTypeRef { name: text("SVGRProps"), args: List::Nil }
}

fn push_back_patprop(l: List<PatProp>, p: PatProp) -> (r: List<PatProp>)
    ensures
        r == l.push_back(p),
    decreases l,
{
    match l {
        List::Nil => List::Cons(p, Box::new(List::Nil)),
        List::Cons(x, rest) => List::Cons(x, Box::new(push_back_patprop(*rest, p))),
    }
}

fn push_back_pat(l: List<Pat>, p: Pat) -> (r: List<Pat>)
    ensures
        r == l.push_back(p),
    decreases l,
{
    match l {
        List::Nil => List::Cons(p, Box::new(List::Nil)),
        List::Cons(x, rest) => List::Cons(x, Box::new(push_back_pat(*rest, p))),
    }
}

/// Synthesizes the parameter patterns and interface declarations.
pub fn create_component_props(cfg: &Config) -> (r: (List<Pat>, List<TsInterface>))
    ensures
        r == spec_create_component_props(*cfg),
{
    let desc_props: List<PatProp> = if cfg.desc_prop {
        List::Cons(
            PatProp::Assign(text("desc")),
            Box::new(List::Cons(PatProp::Assign(text("descId")), Box::new(List::Nil))),
        )
    } else {
        List::Nil
    };
    let properties: List<PatProp> = if cfg.title_prop {
        List::Cons(
            PatProp::Assign(text("title")),
            Box::new(List::Cons(PatProp::Assign(text("titleId")), Box::new(desc_props))),
        )
    } else {
        desc_props
    };
    let desc_sigs: List<Text> = if cfg.desc_prop && cfg.typescript {
        List::Cons(text("desc"), Box::new(List::Cons(text("descId"), Box::new(List::Nil))))
    } else {
        List::Nil
    };
    let signatures: List<Text> = if cfg.title_prop && cfg.typescript {
        List::Cons(text("title"), Box::new(List::Cons(text("titleId"), Box::new(desc_sigs))))
    } else {
        desc_sigs
    };
    let has_block = cfg.title_prop || cfg.desc_prop;
    let interfaces: List<TsInterface> = if has_block && cfg.typescript {
        List::Cons(TsInterface { name: text("SVGRProps"), fields: signatures }, Box::new(List::Nil))
    } else {
        List::Nil
    };
    let expand = match cfg.expand_props {
        ExpandProps::Boolean(false) => false,
        _ => true,
    };
    let props1: List<Pat> = if has_block {
        if expand {
            List::Cons(
                Pat::Object {
                    props: push_back_patprop(properties, PatProp::Rest(text("props"))),
                    ty: if cfg.typescript {
                        Some(
                            TsType::Intersection(
                                create_type_ref_svg_props(cfg.native),
                                create_type_ref_svgr_props(),
                            ),
                        )
                    } else {
                        None
                    },
                },
                Box::new(List::Nil),
            )
        } else {
            List::Cons(
                Pat::Object {
                    props: properties,
                    ty: if cfg.typescript {
                        Some(TsType::Ref(create_type_ref_svgr_props()))
                    } else {
                        None
                    },
                },
                Box::new(List::Nil),
            )
        }
    } else {
        if expand {
            List::Cons(
                Pat::Ident {
                    name: text("props"),
                    ty: if cfg.typescript {
                        Some(TsType::Ref(create_type_ref_svg_props(cfg.native)))
                    } else {
                        None
                    },
                },
                Box::new(List::Nil),
            )
        } else {
            List::Nil
        }
    };
    let props2: List<Pat> = if cfg.forward_ref {
        let base = match &props1 {
            List::Nil => List::Cons(Pat::Ident { name: text("_"), ty: None }, Box::new(List::Nil)),
            List::Cons(_, _) => props1,
        };
        push_back_pat(
            base,
            Pat::Ident {
                name: text("ref"),
                ty: if cfg.typescript {
                    Some(
                        TsType::Ref(
                            TsTypeRef {
                                name: text("Ref"),
                                args: List::Cons(text("SVGSVGElement"), Box::new(List::Nil)),
                            },
                        ),
                    )
                } else {
                    None
                },
            },
        )
    } else {
        props1
    };
    (props2, interfaces)
}

fn interface_items(l: List<TsInterface>) -> (r: List<ModuleItem>)
    ensures
        r == spec_interface_items(l),
    decreases l,
{
    match l {
        List::Nil => List::Nil,
        List::Cons(i, rest) => List::Cons(ModuleItem::Interface(i), Box::new(interface_items(*rest))),
    }
}

fn push_back_item(l: List<ModuleItem>, x: ModuleItem) -> (r: List<ModuleItem>)
    ensures
        r == l.push_back(x),
    decreases l,
{
    match l {
        List::Nil => List::Cons(x, Box::new(List::Nil)),
        List::Cons(y, rest) => List::Cons(y, Box::new(push_back_item(*rest, x))),
    }
}

/// Synthesizes the component body around the found element.
pub fn create_component_body(svg: Option<JsxElement>, cfg: &Config) -> (r: Option<List<ModuleItem>>)
    ensures
        r == spec_create_component_body(svg, *cfg),
{
    match svg {
        None => None,
        Some(el) => {
            let (props, interfaces) = create_component_props(cfg);
            Some(
                push_back_item(
                    interface_items(interfaces),
                    ModuleItem::Component(
                        ComponentDecl {
                            name: crate::tree::copy_text(&cfg.state.component_name),
                            params: props,
                            body: el,
                        },
                    ),
                ),
            )
        }
    }
}

/// Synthesizes the export statements.
pub fn create_exports(cfg: &Config) -> (r: Result<List<ModuleItem>, ConfigError>)
    ensures
        r == spec_create_exports(*cfg),
{
    let ident0 = crate::tree::copy_text(&cfg.state.component_name);
    let ident1 = if cfg.forward_ref {
        text("ForwardRef")
    } else {
        ident0
    };
    let ident2 = if cfg.memo {
        text("Memo")
    } else {
        crate::tree::copy_text(&ident1)
    };
    let wrap_memo: List<ModuleItem> = if cfg.memo {
        List::Cons(
            ModuleItem::ConstWrap { name: text("Memo"), callee: text("memo"), arg: ident1 },
            Box::new(List::Nil),
        )
    } else {
        List::Nil
    };
    let wraps: List<ModuleItem> = if cfg.forward_ref {
        List::Cons(
            ModuleItem::ConstWrap {
                name: text("ForwardRef"),
                callee: text("forwardRef"),
                arg: crate::tree::copy_text(&cfg.state.component_name),
            },
            Box::new(wrap_memo),
        )
    } else {
        wrap_memo
    };
    let has_previous = match &cfg.state.caller.previous_export {
        List::Nil => false,
        List::Cons(_, _) => true,
    };
    let is_named = match cfg.export_type {
        ExportType::Named => true,
        ExportType::Default => false,
    };
    if is_named || has_previous {
        let name_empty = match &cfg.named_export {
            List::Nil => true,
            List::Cons(_, _) => false,
        };
        if name_empty {
            Err(ConfigError::NamedExportEmpty)
        } else {
            let e1 = push_back_item(
                wraps,
                ModuleItem::NamedExport {
                    orig: ident2,
                    exported: crate::tree::copy_text(&cfg.named_export),
                },
            );
            Ok(
                if has_previous {
                    push_back_item(
                        e1,
                        ModuleItem::Verbatim(
                            crate::tree::copy_text(&cfg.state.caller.previous_export),
                        ),
                    )
                } else {
                    e1
                },
            )
        }
    } else {
        Ok(push_back_item(wraps, ModuleItem::DefaultExport(ident2)))
    }
}

fn import_items(l: List<ImportDecl>) -> (r: List<ModuleItem>)
    ensures
        r == spec_import_items(l),
    decreases l,
{
    match l {
        List::Nil => List::Nil,
        List::Cons(d, rest) => List::Cons(ModuleItem::Import(d), Box::new(import_items(*rest))),
    }
}

fn append_items(a: List<ModuleItem>, b: List<ModuleItem>) -> (r: List<ModuleItem>)
    ensures
        r == a.append(b),
    decreases a,
{
    match a {
        List::Nil => b,
        List::Cons(x, rest) => List::Cons(x, Box::new(append_items(*rest, b))),
    }
}

/// The number of named-export statements among the items.
pub open spec fn spec_count_named(l: List<ModuleItem>) -> nat
    decreases l,
{
    match l {
        List::Nil => 0,
        List::Cons(item, rest) => (if item is NamedExport {
            1nat
        } else {
            0nat
        }) + spec_count_named(*rest),
    }
}

/// The number of default-export statements among the items.
pub open spec fn spec_count_default(l: List<ModuleItem>) -> nat
    decreases l,
{
    match l {
        List::Nil => 0,
        List::Cons(item, rest) => (if item is DefaultExport {
            1nat
        } else {
            0nat
        }) + spec_count_default(*rest),
    }
}

proof fn lemma_counts_append(a: List<ModuleItem>, b: List<ModuleItem>)
    ensures
        spec_count_named(a.append(b)) == spec_count_named(a) + spec_count_named(b),
        spec_count_default(a.append(b)) == spec_count_default(a) + spec_count_default(b),
    decreases a,
{
    match a {
        List::Nil => {}
        List::Cons(_, rest) => {
            lemma_counts_append(*rest, b);
        }
    }
}

proof fn lemma_counts_imports(l: List<ImportDecl>)
    ensures
        spec_count_named(spec_import_items(l)) == 0,
        spec_count_default(spec_import_items(l)) == 0,
    decreases l,
{
    match l {
        List::Nil => {}
        List::Cons(_, rest) => {
            lemma_counts_imports(*rest);
        }
    }
}

proof fn lemma_counts_interfaces(l: List<TsInterface>)
    ensures
        spec_count_named(spec_interface_items(l)) == 0,
        spec_count_default(spec_interface_items(l)) == 0,
    decreases l,
{
    match l {
        List::Nil => {}
        List::Cons(_, rest) => {
            lemma_counts_interfaces(*rest);
        }
    }
}

proof fn lemma_counts_body(svg: Option<JsxElement>, cfg: Config)
    ensures
        (match spec_create_component_body(svg, cfg) {
            Some(b) => spec_count_named(b) == 0 && spec_count_default(b) == 0,
            None => true,
        }),
{
    reveal_with_fuel(spec_count_named, 3);
    reveal_with_fuel(spec_count_default, 3);
    match svg {
        None => {}
        Some(_) => {
            let (_, interfaces) = spec_create_component_props(cfg);
            lemma_counts_interfaces(interfaces);
            let comp_item = List::Cons(
                ModuleItem::Component(
                    ComponentDecl {
                        name: cfg.state.component_name,
                        params: spec_create_component_props(cfg).0,
                        body: svg->Some_0,
                    },
                ),
                Box::new(List::<ModuleItem>::Nil),
            );
            lemma_counts_append(spec_interface_items(interfaces), comp_item);
        }
    }
}

proof fn lemma_counts_wraps(cfg: Config)
    ensures
        (match spec_create_exports(cfg) {
            Ok(ex) => (if cfg.export_type == ExportType::Named || cfg.state.caller.previous_export
                != List::<char>::Nil {
                spec_count_named(ex) == 1 && spec_count_default(ex) == 0
            } else {
                spec_count_named(ex) == 0 && spec_count_default(ex) == 1
            }),
            Err(_) => true,
        }),
{
    reveal_with_fuel(spec_count_named, 5);
    reveal_with_fuel(spec_count_default, 5);
    let ident0 = cfg.state.component_name;
    let ident1 = if cfg.forward_ref {
        list_of("ForwardRef"@)
    } else {
        ident0
    };
    let wrap_memo: List<ModuleItem> = if cfg.memo {
        List::Cons(
            ModuleItem::ConstWrap {
                name: list_of("Memo"@),
                callee: list_of("memo"@),
                arg: ident1,
            },
            Box::new(List::Nil),
        )
    } else {
        List::Nil
    };
    let wraps: List<ModuleItem> = if cfg.forward_ref {
        List::Cons(
            ModuleItem::ConstWrap {
                name: list_of("ForwardRef"@),
                callee: list_of("forwardRef"@),
                arg: ident0,
            },
            Box::new(wrap_memo),
        )
    } else {
        wrap_memo
    };
    assert(spec_count_named(wraps) == 0 && spec_count_default(wraps) == 0);
    match spec_create_exports(cfg) {
        Ok(ex) => {
            let ident2 = if cfg.memo {
                list_of("Memo"@)
            } else {
                ident1
            };
            let has_previous = !(cfg.state.caller.previous_export == List::<char>::Nil);
            if cfg.export_type == ExportType::Named || has_previous {
                let named = ModuleItem::NamedExport { orig: ident2, exported: cfg.named_export };
                lemma_counts_append(wraps, List::Cons(named, Box::new(List::Nil)));
                let e1 = wraps.push_back(named);
                if has_previous {
                    lemma_counts_append(
                        e1,
                        List::Cons(
                            ModuleItem::Verbatim(cfg.state.caller.previous_export),
                            Box::new(List::Nil),
                        ),
                    );
                }
            } else {
                lemma_counts_append(
                    wraps,
                    List::Cons(ModuleItem::DefaultExport(ident2), Box::new(List::Nil)),
                );
            }
        }
        Err(_) => {}
    }
}

/// Export-shape law, named side: a successful run under a named export
/// shape with a non-empty export name emits exactly one named export
/// statement and no default export statement.
pub proof fn lemma_export_shape_named(m: Module, cfg: Config, m2: Module)
    requires
        cfg.export_type == ExportType::Named,
        cfg.named_export != List::<char>::Nil,
        spec_transform_module(m, cfg) == Ok::<Module, ConfigError>(m2),
    ensures
        spec_count_named(m2.items) == 1,
        spec_count_default(m2.items) == 0,
{
    lemma_export_shape(m, cfg, m2);
}

/// Export-shape law, default side: a successful run under a default
/// export shape with no previous-export fragment emits exactly one
/// default export statement and no named export statement.
pub proof fn lemma_export_shape_default(m: Module, cfg: Config, m2: Module)
    requires
        cfg.export_type == ExportType::Default,
        cfg.state.caller.previous_export == List::<char>::Nil,
        spec_transform_module(m, cfg) == Ok::<Module, ConfigError>(m2),
    ensures
        spec_count_named(m2.items) == 0,
        spec_count_default(m2.items) == 1,
{
    lemma_export_shape(m, cfg, m2);
}

proof fn lemma_export_shape(m: Module, cfg: Config, m2: Module)
    requires
        spec_transform_module(m, cfg) == Ok::<Module, ConfigError>(m2),
    ensures
        (if cfg.export_type == ExportType::Named || cfg.state.caller.previous_export
            != List::<char>::Nil {
            spec_count_named(m2.items) == 1 && spec_count_default(m2.items) == 0
        } else {
            spec_count_named(m2.items) == 0 && spec_count_default(m2.items) == 1
        }),
{
    match spec_create_imports(cfg) {
        Err(_) => {
            assert(false);
        }
        Ok(imports) => {
            match spec_create_exports(cfg) {
                Err(_) => {
                    assert(false);
                }
                Ok(exports) => {
                    let svg = spec_find_svg_module(m.items);
                    let body = match spec_create_component_body(svg, cfg) {
                        Some(b) => b,
                        None => List::<ModuleItem>::Nil,
                    };
                    lemma_counts_imports(imports);
                    lemma_counts_body(svg, cfg);
                    lemma_counts_wraps(cfg);
                    lemma_counts_append(body, exports);
                    lemma_counts_append(spec_import_items(imports), body.append(exports));
                }
            }
        }
    }
}

/// Runs the synthesizer on a module.
pub fn transform_module(m: Module, cfg: &Config) -> (r: Result<Module, ConfigError>)
    ensures
        r == spec_transform_module(m, *cfg),
{
    match create_imports(cfg) {
        Err(e) => Err(e),
        Ok(imports) => match create_exports(cfg) {
            Err(e) => Err(e),
            Ok(exports) => {
                let svg = find_svg_module(&m.items);
                let body = match create_component_body(svg, cfg) {
                    Some(b) => b,
                    None => List::Nil,
                };
                Ok(Module { items: append_items(import_items(imports), append_items(body, exports)) })
            }
        },
    }
}

} // verus!
