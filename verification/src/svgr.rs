//! The pass pipeline: the fixed, documented order in which the rewrites
//! run over one module.  Each configured pass is skipped entirely when
//! its configuration section is absent; empty-expression pruning and
//! attribute-name normalization always run, and normalization runs last
//! because every earlier pass reasons about names in the source
//! vocabulary.

use vstd::prelude::*;

use crate::config::{Config, ConfigError};
use crate::list::List;
use crate::module::{ComponentDecl, Module, ModuleItem};
use crate::text::text;
use crate::tree::JsxElement;

verus! {

/// The configuration of one pipeline run: which passes run, and with
/// what options.
#[derive(Debug, PartialEq, Eq)]
pub struct Options {
    pub transform_svg_component: Option<Config>,
    pub em_dimensions: Option<crate::svg_em_dimensions::Options>,
    pub remove_jsx_attribute: Option<crate::remove_jsx_attribute::Options>,
    pub add_jsx_attribute: Option<crate::add_jsx_attribute::Options>,
    pub replace_attribute_values: Option<crate::replace_jsx_attribute_value::Options>,
    pub title_prop: bool,
    pub desc_prop: bool,
    pub native: bool,
}

/// Lifts an element rewrite over a module: markup statements and
/// component bodies are rewritten, every other item stays.
pub open spec fn spec_map_elem_items(
    l: List<ModuleItem>,
    f: spec_fn(JsxElement) -> JsxElement,
) -> List<ModuleItem>
    decreases l,
{
    match l {
        List::Nil => List::Nil,
        List::Cons(item, rest) => List::Cons(
            match item {
                ModuleItem::JsxStmt(e) => ModuleItem::JsxStmt(f(e)),
                ModuleItem::Component(c) => ModuleItem::Component(
                    ComponentDecl { name: c.name, params: c.params, body: f(c.body) },
                ),
                other => other,
            },
            Box::new(spec_map_elem_items(*rest, f)),
        ),
    }
}

/// The whole pipeline, in order: component synthesis, dimension
/// substitution, attribute removal, attribute addition, empty-expression
/// pruning, value replacement, title merge, description merge, native
/// substitution with import fixup, and name normalization.
pub open spec fn spec_run_pipeline(m: Module, o: Options) -> Result<Module, ConfigError> {
    let after_component = match o.transform_svg_component {
        Some(cfg) => crate::transform_svg_component::spec_transform_module(m, cfg),
        None => Ok(m),
    };
    match after_component {
        Err(e) => Err(e),
        Ok(m1) => {
            let m2 = match o.em_dimensions {
                Some(opts) => Module {
                    items: spec_map_elem_items(
                        m1.items,
                        |e: JsxElement|
                            crate::svg_em_dimensions::spec_em_elem(
                                e,
                                crate::svg_em_dimensions::spec_visitor(opts),
                            ),
                    ),
                },
                None => m1,
            };
            let m3 = match o.remove_jsx_attribute {
                Some(opts) => Module {
                    items: spec_map_elem_items(
                        m2.items,
                        |e: JsxElement| crate::remove_jsx_attribute::spec_remove_elem(e, opts),
                    ),
                },
                None => m2,
            };
            let m4 = match o.add_jsx_attribute {
                Some(opts) => Module {
                    items: spec_map_elem_items(
                        m3.items,
                        |e: JsxElement| crate::add_jsx_attribute::spec_add_elem(e, opts),
                    ),
                },
                None => m3,
            };
            let m5 = Module {
                items: spec_map_elem_items(
                    m4.items,
                    |e: JsxElement| crate::remove_jsx_empty_expression::spec_prune_elem(e),
                ),
            };
            let m6 = match o.replace_attribute_values {
                Some(opts) => Module {
                    items: spec_map_elem_items(
                        m5.items,
                        |e: JsxElement| crate::replace_jsx_attribute_value::spec_replace_elem(
                            e,
                            opts,
                        ),
                    ),
                },
                None => m5,
            };
            let m7 = if o.title_prop {
                Module {
                    items: spec_map_elem_items(
                        m6.items,
                        |e: JsxElement|
                            crate::svg_dynamic_title::spec_title_elem(
                                e,
                                crate::svg_dynamic_title::spec_visitor(
                                    crate::svg_dynamic_title::Options {
                                        tag: crate::text::list_of("title"@),
                                    },
                                ),
                            ),
                    ),
                }
            } else {
                m6
            };
            let m8 = if o.desc_prop {
                Module {
                    items: spec_map_elem_items(
                        m7.items,
                        |e: JsxElement|
                            crate::svg_dynamic_title::spec_title_elem(
                                e,
                                crate::svg_dynamic_title::spec_visitor(
                                    crate::svg_dynamic_title::Options {
                                        tag: crate::text::list_of("desc"@),
                                    },
                                ),
                            ),
                    ),
                }
            } else {
                m7
            };
            let m9 = if o.native {
                crate::transform_react_native_svg::spec_rn_module(m8).0
            } else {
                m8
            };
            let m10 = Module {
                items: spec_map_elem_items(
                    m9.items,
                    |e: JsxElement| crate::transform_attribute::spec_norm_elem(e),
                ),
            };
            Ok(m10)
        }
    }
}

fn map_em(l: List<ModuleItem>, v: &crate::svg_em_dimensions::SVGEmDimensionsVisitor) -> (r: List<
    ModuleItem,
>)
    ensures
        r == spec_map_elem_items(
            l,
            |e: JsxElement| crate::svg_em_dimensions::spec_em_elem(e, *v),
        ),
    decreases l,
{
    match l {
        List::Nil => List::Nil,
        List::Cons(item, rest) => List::Cons(
            match item {
                ModuleItem::JsxStmt(e) => ModuleItem::JsxStmt(
                    crate::svg_em_dimensions::em_element(e, v),
                ),
                ModuleItem::Component(c) => {
                    let ComponentDecl { name, params, body } = c;
                    ModuleItem::Component(
                        ComponentDecl {
                            name,
                            params,
                            body: crate::svg_em_dimensions::em_element(body, v),
                        },
                    )
                }
                other => other,
            },
            Box::new(map_em(*rest, v)),
        ),
    }
}

fn map_remove(l: List<ModuleItem>, opts: &crate::remove_jsx_attribute::Options) -> (r: List<
    ModuleItem,
>)
    ensures
        r == spec_map_elem_items(
            l,
            |e: JsxElement| crate::remove_jsx_attribute::spec_remove_elem(e, *opts),
        ),
    decreases l,
{
    match l {
        List::Nil => List::Nil,
        List::Cons(item, rest) => List::Cons(
            match item {
                ModuleItem::JsxStmt(e) => ModuleItem::JsxStmt(
                    crate::remove_jsx_attribute::remove_from_element(e, opts),
                ),
                ModuleItem::Component(c) => {
                    let ComponentDecl { name, params, body } = c;
                    ModuleItem::Component(
                        ComponentDecl {
                            name,
                            params,
                            body: crate::remove_jsx_attribute::remove_from_element(body, opts),
                        },
                    )
                }
                other => other,
            },
            Box::new(map_remove(*rest, opts)),
        ),
    }
}

fn map_add(l: List<ModuleItem>, opts: &crate::add_jsx_attribute::Options) -> (r: List<ModuleItem>)
    ensures
        r == spec_map_elem_items(
            l,
            |e: JsxElement| crate::add_jsx_attribute::spec_add_elem(e, *opts),
        ),
    decreases l,
{
    match l {
        List::Nil => List::Nil,
        List::Cons(item, rest) => List::Cons(
            match item {
                ModuleItem::JsxStmt(e) => ModuleItem::JsxStmt(
                    crate::add_jsx_attribute::add_to_element(e, opts),
                ),
                ModuleItem::Component(c) => {
                    let ComponentDecl { name, params, body } = c;
                    ModuleItem::Component(
                        ComponentDecl {
                            name,
                            params,
                            body: crate::add_jsx_attribute::add_to_element(body, opts),
                        },
                    )
                }
                other => other,
            },
            Box::new(map_add(*rest, opts)),
        ),
    }
}

fn map_prune(l: List<ModuleItem>) -> (r: List<ModuleItem>)
    ensures
        r == spec_map_elem_items(
            l,
            |e: JsxElement| crate::remove_jsx_empty_expression::spec_prune_elem(e),
        ),
    decreases l,
{
    match l {
        List::Nil => List::Nil,
        List::Cons(item, rest) => List::Cons(
            match item {
                ModuleItem::JsxStmt(e) => ModuleItem::JsxStmt(
                    crate::remove_jsx_empty_expression::prune_element(e),
                ),
                ModuleItem::Component(c) => {
                    let ComponentDecl { name, params, body } = c;
                    ModuleItem::Component(
                        ComponentDecl {
                            name,
                            params,
                            body: crate::remove_jsx_empty_expression::prune_element(body),
                        },
                    )
                }
                other => other,
            },
            Box::new(map_prune(*rest)),
        ),
    }
}

fn map_replace(l: List<ModuleItem>, opts: &crate::replace_jsx_attribute_value::Options) -> (r: List<
    ModuleItem,
>)
    ensures
        r == spec_map_elem_items(
            l,
            |e: JsxElement| crate::replace_jsx_attribute_value::spec_replace_elem(e, *opts),
        ),
    decreases l,
{
    match l {
        List::Nil => List::Nil,
        List::Cons(item, rest) => List::Cons(
            match item {
                ModuleItem::JsxStmt(e) => ModuleItem::JsxStmt(
                    crate::replace_jsx_attribute_value::replace_in_element(e, opts),
                ),
                ModuleItem::Component(c) => {
                    let ComponentDecl { name, params, body } = c;
                    ModuleItem::Component(
                        ComponentDecl {
                            name,
                            params,
                            body: crate::replace_jsx_attribute_value::replace_in_element(
                                body,
                                opts,
                            ),
                        },
                    )
                }
                other => other,
            },
            Box::new(map_replace(*rest, opts)),
        ),
    }
}

fn map_title(l: List<ModuleItem>, v: &crate::svg_dynamic_title::DynamicTitleVisitor) -> (r: List<
    ModuleItem,
>)
    ensures
        r == spec_map_elem_items(
            l,
            |e: JsxElement| crate::svg_dynamic_title::spec_title_elem(e, *v),
        ),
    decreases l,
{
    match l {
        List::Nil => List::Nil,
        List::Cons(item, rest) => List::Cons(
            match item {
                ModuleItem::JsxStmt(e) => ModuleItem::JsxStmt(
                    crate::svg_dynamic_title::title_element(e, v),
                ),
                ModuleItem::Component(c) => {
                    let ComponentDecl { name, params, body } = c;
                    ModuleItem::Component(
                        ComponentDecl {
                            name,
                            params,
                            body: crate::svg_dynamic_title::title_element(body, v),
                        },
                    )
                }
                other => other,
            },
            Box::new(map_title(*rest, v)),
        ),
    }
}

fn map_norm(l: List<ModuleItem>) -> (r: List<ModuleItem>)
    ensures
        r == spec_map_elem_items(
            l,
            |e: JsxElement| crate::transform_attribute::spec_norm_elem(e),
        ),
    decreases l,
{
    match l {
        List::Nil => List::Nil,
        List::Cons(item, rest) => List::Cons(
            match item {
                ModuleItem::JsxStmt(e) => ModuleItem::JsxStmt(
                    crate::transform_attribute::normalize_element(e),
                ),
                ModuleItem::Component(c) => {
                    let ComponentDecl { name, params, body } = c;
                    ModuleItem::Component(
                        ComponentDecl {
                            name,
                            params,
                            body: crate::transform_attribute::normalize_element(body),
                        },
                    )
                }
                other => other,
            },
            Box::new(map_norm(*rest)),
        ),
    }
}

/// Runs the configured pipeline over one module.
pub fn run_pipeline(m: Module, o: Options) -> (r: Result<Module, ConfigError>)
    ensures
        r == spec_run_pipeline(m, o),
{
    let Options {
        transform_svg_component,
        em_dimensions,
        remove_jsx_attribute,
        add_jsx_attribute,
        replace_attribute_values,
        title_prop,
        desc_prop,
        native,
    } = o;
    let after_component = match transform_svg_component {
        Some(cfg) => crate::transform_svg_component::transform_module(m, &cfg),
        None => Ok(m),
    };
    match after_component {
        Err(e) => Err(e),
        Ok(m1) => {
            let m2 = match em_dimensions {
                Some(opts) => {
                    let v = crate::svg_em_dimensions::SVGEmDimensionsVisitor::new(opts);
                    let Module { items } = m1;
                    Module { items: map_em(items, &v) }
                }
                None => m1,
            };
            let m3 = match remove_jsx_attribute {
                Some(opts) => {
                    let Module { items } = m2;
                    Module { items: map_remove(items, &opts) }
                }
                None => m2,
            };
            let m4 = match add_jsx_attribute {
                Some(opts) => {
                    let Module { items } = m3;
                    Module { items: map_add(items, &opts) }
                }
                None => m3,
            };
            let m5 = {
                let Module { items } = m4;
                Module { items: map_prune(items) }
            };
            let m6 = match replace_attribute_values {
                Some(opts) => {
                    let Module { items } = m5;
                    Module { items: map_replace(items, &opts) }
                }
                None => m5,
            };
            let m7 = if title_prop {
                let v = crate::svg_dynamic_title::DynamicTitleVisitor::new(
                    crate::svg_dynamic_title::Options { tag: text("title") },
                );
                let Module { items } = m6;
                Module { items: map_title(items, &v) }
            } else {
                m6
            };
            let m8 = if desc_prop {
                let v = crate::svg_dynamic_title::DynamicTitleVisitor::new(
                    crate::svg_dynamic_title::Options { tag: text("desc") },
                );
                let Module { items } = m7;
                Module { items: map_title(items, &v) }
            } else {
                m7
            };
            let m9 = if native {
                let (m, _st) = crate::transform_react_native_svg::transform_react_native(m8);
                m
            } else {
                m8
            };
            let m10 = {
                let Module { items } = m9;
                Module { items: map_norm(items) }
            };
            Ok(m10)
        }
    }
}

} // verus!
