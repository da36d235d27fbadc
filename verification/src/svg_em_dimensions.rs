//! The dimension-substitution pass: on `svg`/`Svg` elements, forces the
//! `width` and `height` attribute values to a configured value (the
//! string `"1em"` when unconfigured), replacing existing values and
//! appending the attributes when absent.

use vstd::prelude::*;

use crate::list::List;
use crate::text::{contains_text, list_of, text, Text};
use crate::tree::{
    copy_attr_value, Attr, AttrItem, AttrName, AttrValue, JsExpr, JsLit, JsxChild, JsxElement,
};

verus! {

/// A configured dimension value: a number or a string.
#[derive(Debug, PartialEq, Eq)]
pub enum NumberOrString {
    Num(Text),
    Str(Text),
}

/// The configured width and height.
#[derive(Debug, PartialEq, Eq)]
pub struct Options {
    pub width: Option<NumberOrString>,
    pub height: Option<NumberOrString>,
}

/// The pass with its precomputed tag set and attribute values.
#[derive(Debug, PartialEq, Eq)]
pub struct SVGEmDimensionsVisitor {
    pub elements: List<Text>,
    pub height_value: AttrValue,
    pub width_value: AttrValue,
}

/// The attribute value for one configured dimension: a numeric literal
/// for a number, a string literal for a string, `"1em"` when absent.
pub open spec fn spec_get_value(raw: Option<NumberOrString>) -> AttrValue {
    match raw {
        Some(NumberOrString::Num(n)) => AttrValue::Expr(JsExpr::Lit(JsLit::Num(n))),
        Some(NumberOrString::Str(s)) => AttrValue::Str(s),
        None => AttrValue::Str(list_of("1em"@)),
    }
}

/// The visitor a configuration denotes.
pub open spec fn spec_visitor(options: Options) -> SVGEmDimensionsVisitor {
    SVGEmDimensionsVisitor {
        elements: List::Cons(
            list_of("svg"@),
            Box::new(List::Cons(list_of("Svg"@), Box::new(List::Nil))),
        ),
        height_value: spec_get_value(options.height),
        width_value: spec_get_value(options.width),
    }
}

fn get_value(raw: Option<NumberOrString>) -> (r: AttrValue)
    ensures
        r == spec_get_value(raw),
{
    match raw {
        Some(NumberOrString::Num(n)) => AttrValue::Expr(JsExpr::Lit(JsLit::Num(n))),
        Some(NumberOrString::Str(s)) => AttrValue::Str(s),
        None => AttrValue::Str(text("1em")),
    }
}

impl SVGEmDimensionsVisitor {
    /// Builds the pass from its configuration.
    pub fn new(options: Options) -> (r: SVGEmDimensionsVisitor)
        ensures
            r == spec_visitor(options),
    {
        let Options { width, height } = options;
        let mut elements: List<Text> = List::Nil;
        elements = List::Cons(text("Svg"), Box::new(elements));
        elements = List::Cons(text("svg"), Box::new(elements));
        SVGEmDimensionsVisitor {
            elements,
            height_value: get_value(height),
            width_value: get_value(width),
        }
    }
}

/// True when the list holds a plain-named attribute called `name`.
pub open spec fn spec_has_plain_attr(l: List<AttrItem>, name: Seq<char>) -> bool
    decreases l,
{
    match l {
        List::Nil => false,
        List::Cons(item, rest) => {
            let here = match item {
                AttrItem::Attr(a) => a.name == AttrName::Plain(list_of(name)),
                AttrItem::Spread(_) => false,
            };
            here || spec_has_plain_attr(*rest, name)
        }
    }
}

/// Overwrites the values of existing `width` and `height` attributes.
pub open spec fn spec_force_dims(l: List<AttrItem>, v: SVGEmDimensionsVisitor) -> List<AttrItem>
    decreases l,
{
    match l {
        List::Nil => List::Nil,
        List::Cons(item, rest) => {
            let item2 = match item {
                AttrItem::Attr(a) => if a.name == AttrName::Plain(list_of("height"@)) {
                    AttrItem::Attr(Attr { name: a.name, value: Some(v.height_value) })
                } else if a.name == AttrName::Plain(list_of("width"@)) {
                    AttrItem::Attr(Attr { name: a.name, value: Some(v.width_value) })
                } else {
                    AttrItem::Attr(a)
                },
                AttrItem::Spread(x) => AttrItem::Spread(x),
            };
            List::Cons(item2, Box::new(spec_force_dims(*rest, v)))
        }
    }
}

/// The synthesized attribute for a missing dimension.
pub open spec fn spec_dim_attr(name: Seq<char>, value: AttrValue) -> AttrItem {
    AttrItem::Attr(Attr { name: AttrName::Plain(list_of(name)), value: Some(value) })
}

/// The pass over a whole element: on a configured tag, force both
/// dimensions and append whichever was absent, width first.
pub open spec fn spec_em_elem(e: JsxElement, v: SVGEmDimensionsVisitor) -> JsxElement
    decreases e,
{
    let walked = spec_em_items(e.attrs, v);
    let attrs = if v.elements.contains(e.name) {
        let forced = spec_force_dims(walked, v);
        let with_w = if spec_has_plain_attr(e.attrs, "width"@) {
            forced
        } else {
            forced.push_back(spec_dim_attr("width"@, v.width_value))
        };
        if spec_has_plain_attr(e.attrs, "height"@) {
            with_w
        } else {
            with_w.push_back(spec_dim_attr("height"@, v.height_value))
        }
    } else {
        walked
    };
    JsxElement {
        name: e.name,
        attrs,
        children: spec_em_children(e.children, v),
        self_closing: e.self_closing,
    }
}

pub open spec fn spec_em_items(l: List<AttrItem>, v: SVGEmDimensionsVisitor) -> List<AttrItem>
    decreases l,
{
    match l {
        List::Nil => List::Nil,
        List::Cons(item, rest) => List::Cons(
            spec_em_item(item, v),
            Box::new(spec_em_items(*rest, v)),
        ),
    }
}

pub open spec fn spec_em_item(item: AttrItem, v: SVGEmDimensionsVisitor) -> AttrItem
    decreases item,
{
    match item {
        AttrItem::Attr(a) => AttrItem::Attr(
            Attr {
                name: a.name,
                value: match a.value {
                    Some(AttrValue::Expr(x)) => Some(AttrValue::Expr(spec_em_expr(x, v))),
                    other => other,
                },
            },
        ),
        AttrItem::Spread(x) => AttrItem::Spread(spec_em_expr(x, v)),
    }
}

pub open spec fn spec_em_expr(x: JsExpr, v: SVGEmDimensionsVisitor) -> JsExpr
    decreases x,
{
    match x {
        JsExpr::Cond(t, c, a) => JsExpr::Cond(
            Box::new(spec_em_expr(*t, v)),
            Box::new(spec_em_expr(*c, v)),
            Box::new(spec_em_expr(*a, v)),
        ),
        JsExpr::StrictEq(l, r) => JsExpr::StrictEq(
            Box::new(spec_em_expr(*l, v)),
            Box::new(spec_em_expr(*r, v)),
        ),
        JsExpr::Or(l, r) => JsExpr::Or(Box::new(spec_em_expr(*l, v)), Box::new(spec_em_expr(*r, v))),
        JsExpr::Element(e) => JsExpr::Element(Box::new(spec_em_elem(*e, v))),
        other => other,
    }
}

pub open spec fn spec_em_children(l: List<JsxChild>, v: SVGEmDimensionsVisitor) -> List<JsxChild>
    decreases l,
{
    match l {
        List::Nil => List::Nil,
        List::Cons(c, rest) => List::Cons(
            spec_em_child(c, v),
            Box::new(spec_em_children(*rest, v)),
        ),
    }
}

pub open spec fn spec_em_child(c: JsxChild, v: SVGEmDimensionsVisitor) -> JsxChild
    decreases c,
{
    match c {
        JsxChild::Element(e) => JsxChild::Element(Box::new(spec_em_elem(*e, v))),
        JsxChild::Container(x) => JsxChild::Container(spec_em_expr(x, v)),
        JsxChild::Text(t) => JsxChild::Text(t),
    }
}

fn has_plain_attr(l: &List<AttrItem>, name: &str) -> (r: bool)
    ensures
        r == spec_has_plain_attr(*l, name@),
    decreases *l,
{
    match l {
        List::Nil => false,
        List::Cons(item, rest) => {
            let here = match item {
                AttrItem::Attr(a) => match &a.name {
                    AttrName::Plain(n) => crate::text::eq_text(n, &text(name)),
                    AttrName::Namespaced(_, _) => false,
                },
                AttrItem::Spread(_) => false,
            };
            if here {
                true
            } else {
                has_plain_attr(rest, name)
            }
        }
    }
}

fn force_dims(l: List<AttrItem>, v: &SVGEmDimensionsVisitor) -> (r: List<AttrItem>)
    ensures
        r == spec_force_dims(l, *v),
    decreases l,
{
    match l {
        List::Nil => List::Nil,
        List::Cons(item, rest) => {
            let item2 = match item {
                AttrItem::Attr(a) => {
                    let is_height = match &a.name {
                        AttrName::Plain(n) => crate::text::eq_text(n, &text("height")),
                        AttrName::Namespaced(_, _) => false,
                    };
                    let is_width = match &a.name {
                        AttrName::Plain(n) => crate::text::eq_text(n, &text("width")),
                        AttrName::Namespaced(_, _) => false,
                    };
                    if is_height {
                        AttrItem::Attr(Attr { name: a.name, value: Some(copy_attr_value(&v.height_value)) })
                    } else if is_width {
                        AttrItem::Attr(Attr { name: a.name, value: Some(copy_attr_value(&v.width_value)) })
                    } else {
                        AttrItem::Attr(a)
                    }
                }
                AttrItem::Spread(x) => AttrItem::Spread(x),
            };
            List::Cons(item2, Box::new(force_dims(*rest, v)))
        }
    }
}

fn push_back_item(l: List<AttrItem>, item: AttrItem) -> (r: List<AttrItem>)
    ensures
        r == l.push_back(item),
    decreases l,
{
    match l {
        List::Nil => List::Cons(item, Box::new(List::Nil)),
        List::Cons(x, rest) => List::Cons(x, Box::new(push_back_item(*rest, item))),
    }
}

/// Applies the pass to one element and everything below it.
pub fn em_element(e: JsxElement, v: &SVGEmDimensionsVisitor) -> (r: JsxElement)
    ensures
        r == spec_em_elem(e, *v),
    decreases e,
{
    let JsxElement { name, attrs, children, self_closing } = e;
    let had_width = has_plain_attr(&attrs, "width");
    let had_height = has_plain_attr(&attrs, "height");
    let walked = em_items(attrs, v);
    let attrs = if contains_text(&v.elements, &name) {
        let forced = force_dims(walked, v);
        let with_w = if had_width {
            forced
        } else {
            push_back_item(forced, AttrItem::Attr(Attr {
                name: AttrName::Plain(text("width")),
                value: Some(copy_attr_value(&v.width_value)),
            }))
        };
        if had_height {
            with_w
        } else {
            push_back_item(with_w, AttrItem::Attr(Attr {
                name: AttrName::Plain(text("height")),
                value: Some(copy_attr_value(&v.height_value)),
            }))
        }
    } else {
        walked
    };
    JsxElement { name, attrs, children: em_children(children, v), self_closing }
}

fn em_items(l: List<AttrItem>, v: &SVGEmDimensionsVisitor) -> (r: List<AttrItem>)
    ensures
        r == spec_em_items(l, *v),
    decreases l,
{
    match l {
        List::Nil => List::Nil,
        List::Cons(item, rest) => List::Cons(em_item(item, v), Box::new(em_items(*rest, v))),
    }
}

fn em_item(item: AttrItem, v: &SVGEmDimensionsVisitor) -> (r: AttrItem)
    ensures
        r == spec_em_item(item, *v),
    decreases item,
{
    match item {
        AttrItem::Attr(a) => AttrItem::Attr(
            Attr {
                name: a.name,
                value: match a.value {
                    Some(AttrValue::Expr(x)) => Some(AttrValue::Expr(em_expr(x, v))),
                    other => other,
                },
            },
        ),
        AttrItem::Spread(x) => AttrItem::Spread(em_expr(x, v)),
    }
}

fn em_expr(x: JsExpr, v: &SVGEmDimensionsVisitor) -> (r: JsExpr)
    ensures
        r == spec_em_expr(x, *v),
    decreases x,
{
    match x {
        JsExpr::Cond(t, c, a) => JsExpr::Cond(
            Box::new(em_expr(*t, v)),
            Box::new(em_expr(*c, v)),
            Box::new(em_expr(*a, v)),
        ),
        JsExpr::StrictEq(l, r) => JsExpr::StrictEq(
            Box::new(em_expr(*l, v)),
            Box::new(em_expr(*r, v)),
        ),
        JsExpr::Or(l, r) => JsExpr::Or(Box::new(em_expr(*l, v)), Box::new(em_expr(*r, v))),
        JsExpr::Element(e) => JsExpr::Element(Box::new(em_element(*e, v))),
        other => other,
    }
}

fn em_children(l: List<JsxChild>, v: &SVGEmDimensionsVisitor) -> (r: List<JsxChild>)
    ensures
        r == spec_em_children(l, *v),
    decreases l,
{
    match l {
        List::Nil => List::Nil,
        List::Cons(c, rest) => List::Cons(em_child(c, v), Box::new(em_children(*rest, v))),
    }
}

fn em_child(c: JsxChild, v: &SVGEmDimensionsVisitor) -> (r: JsxChild)
    ensures
        r == spec_em_child(c, *v),
    decreases c,
{
    match c {
        JsxChild::Element(e) => JsxChild::Element(Box::new(em_element(*e, v))),
        JsxChild::Container(x) => JsxChild::Container(em_expr(x, v)),
        JsxChild::Text(t) => JsxChild::Text(t),
    }
}

} // verus!
