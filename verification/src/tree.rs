//! The markup tree: a closed tagged union over elements, attributes,
//! expression containers and literals.
//!
//! Every rewrite pass is written as a total function over these types.
//! Code fragments supplied by configuration (`literal` attribute values,
//! the previous-export fragment) are carried opaquely as `JsExpr::Code`;
//! parsing and printing them is the host's concern.

use vstd::prelude::*;

use crate::list::List;
use crate::text::Text;

verus! {

/// A literal value as it appears in attribute values and style objects.
/// Numbers are carried as their source text, so the model stays exact.
#[derive(Debug, PartialEq, Eq)]
pub enum JsLit {
    Str(Text),
    Num(Text),
    Bool(bool),
    Null,
}

/// One `key: value` property of a synthesized style object.
#[derive(Debug, PartialEq, Eq)]
pub struct ObjectProp {
    pub key: Text,
    pub value: JsLit,
}

/// The expression forms the rewrites read or build.  Anything else that a
/// configuration fragment may contain is carried whole as `Code`.
#[derive(Debug, PartialEq, Eq)]
pub enum JsExpr {
    Ident(Text),
    Lit(JsLit),
    /// `test ? cons : alt`
    Cond(Box<JsExpr>, Box<JsExpr>, Box<JsExpr>),
    /// `left === right`
    StrictEq(Box<JsExpr>, Box<JsExpr>),
    /// `left || right`
    Or(Box<JsExpr>, Box<JsExpr>),
    Object(List<ObjectProp>),
    Element(Box<JsxElement>),
    /// An opaque source fragment from configuration.
    Code(Text),
    /// The empty expression of an empty container, `{}`.
    Empty,
}

/// An attribute name: plain, or namespaced `ns:local`.
#[derive(Debug, PartialEq, Eq)]
pub enum AttrName {
    Plain(Text),
    Namespaced(Text, Text),
}

/// An attribute value: a plain string literal, or an expression container.
#[derive(Debug, PartialEq, Eq)]
pub enum AttrValue {
    Str(Text),
    Expr(JsExpr),
}

/// A named attribute; `value: None` is the boolean-true shorthand.
#[derive(Debug, PartialEq, Eq)]
pub struct Attr {
    pub name: AttrName,
    pub value: Option<AttrValue>,
}

/// An entry of an element's attribute list: an attribute or a spread.
#[derive(Debug, PartialEq, Eq)]
pub enum AttrItem {
    Attr(Attr),
    Spread(JsExpr),
}

/// An element with its ordered attributes and children.
#[derive(Debug, PartialEq, Eq)]
pub struct JsxElement {
    pub name: Text,
    pub attrs: List<AttrItem>,
    pub children: List<JsxChild>,
    pub self_closing: bool,
}

/// A child of an element.
#[derive(Debug, PartialEq, Eq)]
pub enum JsxChild {
    Element(Box<JsxElement>),
    /// An expression container child, `{expr}`.
    Container(JsExpr),
    Text(Text),
}

/// An exact copy of a text.
pub fn copy_text(t: &Text) -> (r: Text)
    ensures
        r == *t,
    decreases *t,
{
    match t {
        List::Nil => List::Nil,
        List::Cons(c, rest) => List::Cons(*c, Box::new(copy_text(rest))),
    }
}

/// An exact copy of a literal.
pub fn copy_lit(l: &JsLit) -> (r: JsLit)
    ensures
        r == *l,
{
    match l {
        JsLit::Str(t) => JsLit::Str(copy_text(t)),
        JsLit::Num(t) => JsLit::Num(copy_text(t)),
        JsLit::Bool(b) => JsLit::Bool(*b),
        JsLit::Null => JsLit::Null,
    }
}

/// An exact copy of an expression.
pub fn copy_expr(x: &JsExpr) -> (r: JsExpr)
    ensures
        r == *x,
    decreases *x,
{
    match x {
        JsExpr::Ident(t) => JsExpr::Ident(copy_text(t)),
        JsExpr::Lit(l) => JsExpr::Lit(copy_lit(l)),
        JsExpr::Cond(t, c, a) => JsExpr::Cond(
            Box::new(copy_expr(t)),
            Box::new(copy_expr(c)),
            Box::new(copy_expr(a)),
        ),
        JsExpr::StrictEq(l, r) => JsExpr::StrictEq(Box::new(copy_expr(l)), Box::new(copy_expr(r))),
        JsExpr::Or(l, r) => JsExpr::Or(Box::new(copy_expr(l)), Box::new(copy_expr(r))),
        JsExpr::Object(props) => JsExpr::Object(copy_object_props(props)),
        JsExpr::Element(e) => JsExpr::Element(Box::new(copy_element(e))),
        JsExpr::Code(t) => JsExpr::Code(copy_text(t)),
        JsExpr::Empty => JsExpr::Empty,
    }
}

fn copy_object_props(l: &List<ObjectProp>) -> (r: List<ObjectProp>)
    ensures
        r == *l,
    decreases *l,
{
    match l {
        List::Nil => List::Nil,
        List::Cons(p, rest) => List::Cons(
            ObjectProp { key: copy_text(&p.key), value: copy_lit(&p.value) },
            Box::new(copy_object_props(rest)),
        ),
    }
}

/// An exact copy of an attribute value.
pub fn copy_attr_value(v: &AttrValue) -> (r: AttrValue)
    ensures
        r == *v,
    decreases *v,
{
    match v {
        AttrValue::Str(t) => AttrValue::Str(copy_text(t)),
        AttrValue::Expr(x) => AttrValue::Expr(copy_expr(x)),
    }
}

/// An exact copy of an attribute-list entry.
pub fn copy_attr_item(item: &AttrItem) -> (r: AttrItem)
    ensures
        r == *item,
    decreases *item,
{
    match item {
        AttrItem::Attr(a) => AttrItem::Attr(
            Attr {
                name: match &a.name {
                    AttrName::Plain(n) => AttrName::Plain(copy_text(n)),
                    AttrName::Namespaced(ns, n) => AttrName::Namespaced(
                        copy_text(ns),
                        copy_text(n),
                    ),
                },
                value: match &a.value {
                    Some(v) => Some(copy_attr_value(v)),
                    None => None,
                },
            },
        ),
        AttrItem::Spread(x) => AttrItem::Spread(copy_expr(x)),
    }
}

/// An exact copy of an attribute list.
pub fn copy_attr_items(l: &List<AttrItem>) -> (r: List<AttrItem>)
    ensures
        r == *l,
    decreases *l,
{
    match l {
        List::Nil => List::Nil,
        List::Cons(item, rest) => List::Cons(copy_attr_item(item), Box::new(copy_attr_items(rest))),
    }
}

/// An exact copy of an element.
pub fn copy_element(e: &JsxElement) -> (r: JsxElement)
    ensures
        r == *e,
    decreases *e,
{
    JsxElement {
        name: copy_text(&e.name),
        attrs: copy_attr_items(&e.attrs),
        children: copy_children(&e.children),
        self_closing: e.self_closing,
    }
}

/// An exact copy of a child list.
pub fn copy_children(l: &List<JsxChild>) -> (r: List<JsxChild>)
    ensures
        r == *l,
    decreases *l,
{
    match l {
        List::Nil => List::Nil,
        List::Cons(c, rest) => List::Cons(copy_child(c), Box::new(copy_children(rest))),
    }
}

/// An exact copy of a child.
pub fn copy_child(c: &JsxChild) -> (r: JsxChild)
    ensures
        r == *c,
    decreases *c,
{
    match c {
        JsxChild::Element(e) => JsxChild::Element(Box::new(copy_element(e))),
        JsxChild::Container(x) => JsxChild::Container(copy_expr(x)),
        JsxChild::Text(t) => JsxChild::Text(copy_text(t)),
    }
}

} // verus!
