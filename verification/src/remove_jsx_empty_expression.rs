//! The empty-expression-pruning pass: removes every child that is an
//! expression container holding the empty expression, the usual residue
//! of a stray comment.

use vstd::prelude::*;

use crate::list::List;
use crate::tree::{Attr, AttrItem, AttrValue, JsExpr, JsxChild, JsxElement};

verus! {

/// True when the child survives pruning.
pub open spec fn spec_not_empty_container(c: JsxChild) -> bool {
    !(c == JsxChild::Container(JsExpr::Empty))
}

/// The child list with empty containers dropped.
pub open spec fn spec_drop_empty(l: List<JsxChild>) -> List<JsxChild>
    decreases l,
{
    match l {
        List::Nil => List::Nil,
        List::Cons(c, rest) => {
            let tail = spec_drop_empty(*rest);
            if spec_not_empty_container(c) {
                List::Cons(c, Box::new(tail))
            } else {
                tail
            }
        }
    }
}

/// The pass over a whole element.
pub open spec fn spec_prune_elem(e: JsxElement) -> JsxElement
    decreases e,
{
    JsxElement {
        name: e.name,
        attrs: spec_prune_items(e.attrs),
        children: spec_drop_empty(spec_prune_children(e.children)),
        self_closing: e.self_closing,
    }
}

pub open spec fn spec_prune_items(l: List<AttrItem>) -> List<AttrItem>
    decreases l,
{
    match l {
        List::Nil => List::Nil,
        List::Cons(item, rest) => List::Cons(
            spec_prune_item(item),
            Box::new(spec_prune_items(*rest)),
        ),
    }
}

pub open spec fn spec_prune_item(item: AttrItem) -> AttrItem
    decreases item,
{
    match item {
        AttrItem::Attr(a) => AttrItem::Attr(
            Attr {
                name: a.name,
                value: match a.value {
                    Some(AttrValue::Expr(x)) => Some(AttrValue::Expr(spec_prune_expr(x))),
                    other => other,
                },
            },
        ),
        AttrItem::Spread(x) => AttrItem::Spread(spec_prune_expr(x)),
    }
}

pub open spec fn spec_prune_expr(x: JsExpr) -> JsExpr
    decreases x,
{
    match x {
        JsExpr::Cond(t, c, a) => JsExpr::Cond(
            Box::new(spec_prune_expr(*t)),
            Box::new(spec_prune_expr(*c)),
            Box::new(spec_prune_expr(*a)),
        ),
        JsExpr::StrictEq(l, r) => JsExpr::StrictEq(
            Box::new(spec_prune_expr(*l)),
            Box::new(spec_prune_expr(*r)),
        ),
        JsExpr::Or(l, r) => JsExpr::Or(Box::new(spec_prune_expr(*l)), Box::new(spec_prune_expr(*r))),
        JsExpr::Element(e) => JsExpr::Element(Box::new(spec_prune_elem(*e))),
        other => other,
    }
}

pub open spec fn spec_prune_children(l: List<JsxChild>) -> List<JsxChild>
    decreases l,
{
    match l {
        List::Nil => List::Nil,
        List::Cons(c, rest) => List::Cons(
            spec_prune_child(c),
            Box::new(spec_prune_children(*rest)),
        ),
    }
}

pub open spec fn spec_prune_child(c: JsxChild) -> JsxChild
    decreases c,
{
    match c {
        JsxChild::Element(e) => JsxChild::Element(Box::new(spec_prune_elem(*e))),
        JsxChild::Container(x) => JsxChild::Container(spec_prune_expr(x)),
        JsxChild::Text(t) => JsxChild::Text(t),
    }
}

fn drop_empty(l: List<JsxChild>) -> (r: List<JsxChild>)
    ensures
        r == spec_drop_empty(l),
    decreases l,
{
    match l {
        List::Nil => List::Nil,
        List::Cons(c, rest) => {
            let tail = drop_empty(*rest);
            let is_empty_container = match &c {
                JsxChild::Container(JsExpr::Empty) => true,
                _ => false,
            };
            if is_empty_container {
                tail
            } else {
                List::Cons(c, Box::new(tail))
            }
        }
    }
}

/// Applies the pass to one element and everything below it.
pub fn prune_element(e: JsxElement) -> (r: JsxElement)
    ensures
        r == spec_prune_elem(e),
    decreases e,
{
    let JsxElement { name, attrs, children, self_closing } = e;
    JsxElement {
        name,
        attrs: prune_items(attrs),
        children: drop_empty(prune_children(children)),
        self_closing,
    }
}

fn prune_items(l: List<AttrItem>) -> (r: List<AttrItem>)
    ensures
        r == spec_prune_items(l),
    decreases l,
{
    match l {
        List::Nil => List::Nil,
        List::Cons(item, rest) => List::Cons(prune_item(item), Box::new(prune_items(*rest))),
    }
}

fn prune_item(item: AttrItem) -> (r: AttrItem)
    ensures
        r == spec_prune_item(item),
    decreases item,
{
    match item {
        AttrItem::Attr(a) => AttrItem::Attr(
            Attr {
                name: a.name,
                value: match a.value {
                    Some(AttrValue::Expr(x)) => Some(AttrValue::Expr(prune_expr(x))),
                    other => other,
                },
            },
        ),
        AttrItem::Spread(x) => AttrItem::Spread(prune_expr(x)),
    }
}

fn prune_expr(x: JsExpr) -> (r: JsExpr)
    ensures
        r == spec_prune_expr(x),
    decreases x,
{
    match x {
        JsExpr::Cond(t, c, a) => JsExpr::Cond(
            Box::new(prune_expr(*t)),
            Box::new(prune_expr(*c)),
            Box::new(prune_expr(*a)),
        ),
        JsExpr::StrictEq(l, r) => JsExpr::StrictEq(
            Box::new(prune_expr(*l)),
            Box::new(prune_expr(*r)),
        ),
        JsExpr::Or(l, r) => JsExpr::Or(Box::new(prune_expr(*l)), Box::new(prune_expr(*r))),
        JsExpr::Element(e) => JsExpr::Element(Box::new(prune_element(*e))),
        other => other,
    }
}

fn prune_children(l: List<JsxChild>) -> (r: List<JsxChild>)
    ensures
        r == spec_prune_children(l),
    decreases l,
{
    match l {
        List::Nil => List::Nil,
        List::Cons(c, rest) => List::Cons(prune_child(c), Box::new(prune_children(*rest))),
    }
}

fn prune_child(c: JsxChild) -> (r: JsxChild)
    ensures
        r == spec_prune_child(c),
    decreases c,
{
    match c {
        JsxChild::Element(e) => JsxChild::Element(Box::new(prune_element(*e))),
        JsxChild::Container(x) => JsxChild::Container(prune_expr(x)),
        JsxChild::Text(t) => JsxChild::Text(t),
    }
}

} // verus!
