//! The attribute-remove pass: on elements whose tag is in a configured
//! set, delete every plain-named attribute whose name is in a configured
//! removal set.  Spreads and namespaced attributes are never removed.

use vstd::prelude::*;

use crate::list::List;
use crate::text::{contains_text, Text};
use crate::tree::{Attr, AttrItem, AttrName, AttrValue, JsExpr, JsxChild, JsxElement};

verus! {

/// Which elements the pass touches, and which attribute names it deletes.
#[derive(Debug, PartialEq, Eq)]
pub struct Options {
    pub elements: List<Text>,
    pub attributes: List<Text>,
}

/// True when the pass keeps this entry: spreads and namespaced names
/// always stay; a plain-named attribute stays when its name is not in
/// the removal set.
pub open spec fn spec_keeps(item: AttrItem, names: List<Text>) -> bool {
    match item {
        AttrItem::Attr(a) => match a.name {
            AttrName::Plain(n) => !names.contains(n),
            AttrName::Namespaced(_, _) => true,
        },
        AttrItem::Spread(_) => true,
    }
}

/// The attribute list with the removal set applied.
pub open spec fn spec_filter_attrs(l: List<AttrItem>, names: List<Text>) -> List<AttrItem>
    decreases l,
{
    match l {
        List::Nil => List::Nil,
        List::Cons(item, rest) => {
            let tail = spec_filter_attrs(*rest, names);
            if spec_keeps(item, names) {
                List::Cons(item, Box::new(tail))
            } else {
                tail
            }
        }
    }
}

/// The pass over a whole element: the element's own attribute list is
/// filtered when its tag is configured, and the rewrite recurses through
/// children, attribute values and the elements nested in expressions.
pub open spec fn spec_remove_elem(e: JsxElement, opts: Options) -> JsxElement
    decreases e,
{
    let walked = spec_remove_items(e.attrs, opts);
    JsxElement {
        name: e.name,
        attrs: if opts.elements.contains(e.name) {
            spec_filter_attrs(walked, opts.attributes)
        } else {
            walked
        },
        children: spec_remove_children(e.children, opts),
        self_closing: e.self_closing,
    }
}

pub open spec fn spec_remove_items(l: List<AttrItem>, opts: Options) -> List<AttrItem>
    decreases l,
{
    match l {
        List::Nil => List::Nil,
        List::Cons(item, rest) => List::Cons(
            spec_remove_item(item, opts),
            Box::new(spec_remove_items(*rest, opts)),
        ),
    }
}

pub open spec fn spec_remove_item(item: AttrItem, opts: Options) -> AttrItem
    decreases item,
{
    match item {
        AttrItem::Attr(a) => AttrItem::Attr(
            Attr {
                name: a.name,
                value: match a.value {
                    Some(v) => Some(spec_remove_value(v, opts)),
                    None => None,
                },
            },
        ),
        AttrItem::Spread(x) => AttrItem::Spread(spec_remove_expr(x, opts)),
    }
}

pub open spec fn spec_remove_value(v: AttrValue, opts: Options) -> AttrValue
    decreases v,
{
    match v {
        AttrValue::Str(s) => AttrValue::Str(s),
        AttrValue::Expr(x) => AttrValue::Expr(spec_remove_expr(x, opts)),
    }
}

pub open spec fn spec_remove_expr(x: JsExpr, opts: Options) -> JsExpr
    decreases x,
{
    match x {
        JsExpr::Cond(t, c, a) => JsExpr::Cond(
            Box::new(spec_remove_expr(*t, opts)),
            Box::new(spec_remove_expr(*c, opts)),
            Box::new(spec_remove_expr(*a, opts)),
        ),
        JsExpr::StrictEq(l, r) => JsExpr::StrictEq(
            Box::new(spec_remove_expr(*l, opts)),
            Box::new(spec_remove_expr(*r, opts)),
        ),
        JsExpr::Or(l, r) => JsExpr::Or(
            Box::new(spec_remove_expr(*l, opts)),
            Box::new(spec_remove_expr(*r, opts)),
        ),
        JsExpr::Element(e) => JsExpr::Element(Box::new(spec_remove_elem(*e, opts))),
        other => other,
    }
}

pub open spec fn spec_remove_children(l: List<JsxChild>, opts: Options) -> List<JsxChild>
    decreases l,
{
    match l {
        List::Nil => List::Nil,
        List::Cons(c, rest) => List::Cons(
            spec_remove_child(c, opts),
            Box::new(spec_remove_children(*rest, opts)),
        ),
    }
}

pub open spec fn spec_remove_child(c: JsxChild, opts: Options) -> JsxChild
    decreases c,
{
    match c {
        JsxChild::Element(e) => JsxChild::Element(Box::new(spec_remove_elem(*e, opts))),
        JsxChild::Container(x) => JsxChild::Container(spec_remove_expr(x, opts)),
        JsxChild::Text(t) => JsxChild::Text(t),
    }
}

fn filter_attrs(l: List<AttrItem>, names: &List<Text>) -> (r: List<AttrItem>)
    ensures
        r == spec_filter_attrs(l, *names),
    decreases l,
{
    match l {
        List::Nil => List::Nil,
        List::Cons(item, rest) => {
            let tail = filter_attrs(*rest, names);
            let keep = match &item {
                AttrItem::Attr(a) => match &a.name {
                    AttrName::Plain(n) => !contains_text(names, n),
                    AttrName::Namespaced(_, _) => true,
                },
                AttrItem::Spread(_) => true,
            };
            if keep {
                List::Cons(item, Box::new(tail))
            } else {
                tail
            }
        }
    }
}

/// Applies the pass to one element and everything below it.
pub fn remove_from_element(e: JsxElement, opts: &Options) -> (r: JsxElement)
    ensures
        r == spec_remove_elem(e, *opts),
    decreases e,
{
    let JsxElement { name, attrs, children, self_closing } = e;
    let walked = remove_items(attrs, opts);
    let attrs = if contains_text(&opts.elements, &name) {
        filter_attrs(walked, &opts.attributes)
    } else {
        walked
    };
    JsxElement { name, attrs, children: remove_children(children, opts), self_closing }
}

fn remove_items(l: List<AttrItem>, opts: &Options) -> (r: List<AttrItem>)
    ensures
        r == spec_remove_items(l, *opts),
    decreases l,
{
    match l {
        List::Nil => List::Nil,
        List::Cons(item, rest) => List::Cons(
            remove_item(item, opts),
            Box::new(remove_items(*rest, opts)),
        ),
    }
}

fn remove_item(item: AttrItem, opts: &Options) -> (r: AttrItem)
    ensures
        r == spec_remove_item(item, *opts),
    decreases item,
{
    match item {
        AttrItem::Attr(a) => AttrItem::Attr(
            Attr {
                name: a.name,
                value: match a.value {
                    Some(v) => Some(remove_value(v, opts)),
                    None => None,
                },
            },
        ),
        AttrItem::Spread(x) => AttrItem::Spread(remove_expr(x, opts)),
    }
}

fn remove_value(v: AttrValue, opts: &Options) -> (r: AttrValue)
    ensures
        r == spec_remove_value(v, *opts),
    decreases v,
{
    match v {
        AttrValue::Str(s) => AttrValue::Str(s),
        AttrValue::Expr(x) => AttrValue::Expr(remove_expr(x, opts)),
    }
}

fn remove_expr(x: JsExpr, opts: &Options) -> (r: JsExpr)
    ensures
        r == spec_remove_expr(x, *opts),
    decreases x,
{
    match x {
        JsExpr::Cond(t, c, a) => JsExpr::Cond(
            Box::new(remove_expr(*t, opts)),
            Box::new(remove_expr(*c, opts)),
            Box::new(remove_expr(*a, opts)),
        ),
        JsExpr::StrictEq(l, r) => JsExpr::StrictEq(
            Box::new(remove_expr(*l, opts)),
            Box::new(remove_expr(*r, opts)),
        ),
        JsExpr::Or(l, r) => JsExpr::Or(
            Box::new(remove_expr(*l, opts)),
            Box::new(remove_expr(*r, opts)),
        ),
        JsExpr::Element(e) => JsExpr::Element(Box::new(remove_from_element(*e, opts))),
        other => other,
    }
}

fn remove_children(l: List<JsxChild>, opts: &Options) -> (r: List<JsxChild>)
    ensures
        r == spec_remove_children(l, *opts),
    decreases l,
{
    match l {
        List::Nil => List::Nil,
        List::Cons(c, rest) => List::Cons(
            remove_child(c, opts),
            Box::new(remove_children(*rest, opts)),
        ),
    }
}

fn remove_child(c: JsxChild, opts: &Options) -> (r: JsxChild)
    ensures
        r == spec_remove_child(c, *opts),
    decreases c,
{
    match c {
        JsxChild::Element(e) => JsxChild::Element(Box::new(remove_from_element(*e, opts))),
        JsxChild::Container(x) => JsxChild::Container(remove_expr(x, opts)),
        JsxChild::Text(t) => JsxChild::Text(t),
    }
}

/// A subtree in which no element carries a configured tag is returned
/// unchanged: "no match" is success, not an error.
pub open spec fn spec_no_tagged_elem(e: JsxElement, elements: List<Text>) -> bool
    decreases e,
{
    &&& !elements.contains(e.name)
    &&& spec_no_tagged_items(e.attrs, elements)
    &&& spec_no_tagged_children(e.children, elements)
}

pub open spec fn spec_no_tagged_items(l: List<AttrItem>, elements: List<Text>) -> bool
    decreases l,
{
    match l {
        List::Nil => true,
        List::Cons(item, rest) => spec_no_tagged_item(item, elements)
            && spec_no_tagged_items(*rest, elements),
    }
}

pub open spec fn spec_no_tagged_item(item: AttrItem, elements: List<Text>) -> bool
    decreases item,
{
    match item {
        AttrItem::Attr(a) => match a.value {
            Some(AttrValue::Expr(x)) => spec_no_tagged_expr(x, elements),
            _ => true,
        },
        AttrItem::Spread(x) => spec_no_tagged_expr(x, elements),
    }
}

pub open spec fn spec_no_tagged_expr(x: JsExpr, elements: List<Text>) -> bool
    decreases x,
{
    match x {
        JsExpr::Cond(t, c, a) => spec_no_tagged_expr(*t, elements)
            && spec_no_tagged_expr(*c, elements) && spec_no_tagged_expr(*a, elements),
        JsExpr::StrictEq(l, r) => spec_no_tagged_expr(*l, elements)
            && spec_no_tagged_expr(*r, elements),
        JsExpr::Or(l, r) => spec_no_tagged_expr(*l, elements) && spec_no_tagged_expr(*r, elements),
        JsExpr::Element(e) => spec_no_tagged_elem(*e, elements),
        _ => true,
    }
}

pub open spec fn spec_no_tagged_children(l: List<JsxChild>, elements: List<Text>) -> bool
    decreases l,
{
    match l {
        List::Nil => true,
        List::Cons(c, rest) => spec_no_tagged_child(c, elements)
            && spec_no_tagged_children(*rest, elements),
    }
}

pub open spec fn spec_no_tagged_child(c: JsxChild, elements: List<Text>) -> bool
    decreases c,
{
    match c {
        JsxChild::Element(e) => spec_no_tagged_elem(*e, elements),
        JsxChild::Container(x) => spec_no_tagged_expr(x, elements),
        JsxChild::Text(_) => true,
    }
}

/// An element whose subtree never carries a configured tag is left
/// byte-identical by the attribute-remove pass.
pub proof fn lemma_remove_untagged_identity(e: JsxElement, opts: Options)
    requires
        spec_no_tagged_elem(e, opts.elements),
    ensures
        spec_remove_elem(e, opts) == e,
    decreases e,
{
    lemma_remove_untagged_items(e.attrs, opts);
    lemma_remove_untagged_children(e.children, opts);
}

proof fn lemma_remove_untagged_items(l: List<AttrItem>, opts: Options)
    requires
        spec_no_tagged_items(l, opts.elements),
    ensures
        spec_remove_items(l, opts) == l,
    decreases l,
{
    match l {
        List::Nil => {}
        List::Cons(item, rest) => {
            lemma_remove_untagged_item(item, opts);
            lemma_remove_untagged_items(*rest, opts);
        }
    }
}

proof fn lemma_remove_untagged_item(item: AttrItem, opts: Options)
    requires
        spec_no_tagged_item(item, opts.elements),
    ensures
        spec_remove_item(item, opts) == item,
    decreases item,
{
    match item {
        AttrItem::Attr(a) => {
            match a.value {
                Some(AttrValue::Expr(x)) => {
                    lemma_remove_untagged_expr(x, opts);
                }
                _ => {}
            }
        }
        AttrItem::Spread(x) => {
            lemma_remove_untagged_expr(x, opts);
        }
    }
}

proof fn lemma_remove_untagged_expr(x: JsExpr, opts: Options)
    requires
        spec_no_tagged_expr(x, opts.elements),
    ensures
        spec_remove_expr(x, opts) == x,
    decreases x,
{
    match x {
        JsExpr::Cond(t, c, a) => {
            lemma_remove_untagged_expr(*t, opts);
            lemma_remove_untagged_expr(*c, opts);
            lemma_remove_untagged_expr(*a, opts);
        }
        JsExpr::StrictEq(l, r) => {
            lemma_remove_untagged_expr(*l, opts);
            lemma_remove_untagged_expr(*r, opts);
        }
        JsExpr::Or(l, r) => {
            lemma_remove_untagged_expr(*l, opts);
            lemma_remove_untagged_expr(*r, opts);
        }
        JsExpr::Element(e) => {
            lemma_remove_untagged_identity(*e, opts);
        }
        _ => {}
    }
}

proof fn lemma_remove_untagged_children(l: List<JsxChild>, opts: Options)
    requires
        spec_no_tagged_children(l, opts.elements),
    ensures
        spec_remove_children(l, opts) == l,
    decreases l,
{
    match l {
        List::Nil => {}
        List::Cons(c, rest) => {
            lemma_remove_untagged_child(c, opts);
            lemma_remove_untagged_children(*rest, opts);
        }
    }
}

proof fn lemma_remove_untagged_child(c: JsxChild, opts: Options)
    requires
        spec_no_tagged_child(c, opts.elements),
    ensures
        spec_remove_child(c, opts) == c,
    decreases c,
{
    match c {
        JsxChild::Element(e) => {
            lemma_remove_untagged_identity(*e, opts);
        }
        JsxChild::Container(x) => {
            lemma_remove_untagged_expr(x, opts);
        }
        JsxChild::Text(_) => {}
    }
}

} // verus!
