//! The attribute-value-replace pass: every plain string-literal attribute
//! value equal to a configured `value` is replaced by a configured new
//! value.  When several configured entries match the same string, the
//! last one wins.

use vstd::prelude::*;

use crate::list::List;
use crate::text::{eq_text, Text};
use crate::tree::{copy_text, Attr, AttrItem, AttrValue, JsExpr, JsLit, JsxChild, JsxElement};

verus! {

/// The configured replacement value.
#[derive(Debug, PartialEq, Eq)]
pub enum NewValue {
    Boolean(bool),
    Number(Text),
    Str(Text),
}

/// One configured replacement.
#[derive(Debug, PartialEq, Eq)]
pub struct Value {
    pub value: Text,
    pub new_value: NewValue,
    pub literal: Option<bool>,
}

/// The set of configured replacements.
#[derive(Debug, PartialEq, Eq)]
pub struct Options {
    pub values: List<Value>,
}

/// The attribute value a matching replacement produces.  A string new
/// value flagged `literal` becomes an expression fragment.
pub open spec fn spec_new_value(v: Value) -> Option<AttrValue> {
    match v.new_value {
        NewValue::Str(s) => if v.literal == Some(true) {
            Some(AttrValue::Expr(JsExpr::Code(s)))
        } else {
            Some(AttrValue::Str(s))
        },
        NewValue::Boolean(b) => Some(AttrValue::Expr(JsExpr::Lit(JsLit::Bool(b)))),
        NewValue::Number(n) => Some(AttrValue::Expr(JsExpr::Lit(JsLit::Num(n)))),
    }
}

/// Folds the configured replacements over one original string value:
/// each entry whose `value` equals the original overwrites the result.
pub open spec fn spec_fold_values(s: Text, cur: Option<AttrValue>, values: List<Value>) -> Option<
    AttrValue,
>
    decreases values,
{
    match values {
        List::Nil => cur,
        List::Cons(v, rest) => spec_fold_values(
            s,
            if v.value == s {
                spec_new_value(v)
            } else {
                cur
            },
            *rest,
        ),
    }
}

/// The pass over a whole element.
pub open spec fn spec_replace_elem(e: JsxElement, opts: Options) -> JsxElement
    decreases e,
{
    JsxElement {
        name: e.name,
        attrs: spec_replace_items(e.attrs, opts),
        children: spec_replace_children(e.children, opts),
        self_closing: e.self_closing,
    }
}

pub open spec fn spec_replace_items(l: List<AttrItem>, opts: Options) -> List<AttrItem>
    decreases l,
{
    match l {
        List::Nil => List::Nil,
        List::Cons(item, rest) => List::Cons(
            spec_replace_item(item, opts),
            Box::new(spec_replace_items(*rest, opts)),
        ),
    }
}

pub open spec fn spec_replace_item(item: AttrItem, opts: Options) -> AttrItem
    decreases item,
{
    match item {
        AttrItem::Attr(a) => AttrItem::Attr(
            Attr {
                name: a.name,
                value: match a.value {
                    Some(AttrValue::Str(s)) => spec_fold_values(
                        s,
                        Some(AttrValue::Str(s)),
                        opts.values,
                    ),
                    Some(AttrValue::Expr(x)) => Some(AttrValue::Expr(spec_replace_expr(x, opts))),
                    None => None,
                },
            },
        ),
        AttrItem::Spread(x) => AttrItem::Spread(spec_replace_expr(x, opts)),
    }
}

pub open spec fn spec_replace_expr(x: JsExpr, opts: Options) -> JsExpr
    decreases x,
{
    match x {
        JsExpr::Cond(t, c, a) => JsExpr::Cond(
            Box::new(spec_replace_expr(*t, opts)),
            Box::new(spec_replace_expr(*c, opts)),
            Box::new(spec_replace_expr(*a, opts)),
        ),
        JsExpr::StrictEq(l, r) => JsExpr::StrictEq(
            Box::new(spec_replace_expr(*l, opts)),
            Box::new(spec_replace_expr(*r, opts)),
        ),
        JsExpr::Or(l, r) => JsExpr::Or(
            Box::new(spec_replace_expr(*l, opts)),
            Box::new(spec_replace_expr(*r, opts)),
        ),
        JsExpr::Element(e) => JsExpr::Element(Box::new(spec_replace_elem(*e, opts))),
        other => other,
    }
}

pub open spec fn spec_replace_children(l: List<JsxChild>, opts: Options) -> List<JsxChild>
    decreases l,
{
    match l {
        List::Nil => List::Nil,
        List::Cons(c, rest) => List::Cons(
            spec_replace_child(c, opts),
            Box::new(spec_replace_children(*rest, opts)),
        ),
    }
}

pub open spec fn spec_replace_child(c: JsxChild, opts: Options) -> JsxChild
    decreases c,
{
    match c {
        JsxChild::Element(e) => JsxChild::Element(Box::new(spec_replace_elem(*e, opts))),
        JsxChild::Container(x) => JsxChild::Container(spec_replace_expr(x, opts)),
        JsxChild::Text(t) => JsxChild::Text(t),
    }
}

fn new_value(v: &Value) -> (r: Option<AttrValue>)
    ensures
        r == spec_new_value(*v),
{
    match &v.new_value {
        NewValue::Str(s) => {
            let literal = match v.literal {
                Some(true) => true,
                _ => false,
            };
            if literal {
                Some(AttrValue::Expr(JsExpr::Code(copy_text(s))))
            } else {
                Some(AttrValue::Str(copy_text(s)))
            }
        }
        NewValue::Boolean(b) => Some(AttrValue::Expr(JsExpr::Lit(JsLit::Bool(*b)))),
        NewValue::Number(n) => Some(AttrValue::Expr(JsExpr::Lit(JsLit::Num(copy_text(n))))),
    }
}

fn fold_values(s: &Text, cur: Option<AttrValue>, values: &List<Value>) -> (r: Option<AttrValue>)
    ensures
        r == spec_fold_values(*s, cur, *values),
    decreases *values,
{
    match values {
        List::Nil => cur,
        List::Cons(v, rest) => {
            let cur = if eq_text(&v.value, s) {
                new_value(v)
            } else {
                cur
            };
            fold_values(s, cur, rest)
        }
    }
}

/// Applies the pass to one element and everything below it.
pub fn replace_in_element(e: JsxElement, opts: &Options) -> (r: JsxElement)
    ensures
        r == spec_replace_elem(e, *opts),
    decreases e,
{
    let JsxElement { name, attrs, children, self_closing } = e;
    JsxElement {
        name,
        attrs: replace_items(attrs, opts),
        children: replace_children(children, opts),
        self_closing,
    }
}

fn replace_items(l: List<AttrItem>, opts: &Options) -> (r: List<AttrItem>)
    ensures
        r == spec_replace_items(l, *opts),
    decreases l,
{
    match l {
        List::Nil => List::Nil,
        List::Cons(item, rest) => List::Cons(
            replace_item(item, opts),
            Box::new(replace_items(*rest, opts)),
        ),
    }
}

fn replace_item(item: AttrItem, opts: &Options) -> (r: AttrItem)
    ensures
        r == spec_replace_item(item, *opts),
    decreases item,
{
    match item {
        AttrItem::Attr(a) => AttrItem::Attr(
            Attr {
                name: a.name,
                value: match a.value {
                    Some(AttrValue::Str(s)) => {
                        let cur = Some(AttrValue::Str(copy_text(&s)));
                        fold_values(&s, cur, &opts.values)
                    }
                    Some(AttrValue::Expr(x)) => Some(AttrValue::Expr(replace_expr(x, opts))),
                    None => None,
                },
            },
        ),
        AttrItem::Spread(x) => AttrItem::Spread(replace_expr(x, opts)),
    }
}

fn replace_expr(x: JsExpr, opts: &Options) -> (r: JsExpr)
    ensures
        r == spec_replace_expr(x, *opts),
    decreases x,
{
    match x {
        JsExpr::Cond(t, c, a) => JsExpr::Cond(
            Box::new(replace_expr(*t, opts)),
            Box::new(replace_expr(*c, opts)),
            Box::new(replace_expr(*a, opts)),
        ),
        JsExpr::StrictEq(l, r) => JsExpr::StrictEq(
            Box::new(replace_expr(*l, opts)),
            Box::new(replace_expr(*r, opts)),
        ),
        JsExpr::Or(l, r) => JsExpr::Or(
            Box::new(replace_expr(*l, opts)),
            Box::new(replace_expr(*r, opts)),
        ),
        JsExpr::Element(e) => JsExpr::Element(Box::new(replace_in_element(*e, opts))),
        other => other,
    }
}

fn replace_children(l: List<JsxChild>, opts: &Options) -> (r: List<JsxChild>)
    ensures
        r == spec_replace_children(l, *opts),
    decreases l,
{
    match l {
        List::Nil => List::Nil,
        List::Cons(c, rest) => List::Cons(
            replace_child(c, opts),
            Box::new(replace_children(*rest, opts)),
        ),
    }
}

fn replace_child(c: JsxChild, opts: &Options) -> (r: JsxChild)
    ensures
        r == spec_replace_child(c, *opts),
    decreases c,
{
    match c {
        JsxChild::Element(e) => JsxChild::Element(Box::new(replace_in_element(*e, opts))),
        JsxChild::Container(x) => JsxChild::Container(replace_expr(x, opts)),
        JsxChild::Text(t) => JsxChild::Text(t),
    }
}

} // verus!
