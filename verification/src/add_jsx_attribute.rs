//! The attribute-add pass: on elements whose tag is in a configured set,
//! each configured attribute either replaces the first entry of the same
//! effective name, or is inserted at the start or end of the attribute
//! list.  A `literal` string value is carried as an opaque expression
//! fragment rather than a string literal.

use vstd::prelude::*;

use crate::list::List;
use crate::text::{contains_text, eq_text, Text};
use crate::tree::{copy_text, Attr, AttrItem, AttrName, AttrValue, JsExpr, JsLit, JsxChild, JsxElement};

verus! {

/// Where a missing attribute is inserted.
#[derive(Debug, PartialEq, Eq)]
pub enum Position {
    Start,
    End,
}

/// A configured attribute value.
#[derive(Debug, PartialEq, Eq)]
pub enum Value {
    Boolean(bool),
    Number(Text),
    Str(Text),
    Null,
}

/// One configured attribute to add.
#[derive(Debug, PartialEq, Eq)]
pub struct AttributeOption {
    pub name: Text,
    pub value: Option<Value>,
    pub spread: Option<bool>,
    pub literal: Option<bool>,
    pub position: Option<Position>,
}

/// Which elements the pass touches, and what it adds to them.
#[derive(Debug, PartialEq, Eq)]
pub struct Options {
    pub elements: List<Text>,
    pub attributes: List<AttributeOption>,
}

/// The value of the synthesized attribute.  A string value flagged
/// `literal` becomes an expression fragment; a `null` value and a missing
/// value give the boolean-true shorthand.
pub open spec fn spec_attribute_value(opt: AttributeOption) -> Option<AttrValue> {
    match opt.value {
        Some(Value::Boolean(b)) => Some(AttrValue::Expr(JsExpr::Lit(JsLit::Bool(b)))),
        Some(Value::Number(n)) => Some(AttrValue::Expr(JsExpr::Lit(JsLit::Num(n)))),
        Some(Value::Str(s)) => if opt.literal == Some(true) {
            Some(AttrValue::Expr(JsExpr::Code(s)))
        } else {
            Some(AttrValue::Str(s))
        },
        Some(Value::Null) => None,
        None => None,
    }
}

/// The synthesized attribute-list entry for one configured attribute.
pub open spec fn spec_attribute(opt: AttributeOption) -> AttrItem {
    if opt.spread == Some(true) {
        AttrItem::Spread(JsExpr::Ident(opt.name))
    } else {
        AttrItem::Attr(Attr { name: AttrName::Plain(opt.name), value: spec_attribute_value(opt) })
    }
}

/// True when an existing entry has the same effective name as the
/// configured attribute.  A spread option matches only a spread of the
/// same identifier; a plain option matches only a plain-named attribute;
/// a `spread: false` option matches nothing.
pub open spec fn spec_matches(item: AttrItem, opt: AttributeOption) -> bool {
    match opt.spread {
        Some(true) => match item {
            AttrItem::Spread(JsExpr::Ident(n)) => n == opt.name,
            _ => false,
        },
        Some(false) => false,
        None => match item {
            AttrItem::Attr(a) => a.name == AttrName::Plain(opt.name),
            AttrItem::Spread(_) => false,
        },
    }
}

pub open spec fn spec_has_match(l: List<AttrItem>, opt: AttributeOption) -> bool
    decreases l,
{
    match l {
        List::Nil => false,
        List::Cons(item, rest) => spec_matches(item, opt) || spec_has_match(*rest, opt),
    }
}

/// Replaces the first matching entry by the synthesized attribute.
pub open spec fn spec_replace_first(l: List<AttrItem>, opt: AttributeOption) -> List<AttrItem>
    decreases l,
{
    match l {
        List::Nil => List::Nil,
        List::Cons(item, rest) => if spec_matches(item, opt) {
            List::Cons(spec_attribute(opt), rest)
        } else {
            List::Cons(item, Box::new(spec_replace_first(*rest, opt)))
        },
    }
}

/// One configured attribute applied to an attribute list: replace in
/// place when a match exists, else insert at the configured position
/// (the end, when none is configured).
pub open spec fn spec_apply_option(l: List<AttrItem>, opt: AttributeOption) -> List<AttrItem> {
    if spec_has_match(l, opt) {
        spec_replace_first(l, opt)
    } else {
        match opt.position {
            Some(Position::Start) => List::Cons(spec_attribute(opt), Box::new(l)),
            _ => l.push_back(spec_attribute(opt)),
        }
    }
}

/// All configured attributes applied in order.
pub open spec fn spec_apply_options(l: List<AttrItem>, opts: List<AttributeOption>) -> List<AttrItem>
    decreases opts,
{
    match opts {
        List::Nil => l,
        List::Cons(o, rest) => spec_apply_options(spec_apply_option(l, o), *rest),
    }
}

/// The pass over a whole element.
pub open spec fn spec_add_elem(e: JsxElement, opts: Options) -> JsxElement
    decreases e,
{
    let walked = spec_add_items(e.attrs, opts);
    JsxElement {
        name: e.name,
        attrs: if opts.elements.contains(e.name) {
            spec_apply_options(walked, opts.attributes)
        } else {
            walked
        },
        children: spec_add_children(e.children, opts),
        self_closing: e.self_closing,
    }
}

pub open spec fn spec_add_items(l: List<AttrItem>, opts: Options) -> List<AttrItem>
    decreases l,
{
    match l {
        List::Nil => List::Nil,
        List::Cons(item, rest) => List::Cons(
            spec_add_item(item, opts),
            Box::new(spec_add_items(*rest, opts)),
        ),
    }
}

pub open spec fn spec_add_item(item: AttrItem, opts: Options) -> AttrItem
    decreases item,
{
    match item {
        AttrItem::Attr(a) => AttrItem::Attr(
            Attr {
                name: a.name,
                value: match a.value {
                    Some(AttrValue::Expr(x)) => Some(AttrValue::Expr(spec_add_expr(x, opts))),
                    other => other,
                },
            },
        ),
        AttrItem::Spread(x) => AttrItem::Spread(spec_add_expr(x, opts)),
    }
}

pub open spec fn spec_add_expr(x: JsExpr, opts: Options) -> JsExpr
    decreases x,
{
    match x {
        JsExpr::Cond(t, c, a) => JsExpr::Cond(
            Box::new(spec_add_expr(*t, opts)),
            Box::new(spec_add_expr(*c, opts)),
            Box::new(spec_add_expr(*a, opts)),
        ),
        JsExpr::StrictEq(l, r) => JsExpr::StrictEq(
            Box::new(spec_add_expr(*l, opts)),
            Box::new(spec_add_expr(*r, opts)),
        ),
        JsExpr::Or(l, r) => JsExpr::Or(
            Box::new(spec_add_expr(*l, opts)),
            Box::new(spec_add_expr(*r, opts)),
        ),
        JsExpr::Element(e) => JsExpr::Element(Box::new(spec_add_elem(*e, opts))),
        other => other,
    }
}

pub open spec fn spec_add_children(l: List<JsxChild>, opts: Options) -> List<JsxChild>
    decreases l,
{
    match l {
        List::Nil => List::Nil,
        List::Cons(c, rest) => List::Cons(
            spec_add_child(c, opts),
            Box::new(spec_add_children(*rest, opts)),
        ),
    }
}

pub open spec fn spec_add_child(c: JsxChild, opts: Options) -> JsxChild
    decreases c,
{
    match c {
        JsxChild::Element(e) => JsxChild::Element(Box::new(spec_add_elem(*e, opts))),
        JsxChild::Container(x) => JsxChild::Container(spec_add_expr(x, opts)),
        JsxChild::Text(t) => JsxChild::Text(t),
    }
}

/// Builds the synthesized value of one configured attribute.
fn attribute_value(opt: &AttributeOption) -> (r: Option<AttrValue>)
    ensures
        r == spec_attribute_value(*opt),
{
    match &opt.value {
        Some(Value::Boolean(b)) => Some(AttrValue::Expr(JsExpr::Lit(JsLit::Bool(*b)))),
        Some(Value::Number(n)) => Some(AttrValue::Expr(JsExpr::Lit(JsLit::Num(copy_text(n))))),
        Some(Value::Str(s)) => {
            let literal = match opt.literal {
                Some(true) => true,
                _ => false,
            };
            if literal {
                Some(AttrValue::Expr(JsExpr::Code(copy_text(s))))
            } else {
                Some(AttrValue::Str(copy_text(s)))
            }
        }
        Some(Value::Null) => None,
        None => None,
    }
}

/// Builds the synthesized attribute-list entry.
fn attribute(opt: &AttributeOption) -> (r: AttrItem)
    ensures
        r == spec_attribute(*opt),
{
    let spread = match opt.spread {
        Some(true) => true,
        _ => false,
    };
    if spread {
        AttrItem::Spread(JsExpr::Ident(copy_text(&opt.name)))
    } else {
        AttrItem::Attr(Attr { name: AttrName::Plain(copy_text(&opt.name)), value: attribute_value(opt) })
    }
}

/// Decides whether an existing entry matches the configured attribute.
fn matches_option(item: &AttrItem, opt: &AttributeOption) -> (r: bool)
    ensures
        r == spec_matches(*item, *opt),
{
    match opt.spread {
        Some(true) => match item {
            AttrItem::Spread(JsExpr::Ident(n)) => eq_text(n, &opt.name),
            _ => false,
        },
        Some(false) => false,
        None => match item {
            AttrItem::Attr(a) => match &a.name {
                AttrName::Plain(n) => eq_text(n, &opt.name),
                AttrName::Namespaced(_, _) => false,
            },
            AttrItem::Spread(_) => false,
        },
    }
}

fn has_match(l: &List<AttrItem>, opt: &AttributeOption) -> (r: bool)
    ensures
        r == spec_has_match(*l, *opt),
    decreases *l,
{
    match l {
        List::Nil => false,
        List::Cons(item, rest) => {
            if matches_option(item, opt) {
                true
            } else {
                has_match(rest, opt)
            }
        }
    }
}

fn replace_first(l: List<AttrItem>, opt: &AttributeOption) -> (r: List<AttrItem>)
    ensures
        r == spec_replace_first(l, *opt),
    decreases l,
{
    match l {
        List::Nil => List::Nil,
        List::Cons(item, rest) => {
            if matches_option(&item, opt) {
                List::Cons(attribute(opt), rest)
            } else {
                List::Cons(item, Box::new(replace_first(*rest, opt)))
            }
        }
    }
}

fn push_back_item(l: List<AttrItem>, item: AttrItem) -> (r: List<AttrItem>)
    ensures
        r == l.push_back(item),
    decreases l,
{
    match l {
        List::Nil => List::Cons(item, Box::new(List::Nil)),
        List::Cons(x, rest) => List::Cons(x, Box::new(push_back_item(*rest, item))),
    }
}

fn apply_option(l: List<AttrItem>, opt: &AttributeOption) -> (r: List<AttrItem>)
    ensures
        r == spec_apply_option(l, *opt),
{
    if has_match(&l, opt) {
        replace_first(l, opt)
    } else {
        let item = attribute(opt);
        match opt.position {
            Some(Position::Start) => List::Cons(item, Box::new(l)),
            _ => push_back_item(l, item),
        }
    }
}

fn apply_options(l: List<AttrItem>, opts: &List<AttributeOption>) -> (r: List<AttrItem>)
    ensures
        r == spec_apply_options(l, *opts),
    decreases *opts,
{
    match opts {
        List::Nil => l,
        List::Cons(o, rest) => {
            let l1 = apply_option(l, o);
            apply_options(l1, rest)
        }
    }
}

/// Applies the pass to one element and everything below it.
pub fn add_to_element(e: JsxElement, opts: &Options) -> (r: JsxElement)
    ensures
        r == spec_add_elem(e, *opts),
    decreases e,
{
    let JsxElement { name, attrs, children, self_closing } = e;
    let walked = add_items(attrs, opts);
    let attrs = if contains_text(&opts.elements, &name) {
        apply_options(walked, &opts.attributes)
    } else {
        walked
    };
    JsxElement { name, attrs, children: add_children(children, opts), self_closing }
}

fn add_items(l: List<AttrItem>, opts: &Options) -> (r: List<AttrItem>)
    ensures
        r == spec_add_items(l, *opts),
    decreases l,
{
    match l {
        List::Nil => List::Nil,
        List::Cons(item, rest) => List::Cons(add_item(item, opts), Box::new(add_items(*rest, opts))),
    }
}

fn add_item(item: AttrItem, opts: &Options) -> (r: AttrItem)
    ensures
        r == spec_add_item(item, *opts),
    decreases item,
{
    match item {
        AttrItem::Attr(a) => AttrItem::Attr(
            Attr {
                name: a.name,
                value: match a.value {
                    Some(AttrValue::Expr(x)) => Some(AttrValue::Expr(add_expr(x, opts))),
                    other => other,
                },
            },
        ),
        AttrItem::Spread(x) => AttrItem::Spread(add_expr(x, opts)),
    }
}

fn add_expr(x: JsExpr, opts: &Options) -> (r: JsExpr)
    ensures
        r == spec_add_expr(x, *opts),
    decreases x,
{
    match x {
        JsExpr::Cond(t, c, a) => JsExpr::Cond(
            Box::new(add_expr(*t, opts)),
            Box::new(add_expr(*c, opts)),
            Box::new(add_expr(*a, opts)),
        ),
        JsExpr::StrictEq(l, r) => JsExpr::StrictEq(
            Box::new(add_expr(*l, opts)),
            Box::new(add_expr(*r, opts)),
        ),
        JsExpr::Or(l, r) => JsExpr::Or(
            Box::new(add_expr(*l, opts)),
            Box::new(add_expr(*r, opts)),
        ),
        JsExpr::Element(e) => JsExpr::Element(Box::new(add_to_element(*e, opts))),
        other => other,
    }
}

fn add_children(l: List<JsxChild>, opts: &Options) -> (r: List<JsxChild>)
    ensures
        r == spec_add_children(l, *opts),
    decreases l,
{
    match l {
        List::Nil => List::Nil,
        List::Cons(c, rest) => List::Cons(add_child(c, opts), Box::new(add_children(*rest, opts))),
    }
}

fn add_child(c: JsxChild, opts: &Options) -> (r: JsxChild)
    ensures
        r == spec_add_child(c, *opts),
    decreases c,
{
    match c {
        JsxChild::Element(e) => JsxChild::Element(Box::new(add_to_element(*e, opts))),
        JsxChild::Container(x) => JsxChild::Container(add_expr(x, opts)),
        JsxChild::Text(t) => JsxChild::Text(t),
    }
}

/// An element whose subtree never carries a configured tag is left
/// byte-identical by the attribute-add pass.
pub proof fn lemma_add_untagged_identity(e: JsxElement, opts: Options)
    requires
        crate::remove_jsx_attribute::spec_no_tagged_elem(e, opts.elements),
    ensures
        spec_add_elem(e, opts) == e,
    decreases e,
{
    lemma_add_untagged_items(e.attrs, opts);
    lemma_add_untagged_children(e.children, opts);
}

proof fn lemma_add_untagged_items(l: List<AttrItem>, opts: Options)
    requires
        crate::remove_jsx_attribute::spec_no_tagged_items(l, opts.elements),
    ensures
        spec_add_items(l, opts) == l,
    decreases l,
{
    match l {
        List::Nil => {}
        List::Cons(item, rest) => {
            lemma_add_untagged_item(item, opts);
            lemma_add_untagged_items(*rest, opts);
        }
    }
}

proof fn lemma_add_untagged_item(item: AttrItem, opts: Options)
    requires
        crate::remove_jsx_attribute::spec_no_tagged_item(item, opts.elements),
    ensures
        spec_add_item(item, opts) == item,
    decreases item,
{
    match item {
        AttrItem::Attr(a) => {
            match a.value {
                Some(AttrValue::Expr(x)) => {
                    lemma_add_untagged_expr(x, opts);
                }
                _ => {}
            }
        }
        AttrItem::Spread(x) => {
            lemma_add_untagged_expr(x, opts);
        }
    }
}

proof fn lemma_add_untagged_expr(x: JsExpr, opts: Options)
    requires
        crate::remove_jsx_attribute::spec_no_tagged_expr(x, opts.elements),
    ensures
        spec_add_expr(x, opts) == x,
    decreases x,
{
    match x {
        JsExpr::Cond(t, c, a) => {
            lemma_add_untagged_expr(*t, opts);
            lemma_add_untagged_expr(*c, opts);
            lemma_add_untagged_expr(*a, opts);
        }
        JsExpr::StrictEq(l, r) => {
            lemma_add_untagged_expr(*l, opts);
            lemma_add_untagged_expr(*r, opts);
        }
        JsExpr::Or(l, r) => {
            lemma_add_untagged_expr(*l, opts);
            lemma_add_untagged_expr(*r, opts);
        }
        JsExpr::Element(e) => {
            lemma_add_untagged_identity(*e, opts);
        }
        _ => {}
    }
}

proof fn lemma_add_untagged_children(l: List<JsxChild>, opts: Options)
    requires
        crate::remove_jsx_attribute::spec_no_tagged_children(l, opts.elements),
    ensures
        spec_add_children(l, opts) == l,
    decreases l,
{
    match l {
        List::Nil => {}
        List::Cons(c, rest) => {
            lemma_add_untagged_child(c, opts);
            lemma_add_untagged_children(*rest, opts);
        }
    }
}

proof fn lemma_add_untagged_child(c: JsxChild, opts: Options)
    requires
        crate::remove_jsx_attribute::spec_no_tagged_child(c, opts.elements),
    ensures
        spec_add_child(c, opts) == c,
    decreases c,
{
    match c {
        JsxChild::Element(e) => {
            lemma_add_untagged_identity(*e, opts);
        }
        JsxChild::Container(x) => {
            lemma_add_untagged_expr(x, opts);
        }
        JsxChild::Text(_) => {}
    }
}

} // verus!
