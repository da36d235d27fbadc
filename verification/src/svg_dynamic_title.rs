//! The title/description merger: injects a conditional accessibility
//! element into a root `svg`/`Svg` element, merging with an existing
//! child of the same tag.
//!
//! With no existing child (or an existing child with no children), the
//! synthesized container is `{tag ? <tag id={tagId}>{tag}</tag> : null}`;
//! an existing child with children is preserved behind a
//! `tag === undefined` test, its attributes carried onto both branches,
//! and an existing string `id` kept as the fallback of `tagId || ...`.

use vstd::prelude::*;

use crate::list::List;
use crate::text::{contains_text, eq_text, list_of, text, Text};
use crate::tree::{
    copy_attr_items, copy_text, Attr, AttrItem, AttrName, AttrValue, JsExpr, JsLit, JsxChild,
    JsxElement,
};

verus! {

/// The tag to inject: `title` or `desc`.
#[derive(Debug, PartialEq, Eq)]
pub struct Options {
    pub tag: Text,
}

/// The pass with its fixed set of root tags.
#[derive(Debug, PartialEq, Eq)]
pub struct DynamicTitleVisitor {
    pub elements: List<Text>,
    pub options: Options,
}

/// The visitor a configuration denotes.
pub open spec fn spec_visitor(options: Options) -> DynamicTitleVisitor {
    DynamicTitleVisitor {
        elements: List::Cons(
            list_of("svg"@),
            Box::new(List::Cons(list_of("Svg"@), Box::new(List::Nil))),
        ),
        options,
    }
}

impl DynamicTitleVisitor {
    /// Builds the pass from its configuration.
    pub fn new(options: Options) -> (r: DynamicTitleVisitor)
        ensures
            r == spec_visitor(options),
    {
        let mut elements: List<Text> = List::Nil;
        elements = List::Cons(text("Svg"), Box::new(elements));
        elements = List::Cons(text("svg"), Box::new(elements));
        DynamicTitleVisitor { elements, options }
    }
}

/// The `tagId` identifier derived from the tag.
pub open spec fn spec_tag_id(tag: Text) -> Text {
    tag.append(list_of("Id"@))
}

/// The synthesized `id={tagId}` attribute.
pub open spec fn spec_tag_id_attribute(tag: Text) -> AttrItem {
    AttrItem::Attr(
        Attr {
            name: AttrName::Plain(list_of("id"@)),
            value: Some(AttrValue::Expr(JsExpr::Ident(spec_tag_id(tag)))),
        },
    )
}

/// True when the entry is a plain attribute named `id`.
pub open spec fn spec_is_id_attr(item: AttrItem) -> bool {
    match item {
        AttrItem::Attr(a) => a.name == AttrName::Plain(list_of("id"@)),
        AttrItem::Spread(_) => false,
    }
}

pub open spec fn spec_has_id_attr(l: List<AttrItem>) -> bool
    decreases l,
{
    match l {
        List::Nil => false,
        List::Cons(item, rest) => spec_is_id_attr(item) || spec_has_id_attr(*rest),
    }
}

/// The merged value of an existing `id` attribute: a string literal is
/// kept as the fallback of `tagId || ...`; anything else is overwritten
/// by `tagId`.
pub open spec fn spec_merge_id_value(tag: Text, old: Option<AttrValue>) -> AttrValue {
    match old {
        Some(AttrValue::Str(s)) => AttrValue::Expr(
            JsExpr::Or(
                Box::new(JsExpr::Ident(spec_tag_id(tag))),
                Box::new(JsExpr::Lit(JsLit::Str(s))),
            ),
        ),
        _ => AttrValue::Expr(JsExpr::Ident(spec_tag_id(tag))),
    }
}

/// Replaces the first `id` attribute's value by the merged one.
pub open spec fn spec_merge_id(l: List<AttrItem>, tag: Text) -> List<AttrItem>
    decreases l,
{
    match l {
        List::Nil => List::Nil,
        List::Cons(item, rest) => if spec_is_id_attr(item) {
            match item {
                AttrItem::Attr(a) => List::Cons(
                    AttrItem::Attr(
                        Attr { name: a.name, value: Some(spec_merge_id_value(tag, a.value)) },
                    ),
                    rest,
                ),
                AttrItem::Spread(_) => List::Cons(item, rest),
            }
        } else {
            List::Cons(item, Box::new(spec_merge_id(*rest, tag)))
        },
    }
}

/// The existing element's attributes with the synthesized id merged in:
/// an existing `id` is rewritten in place, a missing one is appended.
pub open spec fn spec_add_tag_attribute(tag: Text, attrs: List<AttrItem>) -> List<AttrItem> {
    if spec_has_id_attr(attrs) {
        spec_merge_id(attrs, tag)
    } else {
        attrs.push_back(spec_tag_id_attribute(tag))
    }
}

/// The synthesized `<tag ...attrs>{tag}</tag>` element.
pub open spec fn spec_tag_element(tag: Text, attrs: List<AttrItem>) -> JsxElement {
    JsxElement {
        name: tag,
        attrs,
        children: List::Cons(
            JsxChild::Container(JsExpr::Ident(tag)),
            Box::new(List::Nil),
        ),
        self_closing: false,
    }
}

/// The conditional `tag ? <tag ...attrs>{tag}</tag> : null`.
pub open spec fn spec_conditional_tag(tag: Text, attrs: List<AttrItem>) -> JsExpr {
    JsExpr::Cond(
        Box::new(JsExpr::Ident(tag)),
        Box::new(JsExpr::Element(Box::new(spec_tag_element(tag, attrs)))),
        Box::new(JsExpr::Lit(JsLit::Null)),
    )
}

/// The container expression that replaces or precedes the existing
/// child, as the module header describes.
pub open spec fn spec_get_tag_element(existing: Option<JsxElement>, tag: Text) -> JsExpr {
    match existing {
        None => spec_conditional_tag(
            tag,
            List::Cons(spec_tag_id_attribute(tag), Box::new(List::Nil)),
        ),
        Some(el) => {
            let merged = spec_add_tag_attribute(tag, el.attrs);
            let conditional = spec_conditional_tag(tag, merged);
            if el.children == List::<JsxChild>::Nil {
                conditional
            } else {
                JsExpr::Cond(
                    Box::new(
                        JsExpr::StrictEq(
                            Box::new(JsExpr::Ident(tag)),
                            Box::new(JsExpr::Ident(list_of("undefined"@))),
                        ),
                    ),
                    Box::new(
                        JsExpr::Element(
                            Box::new(
                                JsxElement {
                                    name: el.name,
                                    attrs: merged,
                                    children: el.children,
                                    self_closing: el.self_closing,
                                },
                            ),
                        ),
                    ),
                    Box::new(conditional),
                )
            }
        }
    }
}

/// True when the child is an element with the configured tag.
pub open spec fn spec_is_tag_child(c: JsxChild, tag: Text) -> bool {
    match c {
        JsxChild::Element(e) => (*e).name == tag,
        _ => false,
    }
}

pub open spec fn spec_has_tag_child(l: List<JsxChild>, tag: Text) -> bool
    decreases l,
{
    match l {
        List::Nil => false,
        List::Cons(c, rest) => spec_is_tag_child(c, tag) || spec_has_tag_child(*rest, tag),
    }
}

/// Replaces the first child with the configured tag by the merged
/// container.
pub open spec fn spec_replace_tag_child(l: List<JsxChild>, tag: Text) -> List<JsxChild>
    decreases l,
{
    match l {
        List::Nil => List::Nil,
        List::Cons(c, rest) => if spec_is_tag_child(c, tag) {
            match c {
                JsxChild::Element(e) => List::Cons(
                    JsxChild::Container(spec_get_tag_element(Some(*e), tag)),
                    rest,
                ),
                _ => List::Cons(c, rest),
            }
        } else {
            List::Cons(c, Box::new(spec_replace_tag_child(*rest, tag)))
        },
    }
}

/// The pass over a root element: only `svg`/`Svg` elements are touched;
/// an existing tag-matching child is replaced in place, otherwise the
/// synthesized container becomes the first child.  Children are not
/// visited recursively.
pub open spec fn spec_title_elem(e: JsxElement, v: DynamicTitleVisitor) -> JsxElement {
    if v.elements.contains(e.name) {
        JsxElement {
            name: e.name,
            attrs: e.attrs,
            children: if spec_has_tag_child(e.children, v.options.tag) {
                spec_replace_tag_child(e.children, v.options.tag)
            } else {
                List::Cons(
                    JsxChild::Container(spec_get_tag_element(None, v.options.tag)),
                    Box::new(e.children),
                )
            },
            self_closing: e.self_closing,
        }
    } else {
        e
    }
}

/// Merge on an element with no existing tag-matching child inserts
/// exactly one new child, the synthesized container, in front of the
/// unchanged children.
pub proof fn lemma_merge_inserts_one(e: JsxElement, v: DynamicTitleVisitor)
    requires
        v.elements.contains(e.name),
        !spec_has_tag_child(e.children, v.options.tag),
    ensures
        spec_title_elem(e, v).children == List::Cons(
            JsxChild::Container(spec_get_tag_element(None, v.options.tag)),
            Box::new(e.children),
        ),
        spec_title_elem(e, v).children.len() == e.children.len() + 1,
{
}

proof fn lemma_replace_no_match_identity(l: List<JsxChild>, tag: Text)
    requires
        !spec_has_tag_child(l, tag),
    ensures
        spec_replace_tag_child(l, tag) == l,
    decreases l,
{
    match l {
        List::Nil => {}
        List::Cons(_, rest) => {
            lemma_replace_no_match_identity(*rest, tag);
        }
    }
}

proof fn lemma_replace_keeps_other_tag(l: List<JsxChild>, t1: Text, t2: Text)
    requires
        t1 != t2,
    ensures
        spec_has_tag_child(spec_replace_tag_child(l, t1), t2) == spec_has_tag_child(l, t2),
    decreases l,
{
    match l {
        List::Nil => {}
        List::Cons(c, rest) => {
            if spec_is_tag_child(c, t1) {
            } else {
                lemma_replace_keeps_other_tag(*rest, t1, t2);
            }
        }
    }
}

proof fn lemma_replace_commutes(l: List<JsxChild>, t1: Text, t2: Text)
    requires
        t1 != t2,
    ensures
        spec_replace_tag_child(spec_replace_tag_child(l, t1), t2) == spec_replace_tag_child(
            spec_replace_tag_child(l, t2),
            t1,
        ),
    decreases l,
{
    match l {
        List::Nil => {}
        List::Cons(c, rest) => {
            if spec_is_tag_child(c, t1) {
            } else if spec_is_tag_child(c, t2) {
            } else {
                lemma_replace_commutes(*rest, t1, t2);
            }
        }
    }
}

/// Commutativity of the two merges: with distinct tags, and an existing
/// child for at least one of them, running the title merge and then the
/// description merge gives the same element as the other order.  When
/// neither tag has an existing child the two synthesized containers are
/// both inserted in front, so the orders differ exactly in which of the
/// two comes first.
pub proof fn lemma_merges_commute(e: JsxElement, t1: Text, t2: Text)
    requires
        t1 != t2,
        spec_has_tag_child(e.children, t1) || spec_has_tag_child(e.children, t2),
    ensures
        spec_title_elem(
            spec_title_elem(e, spec_visitor(Options { tag: t1 })),
            spec_visitor(Options { tag: t2 }),
        ) == spec_title_elem(
            spec_title_elem(e, spec_visitor(Options { tag: t2 })),
            spec_visitor(Options { tag: t1 }),
        ),
{
    let v1 = spec_visitor(Options { tag: t1 });
    let v2 = spec_visitor(Options { tag: t2 });
    if v1.elements.contains(e.name) {
        let has1 = spec_has_tag_child(e.children, t1);
        let has2 = spec_has_tag_child(e.children, t2);
        if has1 && has2 {
            lemma_replace_keeps_other_tag(e.children, t1, t2);
            lemma_replace_keeps_other_tag(e.children, t2, t1);
            lemma_replace_commutes(e.children, t1, t2);
        } else if has1 {
            lemma_replace_keeps_other_tag(e.children, t1, t2);
            let after1 = spec_replace_tag_child(e.children, t1);
            let inserted = JsxChild::Container(spec_get_tag_element(None, t2));
            assert(spec_title_elem(spec_title_elem(e, v1), v2).children == List::Cons(
                inserted,
                Box::new(after1),
            ));
            assert(!spec_is_tag_child(inserted, t1));
            assert(spec_replace_tag_child(
                List::Cons(inserted, Box::new(e.children)),
                t1,
            ) == List::Cons(inserted, Box::new(after1)));
        } else {
            lemma_replace_keeps_other_tag(e.children, t2, t1);
            let after2 = spec_replace_tag_child(e.children, t2);
            let inserted = JsxChild::Container(spec_get_tag_element(None, t1));
            assert(spec_title_elem(spec_title_elem(e, v2), v1).children == List::Cons(
                inserted,
                Box::new(after2),
            ));
            assert(!spec_is_tag_child(inserted, t2));
            assert(spec_replace_tag_child(
                List::Cons(inserted, Box::new(e.children)),
                t2,
            ) == List::Cons(inserted, Box::new(after2)));
        }
    }
}

fn tag_id(tag: &Text) -> (r: Text)
    ensures
        r == spec_tag_id(*tag),
{
    crate::text::append_list(copy_text(tag), text("Id"))
}

fn tag_id_attribute(tag: &Text) -> (r: AttrItem)
    ensures
        r == spec_tag_id_attribute(*tag),
{
    AttrItem::Attr(
        Attr {
            name: AttrName::Plain(text("id")),
            value: Some(AttrValue::Expr(JsExpr::Ident(tag_id(tag)))),
        },
    )
}

fn is_id_attr(item: &AttrItem) -> (r: bool)
    ensures
        r == spec_is_id_attr(*item),
{
    match item {
        AttrItem::Attr(a) => match &a.name {
            AttrName::Plain(n) => eq_text(n, &text("id")),
            AttrName::Namespaced(_, _) => false,
        },
        AttrItem::Spread(_) => false,
    }
}

fn has_id_attr(l: &List<AttrItem>) -> (r: bool)
    ensures
        r == spec_has_id_attr(*l),
    decreases *l,
{
    match l {
        List::Nil => false,
        List::Cons(item, rest) => {
            if is_id_attr(item) {
                true
            } else {
                has_id_attr(rest)
            }
        }
    }
}

fn merge_id(l: List<AttrItem>, tag: &Text) -> (r: List<AttrItem>)
    ensures
        r == spec_merge_id(l, *tag),
    decreases l,
{
    match l {
        List::Nil => List::Nil,
        List::Cons(item, rest) => {
            if is_id_attr(&item) {
                match item {
                    AttrItem::Attr(a) => {
                        let value = match a.value {
                            Some(AttrValue::Str(s)) => AttrValue::Expr(
                                JsExpr::Or(
                                    Box::new(JsExpr::Ident(tag_id(tag))),
                                    Box::new(JsExpr::Lit(JsLit::Str(s))),
                                ),
                            ),
                            _ => AttrValue::Expr(JsExpr::Ident(tag_id(tag))),
                        };
                        List::Cons(
                            AttrItem::Attr(Attr { name: a.name, value: Some(value) }),
                            rest,
                        )
                    }
                    AttrItem::Spread(x) => List::Cons(AttrItem::Spread(x), rest),
                }
            } else {
                List::Cons(item, Box::new(merge_id(*rest, tag)))
            }
        }
    }
}

fn push_back_item(l: List<AttrItem>, item: AttrItem) -> (r: List<AttrItem>)
    ensures
        r == l.push_back(item),
    decreases l,
{
    match l {
        List::Nil => List::Cons(item, Box::new(List::Nil)),
        List::Cons(x, rest) => List::Cons(x, Box::new(push_back_item(*rest, item))),
    }
}

/// Merges the synthesized id into the existing element's attributes.
pub fn add_tag_attribute(tag: &Text, attrs: List<AttrItem>) -> (r: List<AttrItem>)
    ensures
        r == spec_add_tag_attribute(*tag, attrs),
{
    if has_id_attr(&attrs) {
        merge_id(attrs, tag)
    } else {
        push_back_item(attrs, tag_id_attribute(tag))
    }
}

fn conditional_tag(tag: &Text, attrs: List<AttrItem>) -> (r: JsExpr)
    ensures
        r == spec_conditional_tag(*tag, attrs),
{
    JsExpr::Cond(
        Box::new(JsExpr::Ident(copy_text(tag))),
        Box::new(
            JsExpr::Element(
                Box::new(
                    JsxElement {
                        name: copy_text(tag),
                        attrs,
                        children: List::Cons(
                            JsxChild::Container(JsExpr::Ident(copy_text(tag))),
                            Box::new(List::Nil),
                        ),
                        self_closing: false,
                    },
                ),
            ),
        ),
        Box::new(JsExpr::Lit(JsLit::Null)),
    )
}

/// Builds the container expression for one merge.
pub fn get_tag_element(existing: Option<JsxElement>, tag: &Text) -> (r: JsExpr)
    ensures
        r == spec_get_tag_element(existing, *tag),
{
    match existing {
        None => {
            let attrs = List::Cons(tag_id_attribute(tag), Box::new(List::Nil));
            conditional_tag(tag, attrs)
        }
        Some(el) => {
            let JsxElement { name, attrs, children, self_closing } = el;
            let merged = add_tag_attribute(tag, attrs);
            let children_empty = match &children {
                List::Nil => true,
                List::Cons(_, _) => false,
            };
            if children_empty {
                conditional_tag(tag, merged)
            } else {
                let merged_again = copy_attr_items(&merged);
                let conditional = conditional_tag(tag, merged_again);
                JsExpr::Cond(
                    Box::new(
                        JsExpr::StrictEq(
                            Box::new(JsExpr::Ident(copy_text(tag))),
                            Box::new(JsExpr::Ident(text("undefined"))),
                        ),
                    ),
                    Box::new(
                        JsExpr::Element(
                            Box::new(JsxElement { name, attrs: merged, children, self_closing }),
                        ),
                    ),
                    Box::new(conditional),
                )
            }
        }
    }
}

fn is_tag_child(c: &JsxChild, tag: &Text) -> (r: bool)
    ensures
        r == spec_is_tag_child(*c, *tag),
{
    match c {
        JsxChild::Element(e) => eq_text(&e.name, tag),
        _ => false,
    }
}

fn has_tag_child(l: &List<JsxChild>, tag: &Text) -> (r: bool)
    ensures
        r == spec_has_tag_child(*l, *tag),
    decreases *l,
{
    match l {
        List::Nil => false,
        List::Cons(c, rest) => {
            if is_tag_child(c, tag) {
                true
            } else {
                has_tag_child(rest, tag)
            }
        }
    }
}

fn replace_tag_child(l: List<JsxChild>, tag: &Text) -> (r: List<JsxChild>)
    ensures
        r == spec_replace_tag_child(l, *tag),
    decreases l,
{
    match l {
        List::Nil => List::Nil,
        List::Cons(c, rest) => {
            if is_tag_child(&c, tag) {
                match c {
                    JsxChild::Element(e) => List::Cons(
                        JsxChild::Container(get_tag_element(Some(*e), tag)),
                        rest,
                    ),
                    other => List::Cons(other, rest),
                }
            } else {
                List::Cons(c, Box::new(replace_tag_child(*rest, tag)))
            }
        }
    }
}

/// Applies the merge to one root element.
pub fn title_element(e: JsxElement, v: &DynamicTitleVisitor) -> (r: JsxElement)
    ensures
        r == spec_title_elem(e, *v),
{
    if contains_text(&v.elements, &e.name) {
        let JsxElement { name, attrs, children, self_closing } = e;
        let children = if has_tag_child(&children, &v.options.tag) {
            replace_tag_child(children, &v.options.tag)
        } else {
            List::Cons(
                JsxChild::Container(get_tag_element(None, &v.options.tag)),
                Box::new(children),
            )
        };
        JsxElement { name, attrs, children, self_closing }
    } else {
        e
    }
}

} // verus!
