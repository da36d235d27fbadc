//! The native-target substitution pass and its import fixup.
//!
//! Inside an `svg` subtree, every element whose tag has a native
//! component equivalent is renamed to it; a child element with no
//! equivalent is dropped and its tag recorded.  A later pass extends the
//! native import declaration with the components actually used and
//! leaves a comment naming the dropped tags.  The shared registry
//! records tags in traversal order, so the emitted module is
//! deterministic.

use vstd::prelude::*;

use crate::list::List;
use crate::module::{ImportDecl, ImportSpecifier, Module, ModuleItem};
use crate::text::{append_list, contains_text, eq_text, list_of, text, Text};
use crate::tree::copy_text;
use crate::tree::{Attr, AttrItem, AttrValue, JsExpr, JsxChild, JsxElement};

verus! {

/// The native component standing for a source tag, when one exists.
pub open spec fn spec_component_of(t: Text) -> Option<Text> {
    if t == list_of("svg"@) {
        Some(list_of("Svg"@))
    } else if t == list_of("circle"@) {
        Some(list_of("Circle"@))
    } else if t == list_of("clipPath"@) {
        Some(list_of("ClipPath"@))
    } else if t == list_of("ellipse"@) {
        Some(list_of("Ellipse"@))
    } else if t == list_of("g"@) {
        Some(list_of("G"@))
    } else if t == list_of("linearGradient"@) {
        Some(list_of("LinearGradient"@))
    } else if t == list_of("radialGradient"@) {
        Some(list_of("RadialGradient"@))
    } else if t == list_of("line"@) {
        Some(list_of("Line"@))
    } else if t == list_of("path"@) {
        Some(list_of("Path"@))
    } else if t == list_of("pattern"@) {
        Some(list_of("Pattern"@))
    } else if t == list_of("polygon"@) {
        Some(list_of("Polygon"@))
    } else if t == list_of("polyline"@) {
        Some(list_of("Polyline"@))
    } else if t == list_of("rect"@) {
        Some(list_of("Rect"@))
    } else if t == list_of("symbol"@) {
        Some(list_of("Symbol"@))
    } else if t == list_of("text"@) {
        Some(list_of("Text"@))
    } else if t == list_of("textPath"@) {
        Some(list_of("TextPath"@))
    } else if t == list_of("tspan"@) {
        Some(list_of("TSpan"@))
    } else if t == list_of("use"@) {
        Some(list_of("Use"@))
    } else if t == list_of("defs"@) {
        Some(list_of("Defs"@))
    } else if t == list_of("stop"@) {
        Some(list_of("Stop"@))
    } else if t == list_of("mask"@) {
        Some(list_of("Mask"@))
    } else if t == list_of("image"@) {
        Some(list_of("Image"@))
    } else if t == list_of("foreignObject"@) {
        Some(list_of("ForeignObject"@))
    } else {
        None
    }
}

/// Looks a source tag up in the fixed substitution table.
pub fn component_of(t: &Text) -> (r: Option<Text>)
    ensures
        r == spec_component_of(*t),
{
    if eq_text(t, &text("svg")) {
        Some(text("Svg"))
    } else if eq_text(t, &text("circle")) {
        Some(text("Circle"))
    } else if eq_text(t, &text("clipPath")) {
        Some(text("ClipPath"))
    } else if eq_text(t, &text("ellipse")) {
        Some(text("Ellipse"))
    } else if eq_text(t, &text("g")) {
        Some(text("G"))
    } else if eq_text(t, &text("linearGradient")) {
        Some(text("LinearGradient"))
    } else if eq_text(t, &text("radialGradient")) {
        Some(text("RadialGradient"))
    } else if eq_text(t, &text("line")) {
        Some(text("Line"))
    } else if eq_text(t, &text("path")) {
        Some(text("Path"))
    } else if eq_text(t, &text("pattern")) {
        Some(text("Pattern"))
    } else if eq_text(t, &text("polygon")) {
        Some(text("Polygon"))
    } else if eq_text(t, &text("polyline")) {
        Some(text("Polyline"))
    } else if eq_text(t, &text("rect")) {
        Some(text("Rect"))
    } else if eq_text(t, &text("symbol")) {
        Some(text("Symbol"))
    } else if eq_text(t, &text("text")) {
        Some(text("Text"))
    } else if eq_text(t, &text("textPath")) {
        Some(text("TextPath"))
    } else if eq_text(t, &text("tspan")) {
        Some(text("TSpan"))
    } else if eq_text(t, &text("use")) {
        Some(text("Use"))
    } else if eq_text(t, &text("defs")) {
        Some(text("Defs"))
    } else if eq_text(t, &text("stop")) {
        Some(text("Stop"))
    } else if eq_text(t, &text("mask")) {
        Some(text("Mask"))
    } else if eq_text(t, &text("image")) {
        Some(text("Image"))
    } else if eq_text(t, &text("foreignObject")) {
        Some(text("ForeignObject"))
    } else {
        None
    }
}

/// The registry the substitution pass fills and the import fixup reads:
/// which native components were used, and which source tags had no
/// equivalent and were dropped.  Both lists are duplicate-free and keep
/// first-insertion order.
#[derive(Debug, PartialEq, Eq)]
pub struct State {
    pub replaced_components: List<Text>,
    pub unsupported_components: List<Text>,
}

impl Default for State {
    /// A fresh registry, created once per pipeline run.
    fn default() -> (r: State)
        ensures
            r == (State {
                replaced_components: List::<Text>::Nil,
                unsupported_components: List::<Text>::Nil,
            }),
    {
        State { replaced_components: List::Nil, unsupported_components: List::Nil }
    }
}

/// A registry list records each tag at most once.
pub open spec fn spec_distinct(l: List<Text>) -> bool
    decreases l,
{
    match l {
        List::Nil => true,
        List::Cons(x, rest) => !(*rest).contains(x) && spec_distinct(*rest),
    }
}

/// Adds a tag to a registry list unless it is already recorded.
pub open spec fn spec_insert_unique(l: List<Text>, x: Text) -> List<Text> {
    if l.contains(x) {
        l
    } else {
        l.push_back(x)
    }
}

fn insert_unique(l: List<Text>, x: Text) -> (r: List<Text>)
    ensures
        r == spec_insert_unique(l, x),
{
    if contains_text(&l, &x) {
        l
    } else {
        push_back_text(l, x)
    }
}

fn push_back_text(l: List<Text>, x: Text) -> (r: List<Text>)
    ensures
        r == l.push_back(x),
    decreases l,
{
    match l {
        List::Nil => List::Cons(x, Box::new(List::Nil)),
        List::Cons(y, rest) => List::Cons(y, Box::new(push_back_text(*rest, x))),
    }
}

/// True when this child is an element whose tag has no native
/// equivalent, so the pass drops it.
pub open spec fn spec_is_unsupported_child(c: JsxChild) -> bool {
    match c {
        JsxChild::Element(e) => spec_component_of((*e).name) is None,
        _ => false,
    }
}

/// The pass over one element.  Entering an element named `svg` switches
/// the subtree into native mode: unsupported element children are
/// dropped and recorded, and tags with equivalents are renamed and
/// recorded before the walk descends.
pub open spec fn spec_rn_elem(e: JsxElement, in_svg: bool, st: State) -> (JsxElement, State)
    decreases e,
{
    let inside = in_svg || e.name == list_of("svg"@);
    let (name2, st1) = if inside {
        match spec_component_of(e.name) {
            Some(comp) => (
                comp,
                State {
                    replaced_components: spec_insert_unique(st.replaced_components, comp),
                    unsupported_components: st.unsupported_components,
                },
            ),
            None => (e.name, st),
        }
    } else {
        (e.name, st)
    };
    let (attrs2, st2) = spec_rn_items(e.attrs, inside, st1);
    let (children2, st3) = spec_rn_children(e.children, inside, st2);
    (
        JsxElement { name: name2, attrs: attrs2, children: children2, self_closing: e.self_closing },
        st3,
    )
}

pub open spec fn spec_rn_items(l: List<AttrItem>, in_svg: bool, st: State) -> (List<AttrItem>, State)
    decreases l,
{
    match l {
        List::Nil => (List::Nil, st),
        List::Cons(item, rest) => {
            let (item2, st1) = spec_rn_item(item, in_svg, st);
            let (rest2, st2) = spec_rn_items(*rest, in_svg, st1);
            (List::Cons(item2, Box::new(rest2)), st2)
        }
    }
}

pub open spec fn spec_rn_item(item: AttrItem, in_svg: bool, st: State) -> (AttrItem, State)
    decreases item,
{
    match item {
        AttrItem::Attr(a) => match a.value {
            Some(AttrValue::Expr(x)) => {
                let (x2, st1) = spec_rn_expr(x, in_svg, st);
                (AttrItem::Attr(Attr { name: a.name, value: Some(AttrValue::Expr(x2)) }), st1)
            }
            other => (AttrItem::Attr(Attr { name: a.name, value: other }), st),
        },
        AttrItem::Spread(x) => {
            let (x2, st1) = spec_rn_expr(x, in_svg, st);
            (AttrItem::Spread(x2), st1)
        }
    }
}

pub open spec fn spec_rn_expr(x: JsExpr, in_svg: bool, st: State) -> (JsExpr, State)
    decreases x,
{
    match x {
        JsExpr::Cond(t, c, a) => {
            let (t2, st1) = spec_rn_expr(*t, in_svg, st);
            let (c2, st2) = spec_rn_expr(*c, in_svg, st1);
            let (a2, st3) = spec_rn_expr(*a, in_svg, st2);
            (JsExpr::Cond(Box::new(t2), Box::new(c2), Box::new(a2)), st3)
        }
        JsExpr::StrictEq(l, r) => {
            let (l2, st1) = spec_rn_expr(*l, in_svg, st);
            let (r2, st2) = spec_rn_expr(*r, in_svg, st1);
            (JsExpr::StrictEq(Box::new(l2), Box::new(r2)), st2)
        }
        JsExpr::Or(l, r) => {
            let (l2, st1) = spec_rn_expr(*l, in_svg, st);
            let (r2, st2) = spec_rn_expr(*r, in_svg, st1);
            (JsExpr::Or(Box::new(l2), Box::new(r2)), st2)
        }
        JsExpr::Element(e) => {
            let (e2, st1) = spec_rn_elem(*e, in_svg, st);
            (JsExpr::Element(Box::new(e2)), st1)
        }
        other => (other, st),
    }
}

pub open spec fn spec_rn_children(l: List<JsxChild>, in_svg: bool, st: State) -> (
    List<JsxChild>,
    State,
)
    decreases l,
{
    match l {
        List::Nil => (List::Nil, st),
        List::Cons(c, rest) => {
            if in_svg && spec_is_unsupported_child(c) {
                let dropped_tag = match c {
                    JsxChild::Element(e) => (*e).name,
                    _ => List::Nil,
                };
                let st1 = State {
                    replaced_components: st.replaced_components,
                    unsupported_components: spec_insert_unique(
                        st.unsupported_components,
                        dropped_tag,
                    ),
                };
                spec_rn_children(*rest, in_svg, st1)
            } else {
                let (c2, st1) = spec_rn_child(c, in_svg, st);
                let (rest2, st2) = spec_rn_children(*rest, in_svg, st1);
                (List::Cons(c2, Box::new(rest2)), st2)
            }
        }
    }
}

pub open spec fn spec_rn_child(c: JsxChild, in_svg: bool, st: State) -> (JsxChild, State)
    decreases c,
{
    match c {
        JsxChild::Element(e) => {
            let (e2, st1) = spec_rn_elem(*e, in_svg, st);
            (JsxChild::Element(Box::new(e2)), st1)
        }
        JsxChild::Container(x) => {
            let (x2, st1) = spec_rn_expr(x, in_svg, st);
            (JsxChild::Container(x2), st1)
        }
        JsxChild::Text(t) => (JsxChild::Text(t), st),
    }
}

/// Applies the substitution to one element and everything below it.
pub fn rn_element(e: JsxElement, in_svg: bool, st: State) -> (r: (JsxElement, State))
    ensures
        r == spec_rn_elem(e, in_svg, st),
    decreases e,
{
    let JsxElement { name, attrs, children, self_closing } = e;
    let inside = in_svg || eq_text(&name, &text("svg"));
    let (name2, st1) = if inside {
        match component_of(&name) {
            Some(comp) => {
                let comp2 = copy_text(&comp);
                (
                    comp,
                    State {
                        replaced_components: insert_unique(st.replaced_components, comp2),
                        unsupported_components: st.unsupported_components,
                    },
                )
            }
            None => (name, st),
        }
    } else {
        (name, st)
    };
    let (attrs2, st2) = rn_items(attrs, inside, st1);
    let (children2, st3) = rn_children(children, inside, st2);
    (JsxElement { name: name2, attrs: attrs2, children: children2, self_closing }, st3)
}

fn rn_items(l: List<AttrItem>, in_svg: bool, st: State) -> (r: (List<AttrItem>, State))
    ensures
        r == spec_rn_items(l, in_svg, st),
    decreases l,
{
    match l {
        List::Nil => (List::Nil, st),
        List::Cons(item, rest) => {
            let (item2, st1) = rn_item(item, in_svg, st);
            let (rest2, st2) = rn_items(*rest, in_svg, st1);
            (List::Cons(item2, Box::new(rest2)), st2)
        }
    }
}

fn rn_item(item: AttrItem, in_svg: bool, st: State) -> (r: (AttrItem, State))
    ensures
        r == spec_rn_item(item, in_svg, st),
    decreases item,
{
    match item {
        AttrItem::Attr(a) => match a.value {
            Some(AttrValue::Expr(x)) => {
                let (x2, st1) = rn_expr(x, in_svg, st);
                (AttrItem::Attr(Attr { name: a.name, value: Some(AttrValue::Expr(x2)) }), st1)
            }
            other => (AttrItem::Attr(Attr { name: a.name, value: other }), st),
        },
        AttrItem::Spread(x) => {
            let (x2, st1) = rn_expr(x, in_svg, st);
            (AttrItem::Spread(x2), st1)
        }
    }
}

fn rn_expr(x: JsExpr, in_svg: bool, st: State) -> (r: (JsExpr, State))
    ensures
        r == spec_rn_expr(x, in_svg, st),
    decreases x,
{
    match x {
        JsExpr::Cond(t, c, a) => {
            let (t2, st1) = rn_expr(*t, in_svg, st);
            let (c2, st2) = rn_expr(*c, in_svg, st1);
            let (a2, st3) = rn_expr(*a, in_svg, st2);
            (JsExpr::Cond(Box::new(t2), Box::new(c2), Box::new(a2)), st3)
        }
        JsExpr::StrictEq(l, r) => {
            let (l2, st1) = rn_expr(*l, in_svg, st);
            let (r2, st2) = rn_expr(*r, in_svg, st1);
            (JsExpr::StrictEq(Box::new(l2), Box::new(r2)), st2)
        }
        JsExpr::Or(l, r) => {
            let (l2, st1) = rn_expr(*l, in_svg, st);
            let (r2, st2) = rn_expr(*r, in_svg, st1);
            (JsExpr::Or(Box::new(l2), Box::new(r2)), st2)
        }
        JsExpr::Element(e) => {
            let (e2, st1) = rn_element(*e, in_svg, st);
            (JsExpr::Element(Box::new(e2)), st1)
        }
        other => (other, st),
    }
}

fn rn_children(l: List<JsxChild>, in_svg: bool, st: State) -> (r: (List<JsxChild>, State))
    ensures
        r == spec_rn_children(l, in_svg, st),
    decreases l,
{
    match l {
        List::Nil => (List::Nil, st),
        List::Cons(c, rest) => {
            let unsupported = if in_svg {
                match &c {
                    JsxChild::Element(e) => component_of(&e.name).is_none(),
                    _ => false,
                }
            } else {
                false
            };
            if unsupported {
                let dropped_tag = match c {
                    JsxChild::Element(e) => (*e).name,
                    _ => List::Nil,
                };
                let st1 = State {
                    replaced_components: st.replaced_components,
                    unsupported_components: insert_unique(st.unsupported_components, dropped_tag),
                };
                rn_children(*rest, in_svg, st1)
            } else {
                let (c2, st1) = rn_child(c, in_svg, st);
                let (rest2, st2) = rn_children(*rest, in_svg, st1);
                (List::Cons(c2, Box::new(rest2)), st2)
            }
        }
    }
}

fn rn_child(c: JsxChild, in_svg: bool, st: State) -> (r: (JsxChild, State))
    ensures
        r == spec_rn_child(c, in_svg, st),
    decreases c,
{
    match c {
        JsxChild::Element(e) => {
            let (e2, st1) = rn_element(*e, in_svg, st);
            (JsxChild::Element(Box::new(e2)), st1)
        }
        JsxChild::Container(x) => {
            let (x2, st1) = rn_expr(x, in_svg, st);
            (JsxChild::Container(x2), st1)
        }
        JsxChild::Text(t) => (JsxChild::Text(t), st),
    }
}

/// True when some specifier binds the local name.
pub open spec fn spec_has_local(l: List<ImportSpecifier>, name: Text) -> bool
    decreases l,
{
    match l {
        List::Nil => false,
        List::Cons(s, rest) => {
            let here = match s {
                ImportSpecifier::Default(n) => n == name,
                ImportSpecifier::Named { local, .. } => local == name,
                ImportSpecifier::Namespace(n) => n == name,
            };
            here || spec_has_local(*rest, name)
        }
    }
}

/// Appends a named specifier for every replaced component not already
/// bound by the declaration.
pub open spec fn spec_extend_specifiers(
    specs: List<ImportSpecifier>,
    replaced: List<Text>,
) -> List<ImportSpecifier>
    decreases replaced,
{
    match replaced {
        List::Nil => specs,
        List::Cons(comp, rest) => {
            let specs1 = if spec_has_local(specs, comp) {
                specs
            } else {
                specs.push_back(ImportSpecifier::Named { local: comp, type_only: false })
            };
            spec_extend_specifiers(specs1, *rest)
        }
    }
}

/// The dropped tags joined with commas.
pub open spec fn spec_join_comma(l: List<Text>) -> Text
    decreases l,
{
    match l {
        List::Nil => List::Nil,
        List::Cons(t, rest) => match *rest {
            List::Nil => t,
            _ => t.append(List::Cons(',', Box::new(spec_join_comma(*rest)))),
        },
    }
}

/// The warning left beside the import when elements were dropped.
pub open spec fn spec_drop_comment(unsupported: List<Text>) -> Text {
    list_of(" SVGR has dropped some elements not supported by react-native-svg: "@).append(
        spec_join_comma(unsupported).push_back(' '),
    )
}

/// The import fixup on one declaration: only the native import is
/// touched; missing component specifiers are appended and the warning
/// comment attached when anything was dropped.
pub open spec fn spec_fixup_import(d: ImportDecl, st: State) -> ImportDecl {
    if d.src == list_of("react-native-svg"@) {
        ImportDecl {
            src: d.src,
            specifiers: spec_extend_specifiers(d.specifiers, st.replaced_components),
            trailing_comment: if st.unsupported_components == List::<Text>::Nil {
                d.trailing_comment
            } else {
                Some(spec_drop_comment(st.unsupported_components))
            },
        }
    } else {
        d
    }
}

/// The import fixup over a module.
pub open spec fn spec_fixup_module_items(l: List<ModuleItem>, st: State) -> List<ModuleItem>
    decreases l,
{
    match l {
        List::Nil => List::Nil,
        List::Cons(item, rest) => List::Cons(
            match item {
                ModuleItem::Import(d) => ModuleItem::Import(spec_fixup_import(d, st)),
                other => other,
            },
            Box::new(spec_fixup_module_items(*rest, st)),
        ),
    }
}

fn has_local(l: &List<ImportSpecifier>, name: &Text) -> (r: bool)
    ensures
        r == spec_has_local(*l, *name),
    decreases *l,
{
    match l {
        List::Nil => false,
        List::Cons(s, rest) => {
            let here = match s {
                ImportSpecifier::Default(n) => eq_text(n, name),
                ImportSpecifier::Named { local, .. } => eq_text(local, name),
                ImportSpecifier::Namespace(n) => eq_text(n, name),
            };
            if here {
                true
            } else {
                has_local(rest, name)
            }
        }
    }
}

fn push_back_spec(l: List<ImportSpecifier>, s: ImportSpecifier) -> (r: List<ImportSpecifier>)
    ensures
        r == l.push_back(s),
    decreases l,
{
    match l {
        List::Nil => List::Cons(s, Box::new(List::Nil)),
        List::Cons(x, rest) => List::Cons(x, Box::new(push_back_spec(*rest, s))),
    }
}

fn extend_specifiers(specs: List<ImportSpecifier>, replaced: &List<Text>) -> (r: List<
    ImportSpecifier,
>)
    ensures
        r == spec_extend_specifiers(specs, *replaced),
    decreases *replaced,
{
    match replaced {
        List::Nil => specs,
        List::Cons(comp, rest) => {
            let specs1 = if has_local(&specs, comp) {
                specs
            } else {
                push_back_spec(
                    specs,
                    ImportSpecifier::Named { local: copy_text(comp), type_only: false },
                )
            };
            extend_specifiers(specs1, rest)
        }
    }
}

fn join_comma(l: &List<Text>) -> (r: Text)
    ensures
        r == spec_join_comma(*l),
    decreases *l,
{
    match l {
        List::Nil => List::Nil,
        List::Cons(t, rest) => match &**rest {
            List::Nil => copy_text(t),
            _ => append_list(copy_text(t), List::Cons(',', Box::new(join_comma(rest)))),
        },
    }
}

fn push_back_char(l: Text, c: char) -> (r: Text)
    ensures
        r == l.push_back(c),
    decreases l,
{
    match l {
        List::Nil => List::Cons(c, Box::new(List::Nil)),
        List::Cons(x, rest) => List::Cons(x, Box::new(push_back_char(*rest, c))),
    }
}

fn fixup_import(d: ImportDecl, st: &State) -> (r: ImportDecl)
    ensures
        r == spec_fixup_import(d, *st),
{
    if eq_text(&d.src, &text("react-native-svg")) {
        let ImportDecl { src, specifiers, trailing_comment } = d;
        let unsupported_empty = match &st.unsupported_components {
            List::Nil => true,
            List::Cons(_, _) => false,
        };
        ImportDecl {
            src,
            specifiers: extend_specifiers(specifiers, &st.replaced_components),
            trailing_comment: if unsupported_empty {
                trailing_comment
            } else {
                Some(
                    append_list(
                        text(" SVGR has dropped some elements not supported by react-native-svg: "),
                        push_back_char(join_comma(&st.unsupported_components), ' '),
                    ),
                )
            },
        }
    } else {
        d
    }
}

fn fixup_module_items(l: List<ModuleItem>, st: &State) -> (r: List<ModuleItem>)
    ensures
        r == spec_fixup_module_items(l, *st),
    decreases l,
{
    match l {
        List::Nil => List::Nil,
        List::Cons(item, rest) => List::Cons(
            match item {
                ModuleItem::Import(d) => ModuleItem::Import(fixup_import(d, st)),
                other => other,
            },
            Box::new(fixup_module_items(*rest, st)),
        ),
    }
}

/// The element-substitution half of the native transform, with the
/// registry it fills; the registry can be built directly, so the two
/// halves are independently testable.
#[derive(Debug, PartialEq, Eq)]
pub struct JSXElementVisitor {
    pub state: State,
    pub is_in_svg_element: bool,
}

impl JSXElementVisitor {
    /// A visitor over a fresh or caller-supplied registry, starting
    /// outside any `svg` subtree.
    pub fn new(state: State) -> (r: JSXElementVisitor)
        ensures
            r == (JSXElementVisitor { state, is_in_svg_element: false }),
    {
        JSXElementVisitor { state, is_in_svg_element: false }
    }

    /// Rewrites one element, growing the registry.
    pub fn visit_element(self, e: JsxElement) -> (r: (JsxElement, JSXElementVisitor))
        ensures
            r.0 == spec_rn_elem(e, self.is_in_svg_element, self.state).0,
            r.1 == (JSXElementVisitor {
                state: spec_rn_elem(e, self.is_in_svg_element, self.state).1,
                is_in_svg_element: self.is_in_svg_element,
            }),
    {
        let JSXElementVisitor { state, is_in_svg_element } = self;
        let (e2, st) = rn_element(e, is_in_svg_element, state);
        (e2, JSXElementVisitor { state: st, is_in_svg_element })
    }
}

/// The import-fixup half of the native transform; it only reads the
/// registry.
#[derive(Debug, PartialEq, Eq)]
pub struct ImportDeclVisitor {
    pub state: State,
}

impl ImportDeclVisitor {
    /// A fixup pass over the registry the substitution produced.
    pub fn new(state: State) -> (r: ImportDeclVisitor)
        ensures
            r == (ImportDeclVisitor { state }),
    {
        ImportDeclVisitor { state }
    }

    /// Extends one import declaration with the components in use and
    /// the warning comment for dropped tags.
    pub fn visit_import_decl(&self, d: ImportDecl) -> (r: ImportDecl)
        ensures
            r == spec_fixup_import(d, self.state),
    {
        fixup_import(d, &self.state)
    }
}

/// The substitution pass over a module's markup statements and
/// component bodies, threading one fresh registry through the walk.
pub open spec fn spec_rn_module_items(l: List<ModuleItem>, st: State) -> (List<ModuleItem>, State)
    decreases l,
{
    match l {
        List::Nil => (List::Nil, st),
        List::Cons(item, rest) => {
            let (item2, st1) = match item {
                ModuleItem::JsxStmt(e) => {
                    let (e2, s) = spec_rn_elem(e, false, st);
                    (ModuleItem::JsxStmt(e2), s)
                }
                ModuleItem::Component(c) => {
                    let (b2, s) = spec_rn_elem(c.body, false, st);
                    (
                        ModuleItem::Component(
                            crate::module::ComponentDecl { name: c.name, params: c.params, body: b2 },
                        ),
                        s,
                    )
                }
                other => (other, st),
            };
            let (rest2, st2) = spec_rn_module_items(*rest, st1);
            (List::Cons(item2, Box::new(rest2)), st2)
        }
    }
}

/// The whole native transform: substitution over the markup, then the
/// import fixup with the registry the substitution produced.
pub open spec fn spec_rn_module(m: Module) -> (Module, State) {
    let st0 = State {
        replaced_components: List::Nil,
        unsupported_components: List::Nil,
    };
    let (items1, st) = spec_rn_module_items(m.items, st0);
    (Module { items: spec_fixup_module_items(items1, st) }, st)
}

fn rn_module_items(l: List<ModuleItem>, st: State) -> (r: (List<ModuleItem>, State))
    ensures
        r == spec_rn_module_items(l, st),
    decreases l,
{
    match l {
        List::Nil => (List::Nil, st),
        List::Cons(item, rest) => {
            let (item2, st1) = match item {
                ModuleItem::JsxStmt(e) => {
                    let (e2, s) = rn_element(e, false, st);
                    (ModuleItem::JsxStmt(e2), s)
                }
                ModuleItem::Component(c) => {
                    let crate::module::ComponentDecl { name, params, body } = c;
                    let (b2, s) = rn_element(body, false, st);
                    (
                        ModuleItem::Component(
                            crate::module::ComponentDecl { name, params, body: b2 },
                        ),
                        s,
                    )
                }
                other => (other, st),
            };
            let (rest2, st2) = rn_module_items(*rest, st1);
            (List::Cons(item2, Box::new(rest2)), st2)
        }
    }
}

proof fn lemma_push_back_contains(l: List<Text>, x: Text, y: Text)
    ensures
        l.push_back(x).contains(y) == (l.contains(y) || y == x),
    decreases l,
{
    match l {
        List::Nil => {}
        List::Cons(_, rest) => {
            lemma_push_back_contains(*rest, x, y);
        }
    }
}

proof fn lemma_push_back_distinct(l: List<Text>, x: Text)
    requires
        spec_distinct(l),
        !l.contains(x),
    ensures
        spec_distinct(l.push_back(x)),
    decreases l,
{
    match l {
        List::Nil => {}
        List::Cons(h, rest) => {
            lemma_push_back_contains(*rest, x, h);
            lemma_push_back_distinct(*rest, x);
        }
    }
}

proof fn lemma_insert_unique_distinct(l: List<Text>, x: Text)
    requires
        spec_distinct(l),
    ensures
        spec_distinct(spec_insert_unique(l, x)),
{
    if !l.contains(x) {
        lemma_push_back_distinct(l, x);
    }
}

/// Whether both registry lists are duplicate-free.
pub open spec fn spec_state_distinct(st: State) -> bool {
    spec_distinct(st.replaced_components) && spec_distinct(st.unsupported_components)
}

proof fn lemma_rn_elem_distinct(e: JsxElement, in_svg: bool, st: State)
    requires
        spec_state_distinct(st),
    ensures
        spec_state_distinct(spec_rn_elem(e, in_svg, st).1),
    decreases e,
{
    let inside = in_svg || e.name == list_of("svg"@);
    let st1 = if inside {
        match spec_component_of(e.name) {
            Some(comp) => {
                lemma_insert_unique_distinct(st.replaced_components, comp);
                State {
                    replaced_components: spec_insert_unique(st.replaced_components, comp),
                    unsupported_components: st.unsupported_components,
                }
            }
            None => st,
        }
    } else {
        st
    };
    lemma_rn_items_distinct(e.attrs, inside, st1);
    lemma_rn_children_distinct(e.children, inside, spec_rn_items(e.attrs, inside, st1).1);
}

proof fn lemma_rn_items_distinct(l: List<AttrItem>, in_svg: bool, st: State)
    requires
        spec_state_distinct(st),
    ensures
        spec_state_distinct(spec_rn_items(l, in_svg, st).1),
    decreases l,
{
    match l {
        List::Nil => {}
        List::Cons(item, rest) => {
            lemma_rn_item_distinct(item, in_svg, st);
            lemma_rn_items_distinct(*rest, in_svg, spec_rn_item(item, in_svg, st).1);
        }
    }
}

proof fn lemma_rn_item_distinct(item: AttrItem, in_svg: bool, st: State)
    requires
        spec_state_distinct(st),
    ensures
        spec_state_distinct(spec_rn_item(item, in_svg, st).1),
    decreases item,
{
    match item {
        AttrItem::Attr(a) => {
            match a.value {
                Some(AttrValue::Expr(x)) => {
                    lemma_rn_expr_distinct(x, in_svg, st);
                }
                _ => {}
            }
        }
        AttrItem::Spread(x) => {
            lemma_rn_expr_distinct(x, in_svg, st);
        }
    }
}

proof fn lemma_rn_expr_distinct(x: JsExpr, in_svg: bool, st: State)
    requires
        spec_state_distinct(st),
    ensures
        spec_state_distinct(spec_rn_expr(x, in_svg, st).1),
    decreases x,
{
    match x {
        JsExpr::Cond(t, c, a) => {
            lemma_rn_expr_distinct(*t, in_svg, st);
            let st1 = spec_rn_expr(*t, in_svg, st).1;
            lemma_rn_expr_distinct(*c, in_svg, st1);
            lemma_rn_expr_distinct(*a, in_svg, spec_rn_expr(*c, in_svg, st1).1);
        }
        JsExpr::StrictEq(l, r) => {
            lemma_rn_expr_distinct(*l, in_svg, st);
            lemma_rn_expr_distinct(*r, in_svg, spec_rn_expr(*l, in_svg, st).1);
        }
        JsExpr::Or(l, r) => {
            lemma_rn_expr_distinct(*l, in_svg, st);
            lemma_rn_expr_distinct(*r, in_svg, spec_rn_expr(*l, in_svg, st).1);
        }
        JsExpr::Element(e) => {
            lemma_rn_elem_distinct(*e, in_svg, st);
        }
        _ => {}
    }
}

proof fn lemma_rn_children_distinct(l: List<JsxChild>, in_svg: bool, st: State)
    requires
        spec_state_distinct(st),
    ensures
        spec_state_distinct(spec_rn_children(l, in_svg, st).1),
    decreases l,
{
    match l {
        List::Nil => {}
        List::Cons(c, rest) => {
            if in_svg && spec_is_unsupported_child(c) {
                let dropped_tag = match c {
                    JsxChild::Element(e) => (*e).name,
                    _ => List::Nil,
                };
                lemma_insert_unique_distinct(st.unsupported_components, dropped_tag);
                let st1 = State {
                    replaced_components: st.replaced_components,
                    unsupported_components: spec_insert_unique(
                        st.unsupported_components,
                        dropped_tag,
                    ),
                };
                lemma_rn_children_distinct(*rest, in_svg, st1);
            } else {
                lemma_rn_child_distinct(c, in_svg, st);
                lemma_rn_children_distinct(*rest, in_svg, spec_rn_child(c, in_svg, st).1);
            }
        }
    }
}

proof fn lemma_rn_child_distinct(c: JsxChild, in_svg: bool, st: State)
    requires
        spec_state_distinct(st),
    ensures
        spec_state_distinct(spec_rn_child(c, in_svg, st).1),
    decreases c,
{
    match c {
        JsxChild::Element(e) => {
            lemma_rn_elem_distinct(*e, in_svg, st);
        }
        JsxChild::Container(x) => {
            lemma_rn_expr_distinct(x, in_svg, st);
        }
        JsxChild::Text(_) => {}
    }
}

proof fn lemma_rn_module_items_distinct(l: List<ModuleItem>, st: State)
    requires
        spec_state_distinct(st),
    ensures
        spec_state_distinct(spec_rn_module_items(l, st).1),
    decreases l,
{
    match l {
        List::Nil => {}
        List::Cons(item, rest) => {
            let st1 = match item {
                ModuleItem::JsxStmt(e) => {
                    lemma_rn_elem_distinct(e, false, st);
                    spec_rn_elem(e, false, st).1
                }
                ModuleItem::Component(c) => {
                    lemma_rn_elem_distinct(c.body, false, st);
                    spec_rn_elem(c.body, false, st).1
                }
                _ => st,
            };
            lemma_rn_module_items_distinct(*rest, st1);
        }
    }
}

/// The registry a run produces is genuinely set-shaped: each tag is
/// recorded at most once, in each of the two lists.
pub proof fn lemma_registry_distinct(m: Module)
    ensures
        spec_state_distinct(spec_rn_module(m).1),
{
    let st0 = State { replaced_components: List::Nil, unsupported_components: List::Nil };
    lemma_rn_module_items_distinct(m.items, st0);
}

/// Runs the native transform over a module and also returns the registry,
/// so the two halves stay independently testable.
pub fn transform_react_native(m: Module) -> (r: (Module, State))
    ensures
        r == spec_rn_module(m),
{
    let st0 = State { replaced_components: List::Nil, unsupported_components: List::Nil };
    let Module { items } = m;
    let (items1, st) = rn_module_items(items, st0);
    (Module { items: fixup_module_items(items1, &st) }, st)
}

} // verus!
