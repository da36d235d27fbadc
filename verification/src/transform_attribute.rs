//! The attribute-name normalization pass, run last in the pipeline:
//! `class` becomes the framework class prop, string-valued `style`
//! attributes become object expressions with camel-cased keys and
//! numeric-looking values turned into numeric literals, namespaced
//! names collapse to `nsName`, `data-*`/`aria-*` names move to a
//! quoted-key form, and every other hyphenated name is camel-cased.
//!
//! Case mapping is ASCII: only the letters `a` to `z` are upper-cased.
//! A value counts as numeric when it spells a plain decimal number, with
//! an optional sign, fraction and exponent.

use vstd::prelude::*;

use crate::list::List;
use crate::text::{is_prefix, list_of, text, Text};
use crate::tree::{
    Attr, AttrItem, AttrName, AttrValue, JsExpr, JsxChild, JsxElement, JsLit, ObjectProp,
};

verus! {

/// The ASCII upper-case image of a character.
pub open spec fn spec_upper_char(c: char) -> char {
    if 97 <= c as u32 && c as u32 <= 122 {
        (((c as u32) - 32) as u8) as char
    } else {
        c
    }
}

fn upper_char(c: char) -> (r: char)
    ensures
        r == spec_upper_char(c),
{
    let u = c as u32;
    if 97 <= u && u <= 122 {
        ((u - 32) as u8) as char
    } else {
        c
    }
}

/// The text with its first character upper-cased.
pub open spec fn spec_ucfirst(t: Text) -> Text {
    match t {
        List::Nil => List::Nil,
        List::Cons(c, rest) => List::Cons(spec_upper_char(c), rest),
    }
}

fn ucfirst(t: Text) -> (r: Text)
    ensures
        r == spec_ucfirst(t),
{
    match t {
        List::Nil => List::Nil,
        List::Cons(c, rest) => List::Cons(upper_char(c), rest),
    }
}

/// Splits a text at every occurrence of `sep`; the result is never the
/// empty list, and splitting the empty text gives one empty piece.
pub open spec fn spec_split(t: Text, sep: char) -> List<Text>
    decreases t,
{
    match t {
        List::Nil => List::Cons(List::Nil, Box::new(List::Nil)),
        List::Cons(c, rest) => {
            let parts = spec_split(*rest, sep);
            if c == sep {
                List::Cons(List::Nil, Box::new(parts))
            } else {
                match parts {
                    List::Cons(p, pr) => List::Cons(List::Cons(c, Box::new(p)), pr),
                    List::Nil => List::Cons(
                        List::Cons(c, Box::new(List::Nil)),
                        Box::new(List::Nil),
                    ),
                }
            }
        }
    }
}

fn split(t: Text, sep: char) -> (r: List<Text>)
    ensures
        r == spec_split(t, sep),
    decreases t,
{
    match t {
        List::Nil => List::Cons(List::Nil, Box::new(List::Nil)),
        List::Cons(c, rest) => {
            let parts = split(*rest, sep);
            if c == sep {
                List::Cons(List::Nil, Box::new(parts))
            } else {
                match parts {
                    List::Cons(p, pr) => List::Cons(List::Cons(c, Box::new(p)), pr),
                    List::Nil => List::Cons(
                        List::Cons(c, Box::new(List::Nil)),
                        Box::new(List::Nil),
                    ),
                }
            }
        }
    }
}

/// Concatenates the pieces after the first, each with its first
/// character upper-cased.  An empty piece — from doubled or trailing
/// hyphens — contributes nothing.
pub open spec fn spec_camel_rest(parts: List<Text>) -> Text
    decreases parts,
{
    match parts {
        List::Nil => List::Nil,
        List::Cons(p, rest) => spec_ucfirst(p).append(spec_camel_rest(*rest)),
    }
}

/// Hyphen-case to camel-case: the piece before the first hyphen is kept
/// as it is, every later piece loses its hyphen and is capitalized.
pub open spec fn spec_hyphen_to_camel(t: Text) -> Text {
    match spec_split(t, '-') {
        List::Nil => List::Nil,
        List::Cons(p, rest) => p.append(spec_camel_rest(*rest)),
    }
}

fn camel_rest(parts: List<Text>) -> (r: Text)
    ensures
        r == spec_camel_rest(parts),
    decreases parts,
{
    match parts {
        List::Nil => List::Nil,
        List::Cons(p, rest) => crate::text::append_list(ucfirst(p), camel_rest(*rest)),
    }
}

/// Rewrites a hyphen-cased name to camel case.
pub fn hyphen_to_camel(t: Text) -> (r: Text)
    ensures
        r == spec_hyphen_to_camel(t),
{
    match split(t, '-') {
        List::Nil => List::Nil,
        List::Cons(p, rest) => crate::text::append_list(p, camel_rest(*rest)),
    }
}

/// A namespaced `ns:local` name collapses to `ns` followed by the
/// capitalized local name.
pub open spec fn spec_namespace_to_camel(ns: Text, local: Text) -> Text {
    ns.append(spec_ucfirst(local))
}

pub fn namespace_to_camel(ns: Text, local: Text) -> (r: Text)
    ensures
        r == spec_namespace_to_camel(ns, local),
{
    crate::text::append_list(ns, ucfirst(local))
}

/// ASCII whitespace, as trimmed from style values.
pub open spec fn spec_is_space(c: char) -> bool {
    c == ' ' || c == '\t' || c == '\n' || c == '\r'
}

pub open spec fn spec_trim_start(t: Text) -> Text
    decreases t,
{
    match t {
        List::Nil => List::Nil,
        List::Cons(c, rest) => if spec_is_space(c) {
            spec_trim_start(*rest)
        } else {
            List::Cons(c, rest)
        },
    }
}

pub open spec fn spec_trim_end(t: Text) -> Text
    decreases t,
{
    match t {
        List::Nil => List::Nil,
        List::Cons(c, rest) => {
            let r = spec_trim_end(*rest);
            if r == List::<char>::Nil && spec_is_space(c) {
                List::Nil
            } else {
                List::Cons(c, Box::new(r))
            }
        }
    }
}

/// The text with ASCII whitespace removed from both ends.
pub open spec fn spec_trim(t: Text) -> Text {
    spec_trim_end(spec_trim_start(t))
}

fn is_space(c: char) -> (r: bool)
    ensures
        r == spec_is_space(c),
{
    c == ' ' || c == '\t' || c == '\n' || c == '\r'
}

fn trim_start(t: Text) -> (r: Text)
    ensures
        r == spec_trim_start(t),
    decreases t,
{
    match t {
        List::Nil => List::Nil,
        List::Cons(c, rest) => {
            if is_space(c) {
                trim_start(*rest)
            } else {
                List::Cons(c, rest)
            }
        }
    }
}

fn trim_end(t: Text) -> (r: Text)
    ensures
        r == spec_trim_end(t),
    decreases t,
{
    match t {
        List::Nil => List::Nil,
        List::Cons(c, rest) => {
            let r = trim_end(*rest);
            let r_is_nil = match &r {
                List::Nil => true,
                List::Cons(_, _) => false,
            };
            if r_is_nil && is_space(c) {
                List::Nil
            } else {
                List::Cons(c, Box::new(r))
            }
        }
    }
}

fn trim(t: Text) -> (r: Text)
    ensures
        r == spec_trim(t),
{
    trim_end(trim_start(t))
}

/// A decimal digit.
pub open spec fn spec_is_digit(c: char) -> bool {
    48 <= c as u32 && c as u32 <= 57
}

/// The text with its leading run of digits removed.
pub open spec fn spec_skip_digits(t: Text) -> Text
    decreases t,
{
    match t {
        List::Nil => List::Nil,
        List::Cons(c, rest) => if spec_is_digit(c) {
            spec_skip_digits(*rest)
        } else {
            List::Cons(c, rest)
        },
    }
}

/// True when the text begins with a digit.
pub open spec fn spec_starts_digit(t: Text) -> bool {
    match t {
        List::Nil => false,
        List::Cons(c, _) => spec_is_digit(c),
    }
}

/// What may follow the mantissa: nothing, or an exponent with an
/// optional sign and at least one digit, ending the text.
pub open spec fn spec_exponent_ok(t: Text) -> bool {
    match t {
        List::Nil => true,
        List::Cons(c, rest) => (c == 'e' || c == 'E') && {
            let body = match *rest {
                List::Cons(s, rr) => if s == '+' || s == '-' {
                    *rr
                } else {
                    *rest
                },
                List::Nil => List::Nil,
            };
            spec_starts_digit(body) && spec_skip_digits(body) == List::<char>::Nil
        },
    }
}

/// What may follow the integer digits: the end, an exponent, or a
/// fraction point with optional digits and then an exponent.
pub open spec fn spec_after_int(t: Text) -> bool {
    match t {
        List::Nil => true,
        List::Cons(c, rest) => if c == '.' {
            spec_exponent_ok(spec_skip_digits(*rest))
        } else {
            spec_exponent_ok(t)
        },
    }
}

/// True when the text spells a decimal number: an optional sign, then
/// either digits with an optional fraction, or a fraction alone, each
/// with an optional exponent.
pub open spec fn spec_is_numeric(t: Text) -> bool {
    let body = match t {
        List::Cons(c, rest) => if c == '+' || c == '-' {
            *rest
        } else {
            t
        },
        List::Nil => t,
    };
    if spec_starts_digit(body) {
        spec_after_int(spec_skip_digits(body))
    } else {
        match body {
            List::Cons(c, rest) => c == '.' && spec_starts_digit(*rest) && spec_exponent_ok(
                spec_skip_digits(*rest),
            ),
            List::Nil => false,
        }
    }
}

fn is_digit(c: char) -> (r: bool)
    ensures
        r == spec_is_digit(c),
{
    let u = c as u32;
    48 <= u && u <= 57
}

fn skip_digits(t: &Text) -> (r: &Text)
    ensures
        *r == spec_skip_digits(*t),
    decreases *t,
{
    match t {
        List::Nil => t,
        List::Cons(c, rest) => {
            if is_digit(*c) {
                skip_digits(rest)
            } else {
                t
            }
        }
    }
}

fn starts_digit(t: &Text) -> (r: bool)
    ensures
        r == spec_starts_digit(*t),
{
    match t {
        List::Nil => false,
        List::Cons(c, _) => is_digit(*c),
    }
}

fn exponent_ok(t: &Text) -> (r: bool)
    ensures
        r == spec_exponent_ok(*t),
{
    match t {
        List::Nil => true,
        List::Cons(c, rest) => {
            if *c == 'e' || *c == 'E' {
                let body: &Text = match &**rest {
                    List::Cons(s, rr) => {
                        if *s == '+' || *s == '-' {
                            &**rr
                        } else {
                            &**rest
                        }
                    }
                    List::Nil => &**rest,
                };
                if starts_digit(body) {
                    let after = skip_digits(body);
                    match after {
                        List::Nil => true,
                        List::Cons(_, _) => false,
                    }
                } else {
                    false
                }
            } else {
                false
            }
        }
    }
}

fn after_int(t: &Text) -> (r: bool)
    ensures
        r == spec_after_int(*t),
{
    match t {
        List::Nil => true,
        List::Cons(c, rest) => {
            if *c == '.' {
                exponent_ok(skip_digits(rest))
            } else {
                exponent_ok(t)
            }
        }
    }
}

/// Decides whether a style value spells a decimal number.
pub fn is_numeric(t: &Text) -> (r: bool)
    ensures
        r == spec_is_numeric(*t),
{
    let body: &Text = match t {
        List::Cons(c, rest) => {
            if *c == '+' || *c == '-' {
                &**rest
            } else {
                t
            }
        }
        List::Nil => t,
    };
    if starts_digit(body) {
        after_int(skip_digits(body))
    } else {
        match body {
            List::Cons(c, rest) => {
                if *c == '.' && starts_digit(rest) {
                    exponent_ok(skip_digits(rest))
                } else {
                    false
                }
            }
            List::Nil => false,
        }
    }
}

/// Joins the pieces of a split-on-colon value back with colons.
pub open spec fn spec_join_colon(parts: List<Text>) -> Text
    decreases parts,
{
    match parts {
        List::Nil => List::Nil,
        List::Cons(p, rest) => match *rest {
            List::Nil => p,
            _ => p.append(List::Cons(':', Box::new(spec_join_colon(*rest)))),
        },
    }
}

fn join_colon(parts: List<Text>) -> (r: Text)
    ensures
        r == spec_join_colon(parts),
    decreases parts,
{
    match parts {
        List::Nil => List::Nil,
        List::Cons(p, rest) => match *rest {
            List::Nil => p,
            other => crate::text::append_list(
                p,
                List::Cons(':', Box::new(join_colon(other))),
            ),
        },
    }
}

/// One `key: value` declaration of a style string as an object property:
/// the key is camel-cased, the trimmed value becomes a numeric literal
/// when it spells a number and a string literal otherwise.
pub open spec fn spec_css_entry(el: Text) -> ObjectProp {
    match spec_split(el, ':') {
        List::Nil => ObjectProp { key: List::Nil, value: JsLit::Str(List::Nil) },
        List::Cons(key, rest) => {
            let value = spec_trim(spec_join_colon(*rest));
            ObjectProp {
                key: spec_hyphen_to_camel(key),
                value: if spec_is_numeric(value) {
                    JsLit::Num(value)
                } else {
                    JsLit::Str(value)
                },
            }
        }
    }
}

/// The non-empty pieces of a style string, each as an object property.
pub open spec fn spec_css_props(parts: List<Text>) -> List<ObjectProp>
    decreases parts,
{
    match parts {
        List::Nil => List::Nil,
        List::Cons(el, rest) => {
            let tail = spec_css_props(*rest);
            if el == List::<char>::Nil {
                tail
            } else {
                List::Cons(spec_css_entry(el), Box::new(tail))
            }
        }
    }
}

/// A style string as an object literal.
pub open spec fn spec_css_to_obj(css: Text) -> List<ObjectProp> {
    spec_css_props(spec_split(css, ';'))
}

fn css_entry(el: Text) -> (r: ObjectProp)
    ensures
        r == spec_css_entry(el),
{
    match split(el, ':') {
        List::Nil => ObjectProp { key: List::Nil, value: JsLit::Str(List::Nil) },
        List::Cons(key, rest) => {
            let value = trim(join_colon(*rest));
            let numeric = is_numeric(&value);
            ObjectProp {
                key: hyphen_to_camel(key),
                value: if numeric {
                    JsLit::Num(value)
                } else {
                    JsLit::Str(value)
                },
            }
        }
    }
}

fn css_props(parts: List<Text>) -> (r: List<ObjectProp>)
    ensures
        r == spec_css_props(parts),
    decreases parts,
{
    match parts {
        List::Nil => List::Nil,
        List::Cons(el, rest) => {
            let tail = css_props(*rest);
            let el_is_nil = match &el {
                List::Nil => true,
                List::Cons(_, _) => false,
            };
            if el_is_nil {
                tail
            } else {
                List::Cons(css_entry(el), Box::new(tail))
            }
        }
    }
}

/// Rewrites a style string into the property list of an object literal.
pub fn css_to_obj(css: Text) -> (r: List<ObjectProp>)
    ensures
        r == spec_css_to_obj(css),
{
    css_props(split(css, ';'))
}

/// The quoted form of a name, for keys that are not valid identifiers.
pub open spec fn spec_quote(n: Text) -> Text {
    List::Cons('\'', Box::new(n.push_back('\'')))
}

/// One attribute normalized: the name rewritten as the module header
/// describes, and a string-valued `style` turned into an object.
pub open spec fn spec_norm_attr(name: AttrName, value: Option<AttrValue>) -> Attr {
    match name {
        AttrName::Namespaced(ns, local) => Attr {
            name: AttrName::Plain(spec_namespace_to_camel(ns, local)),
            value,
        },
        AttrName::Plain(n) => if n == list_of("class"@) {
            Attr { name: AttrName::Plain(list_of("className"@)), value }
        } else if n == list_of("style"@) {
            Attr {
                name: AttrName::Plain(n),
                value: match value {
                    Some(AttrValue::Str(s)) => Some(
                        AttrValue::Expr(JsExpr::Object(spec_css_to_obj(s))),
                    ),
                    other => other,
                },
            }
        } else if is_prefix(list_of("data-"@), n) || is_prefix(list_of("aria-"@), n) {
            Attr { name: AttrName::Plain(spec_quote(n)), value }
        } else {
            Attr { name: AttrName::Plain(spec_hyphen_to_camel(n)), value }
        },
    }
}

fn norm_attr(name: AttrName, value: Option<AttrValue>) -> (r: Attr)
    ensures
        r == spec_norm_attr(name, value),
{
    match name {
        AttrName::Namespaced(ns, local) => Attr {
            name: AttrName::Plain(namespace_to_camel(ns, local)),
            value,
        },
        AttrName::Plain(n) => {
            if crate::text::eq_text(&n, &text("class")) {
                Attr { name: AttrName::Plain(text("className")), value }
            } else if crate::text::eq_text(&n, &text("style")) {
                Attr {
                    name: AttrName::Plain(n),
                    value: match value {
                        Some(AttrValue::Str(s)) => Some(
                            AttrValue::Expr(JsExpr::Object(css_to_obj(s))),
                        ),
                        other => other,
                    },
                }
            } else if crate::text::has_prefix(&n, &text("data-")) || crate::text::has_prefix(
                &n,
                &text("aria-"),
            ) {
                Attr {
                    name: AttrName::Plain(List::Cons('\'', Box::new(push_back_char(n, '\'')))),
                    value,
                }
            } else {
                Attr { name: AttrName::Plain(hyphen_to_camel(n)), value }
            }
        }
    }
}

fn push_back_char(l: Text, c: char) -> (r: Text)
    ensures
        r == l.push_back(c),
    decreases l,
{
    match l {
        List::Nil => List::Cons(c, Box::new(List::Nil)),
        List::Cons(x, rest) => List::Cons(x, Box::new(push_back_char(*rest, c))),
    }
}

/// The pass over a whole element.
pub open spec fn spec_norm_elem(e: JsxElement) -> JsxElement
    decreases e,
{
    JsxElement {
        name: e.name,
        attrs: spec_norm_items(e.attrs),
        children: spec_norm_children(e.children),
        self_closing: e.self_closing,
    }
}

pub open spec fn spec_norm_items(l: List<AttrItem>) -> List<AttrItem>
    decreases l,
{
    match l {
        List::Nil => List::Nil,
        List::Cons(item, rest) => List::Cons(spec_norm_item(item), Box::new(spec_norm_items(*rest))),
    }
}

pub open spec fn spec_norm_item(item: AttrItem) -> AttrItem
    decreases item,
{
    match item {
        AttrItem::Attr(a) => {
            let walked = match a.value {
                Some(AttrValue::Expr(x)) => Some(AttrValue::Expr(spec_norm_expr(x))),
                other => other,
            };
            AttrItem::Attr(spec_norm_attr(a.name, walked))
        }
        AttrItem::Spread(x) => AttrItem::Spread(spec_norm_expr(x)),
    }
}

pub open spec fn spec_norm_expr(x: JsExpr) -> JsExpr
    decreases x,
{
    match x {
        JsExpr::Cond(t, c, a) => JsExpr::Cond(
            Box::new(spec_norm_expr(*t)),
            Box::new(spec_norm_expr(*c)),
            Box::new(spec_norm_expr(*a)),
        ),
        JsExpr::StrictEq(l, r) => JsExpr::StrictEq(
            Box::new(spec_norm_expr(*l)),
            Box::new(spec_norm_expr(*r)),
        ),
        JsExpr::Or(l, r) => JsExpr::Or(Box::new(spec_norm_expr(*l)), Box::new(spec_norm_expr(*r))),
        JsExpr::Element(e) => JsExpr::Element(Box::new(spec_norm_elem(*e))),
        other => other,
    }
}

pub open spec fn spec_norm_children(l: List<JsxChild>) -> List<JsxChild>
    decreases l,
{
    match l {
        List::Nil => List::Nil,
        List::Cons(c, rest) => List::Cons(spec_norm_child(c), Box::new(spec_norm_children(*rest))),
    }
}

pub open spec fn spec_norm_child(c: JsxChild) -> JsxChild
    decreases c,
{
    match c {
        JsxChild::Element(e) => JsxChild::Element(Box::new(spec_norm_elem(*e))),
        JsxChild::Container(x) => JsxChild::Container(spec_norm_expr(x)),
        JsxChild::Text(t) => JsxChild::Text(t),
    }
}

proof fn lemma_split_no_sep(t: Text, sep: char)
    requires
        !t.contains(sep),
    ensures
        spec_split(t, sep) == List::Cons(t, Box::new(List::<Text>::Nil)),
    decreases t,
{
    match t {
        List::Nil => {}
        List::Cons(_, rest) => {
            lemma_split_no_sep(*rest, sep);
        }
    }
}

/// A name with no hyphen — one already in camel case — is left
/// unchanged by the hyphen-to-camel rewrite.
pub proof fn lemma_h2c_fixpoint(t: Text)
    requires
        !t.contains('-'),
    ensures
        spec_hyphen_to_camel(t) == t,
{
    lemma_split_no_sep(t, '-');
    crate::list::lemma_append_nil(t);
}

/// The attributes on which normalization is idempotent: the first run's
/// output name carries no hyphen, is not `class`, is not driven into the
/// quoted key form, and an output named `style` no longer holds a string
/// value.  Every ordinary camel-case or hyphen-case name satisfies this;
/// the `data-*`/`aria-*` names are the exception, since their quoted
/// form is itself rewritten by a second run.
pub open spec fn spec_tame_attr(name: AttrName, value: Option<AttrValue>) -> bool {
    let a1 = spec_norm_attr(name, value);
    match a1.name {
        AttrName::Plain(m) => {
            &&& !m.contains('-')
            &&& m != list_of("class"@)
            &&& !is_prefix(list_of("data-"@), m)
            &&& !is_prefix(list_of("aria-"@), m)
            &&& (m == list_of("style"@) ==> match a1.value {
                Some(AttrValue::Str(_)) => false,
                _ => true,
            })
        },
        AttrName::Namespaced(_, _) => false,
    }
}

pub open spec fn spec_tame_elem(e: JsxElement) -> bool
    decreases e,
{
    spec_tame_items(e.attrs) && spec_tame_children(e.children)
}

pub open spec fn spec_tame_items(l: List<AttrItem>) -> bool
    decreases l,
{
    match l {
        List::Nil => true,
        List::Cons(item, rest) => spec_tame_item(item) && spec_tame_items(*rest),
    }
}

pub open spec fn spec_tame_item(item: AttrItem) -> bool
    decreases item,
{
    match item {
        AttrItem::Attr(a) => {
            let walked = match a.value {
                Some(AttrValue::Expr(x)) => Some(AttrValue::Expr(spec_norm_expr(x))),
                other => other,
            };
            &&& spec_tame_attr(a.name, walked)
            &&& match a.value {
                Some(AttrValue::Expr(x)) => spec_tame_expr(x),
                _ => true,
            }
        },
        AttrItem::Spread(x) => spec_tame_expr(x),
    }
}

pub open spec fn spec_tame_expr(x: JsExpr) -> bool
    decreases x,
{
    match x {
        JsExpr::Cond(t, c, a) => spec_tame_expr(*t) && spec_tame_expr(*c) && spec_tame_expr(*a),
        JsExpr::StrictEq(l, r) => spec_tame_expr(*l) && spec_tame_expr(*r),
        JsExpr::Or(l, r) => spec_tame_expr(*l) && spec_tame_expr(*r),
        JsExpr::Element(e) => spec_tame_elem(*e),
        _ => true,
    }
}

pub open spec fn spec_tame_children(l: List<JsxChild>) -> bool
    decreases l,
{
    match l {
        List::Nil => true,
        List::Cons(c, rest) => spec_tame_child(c) && spec_tame_children(*rest),
    }
}

pub open spec fn spec_tame_child(c: JsxChild) -> bool
    decreases c,
{
    match c {
        JsxChild::Element(e) => spec_tame_elem(*e),
        JsxChild::Container(x) => spec_tame_expr(x),
        JsxChild::Text(_) => true,
    }
}

/// Idempotence of attribute-name normalization: on a tame tree, running
/// the pass twice produces the same output as running it once.
pub proof fn lemma_norm_idempotent(e: JsxElement)
    requires
        spec_tame_elem(e),
    ensures
        spec_norm_elem(spec_norm_elem(e)) == spec_norm_elem(e),
    decreases e,
{
    lemma_norm_idem_items(e.attrs);
    lemma_norm_idem_children(e.children);
}

proof fn lemma_norm_idem_items(l: List<AttrItem>)
    requires
        spec_tame_items(l),
    ensures
        spec_norm_items(spec_norm_items(l)) == spec_norm_items(l),
    decreases l,
{
    match l {
        List::Nil => {}
        List::Cons(item, rest) => {
            lemma_norm_idem_item(item);
            lemma_norm_idem_items(*rest);
        }
    }
}

proof fn lemma_norm_idem_item(item: AttrItem)
    requires
        spec_tame_item(item),
    ensures
        spec_norm_item(spec_norm_item(item)) == spec_norm_item(item),
    decreases item,
{
    match item {
        AttrItem::Attr(a) => {
            let walked = match a.value {
                Some(AttrValue::Expr(x)) => Some(AttrValue::Expr(spec_norm_expr(x))),
                other => other,
            };
            match a.value {
                Some(AttrValue::Expr(x)) => {
                    lemma_norm_idem_expr(x);
                }
                _ => {}
            }
            let a1 = spec_norm_attr(a.name, walked);
            // The second run walks `a1.value`; show it is unchanged.
            let walked2 = match a1.value {
                Some(AttrValue::Expr(y)) => Some(AttrValue::Expr(spec_norm_expr(y))),
                other => other,
            };
            assert(walked2 == a1.value);
            // The second run's name logic is the identity on a tame name.
            match a1.name {
                AttrName::Plain(m) => {
                    if m == list_of("style"@) {
                    } else {
                        lemma_h2c_fixpoint(m);
                    }
                }
                AttrName::Namespaced(_, _) => {
                    assert(false);
                }
            }
        }
        AttrItem::Spread(x) => {
            lemma_norm_idem_expr(x);
        }
    }
}

proof fn lemma_norm_idem_expr(x: JsExpr)
    requires
        spec_tame_expr(x),
    ensures
        spec_norm_expr(spec_norm_expr(x)) == spec_norm_expr(x),
    decreases x,
{
    match x {
        JsExpr::Cond(t, c, a) => {
            lemma_norm_idem_expr(*t);
            lemma_norm_idem_expr(*c);
            lemma_norm_idem_expr(*a);
        }
        JsExpr::StrictEq(l, r) => {
            lemma_norm_idem_expr(*l);
            lemma_norm_idem_expr(*r);
        }
        JsExpr::Or(l, r) => {
            lemma_norm_idem_expr(*l);
            lemma_norm_idem_expr(*r);
        }
        JsExpr::Element(e) => {
            lemma_norm_idempotent(*e);
        }
        _ => {}
    }
}

proof fn lemma_norm_idem_children(l: List<JsxChild>)
    requires
        spec_tame_children(l),
    ensures
        spec_norm_children(spec_norm_children(l)) == spec_norm_children(l),
    decreases l,
{
    match l {
        List::Nil => {}
        List::Cons(c, rest) => {
            lemma_norm_idem_child(c);
            lemma_norm_idem_children(*rest);
        }
    }
}

proof fn lemma_norm_idem_child(c: JsxChild)
    requires
        spec_tame_child(c),
    ensures
        spec_norm_child(spec_norm_child(c)) == spec_norm_child(c),
    decreases c,
{
    match c {
        JsxChild::Element(e) => {
            lemma_norm_idempotent(*e);
        }
        JsxChild::Container(x) => {
            lemma_norm_idem_expr(x);
        }
        JsxChild::Text(_) => {}
    }
}

/// Applies the pass to one element and everything below it.
pub fn normalize_element(e: JsxElement) -> (r: JsxElement)
    ensures
        r == spec_norm_elem(e),
    decreases e,
{
    let JsxElement { name, attrs, children, self_closing } = e;
    JsxElement {
        name,
        attrs: norm_items(attrs),
        children: norm_children(children),
        self_closing,
    }
}

fn norm_items(l: List<AttrItem>) -> (r: List<AttrItem>)
    ensures
        r == spec_norm_items(l),
    decreases l,
{
    match l {
        List::Nil => List::Nil,
        List::Cons(item, rest) => List::Cons(norm_item(item), Box::new(norm_items(*rest))),
    }
}

fn norm_item(item: AttrItem) -> (r: AttrItem)
    ensures
        r == spec_norm_item(item),
    decreases item,
{
    match item {
        AttrItem::Attr(a) => {
            let walked = match a.value {
                Some(AttrValue::Expr(x)) => Some(AttrValue::Expr(norm_expr(x))),
                other => other,
            };
            AttrItem::Attr(norm_attr(a.name, walked))
        }
        AttrItem::Spread(x) => AttrItem::Spread(norm_expr(x)),
    }
}

fn norm_expr(x: JsExpr) -> (r: JsExpr)
    ensures
        r == spec_norm_expr(x),
    decreases x,
{
    match x {
        JsExpr::Cond(t, c, a) => JsExpr::Cond(
            Box::new(norm_expr(*t)),
            Box::new(norm_expr(*c)),
            Box::new(norm_expr(*a)),
        ),
        JsExpr::StrictEq(l, r) => JsExpr::StrictEq(
            Box::new(norm_expr(*l)),
            Box::new(norm_expr(*r)),
        ),
        JsExpr::Or(l, r) => JsExpr::Or(Box::new(norm_expr(*l)), Box::new(norm_expr(*r))),
        JsExpr::Element(e) => JsExpr::Element(Box::new(normalize_element(*e))),
        other => other,
    }
}

fn norm_children(l: List<JsxChild>) -> (r: List<JsxChild>)
    ensures
        r == spec_norm_children(l),
    decreases l,
{
    match l {
        List::Nil => List::Nil,
        List::Cons(c, rest) => List::Cons(norm_child(c), Box::new(norm_children(*rest))),
    }
}

fn norm_child(c: JsxChild) -> (r: JsxChild)
    ensures
        r == spec_norm_child(c),
    decreases c,
{
    match c {
        JsxChild::Element(e) => JsxChild::Element(Box::new(normalize_element(*e))),
        JsxChild::Container(x) => JsxChild::Container(norm_expr(x)),
        JsxChild::Text(t) => JsxChild::Text(t),
    }
}

} // verus!
