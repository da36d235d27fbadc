//! Names, attribute values and code fragments as character lists.
//!
//! Text is held as `List<char>`, so that two texts are equal in
//! specifications exactly when they spell the same characters.  `list_of`
//! injects the view of a string slice into the model; `text` is its
//! executable counterpart and the only bridge from `&str` into the model.

use vstd::prelude::*;

use crate::list::List;

verus! {

pub type Text = List<char>;

/// The character list spelling the string `s`.
pub open spec fn list_of(s: Seq<char>) -> Text
    decreases s.len(),
{
    if s.len() == 0 {
        List::Nil
    } else {
        List::Cons(s[0], Box::new(list_of(s.drop_first())))
    }
}

/// True when `p` is a prefix of `t`.
pub open spec fn is_prefix(p: Text, t: Text) -> bool
    decreases p,
{
    match p {
        List::Nil => true,
        List::Cons(c, pr) => match t {
            List::Nil => false,
            List::Cons(d, tr) => c == d && is_prefix(*pr, *tr),
        },
    }
}

/// Builds the tail of `list_of(s@)` that starts at character `i`.
fn text_from(s: &str, i: usize) -> (r: Text)
    requires
        i <= s@.len(),
    ensures
        r == list_of(s@.subrange(i as int, s@.len() as int)),
    decreases s@.len() - i,
{
    let n = s.unicode_len();
    if i == n {
        proof {
            assert(s@.subrange(i as int, s@.len() as int).len() == 0);
        }
        List::Nil
    } else {
        let c = s.get_char(i);
        let rest = text_from(s, i + 1);
        proof {
            let whole = s@.subrange(i as int, s@.len() as int);
            assert(whole.drop_first() =~= s@.subrange(i + 1, s@.len() as int));
            assert(whole[0] == s@[i as int]);
        }
        List::Cons(c, Box::new(rest))
    }
}

/// The model text spelling the string `s`.
pub fn text(s: &str) -> (r: Text)
    ensures
        r == list_of(s@),
{
    let r = text_from(s, 0);
    proof {
        assert(s@.subrange(0, s@.len() as int) =~= s@);
    }
    r
}

/// Decides equality of two texts.
pub fn eq_text(a: &Text, b: &Text) -> (r: bool)
    ensures
        r == (*a == *b),
    decreases *a,
{
    match (a, b) {
        (List::Nil, List::Nil) => true,
        (List::Cons(x, xt), List::Cons(y, yt)) => {
            if *x == *y {
                eq_text(xt, yt)
            } else {
                false
            }
        }
        _ => false,
    }
}

/// Decides membership of a text in a list of texts.
pub fn contains_text(l: &List<Text>, x: &Text) -> (r: bool)
    ensures
        r == l.contains(*x),
    decreases *l,
{
    match l {
        List::Nil => false,
        List::Cons(y, tail) => {
            if eq_text(y, x) {
                true
            } else {
                contains_text(tail, x)
            }
        }
    }
}

/// Decides whether `p` is a prefix of `t`.
pub fn has_prefix(t: &Text, p: &Text) -> (r: bool)
    ensures
        r == is_prefix(*p, *t),
    decreases *p,
{
    match (p, t) {
        (List::Nil, _) => true,
        (List::Cons(c, pr), List::Cons(d, tr)) => {
            if *c == *d {
                has_prefix(tr, pr)
            } else {
                false
            }
        }
        (List::Cons(_, _), List::Nil) => false,
    }
}

/// Concatenation of two texts, and of lists generally.
pub fn append_list<T>(a: List<T>, b: List<T>) -> (r: List<T>)
    ensures
        r == a.append(b),
    decreases a,
{
    match a {
        List::Nil => b,
        List::Cons(x, tail) => List::Cons(x, Box::new(append_list(*tail, b))),
    }
}

} // verus!
