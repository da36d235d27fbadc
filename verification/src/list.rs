//! A purely algebraic sequence type.
//!
//! The markup model is built from `List` rather than `Vec` so that every
//! transformation can be written as a total specification function over
//! plain datatypes, and so that structural equality in specifications is
//! exactly equality of the modelled values.

use vstd::prelude::*;

verus! {

#[derive(Debug, PartialEq, Eq)]
pub enum List<T> {
    Nil,
    Cons(T, Box<List<T>>),
}

impl<T> List<T> {
    /// Number of items in the list.
    pub open spec fn len(self) -> nat
        decreases self,
    {
        match self {
            List::Nil => 0,
            List::Cons(_, tail) => 1 + (*tail).len(),
        }
    }

    /// True when `x` occurs in the list.
    pub open spec fn contains(self, x: T) -> bool
        decreases self,
    {
        match self {
            List::Nil => false,
            List::Cons(y, tail) => y == x || (*tail).contains(x),
        }
    }

    /// `self` followed by `other`.
    pub open spec fn append(self, other: List<T>) -> List<T>
        decreases self,
    {
        match self {
            List::Nil => other,
            List::Cons(y, tail) => List::Cons(y, Box::new((*tail).append(other))),
        }
    }

    /// The list with `x` added at the end.
    pub open spec fn push_back(self, x: T) -> List<T> {
        self.append(List::Cons(x, Box::new(List::Nil)))
    }

}

/// Appending the empty list on the right changes nothing.
pub proof fn lemma_append_nil<T>(a: List<T>)
    ensures
        a.append(List::Nil) == a,
    decreases a,
{
    match a {
        List::Nil => {}
        List::Cons(_, tail) => {
            lemma_append_nil(*tail);
        }
    }
}

} // verus!
